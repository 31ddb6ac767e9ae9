use plyx_tui::filter;

fn items(v: &[&str]) -> Vec<String> {
    v.iter().map(|s| String::from(*s)).collect()
}

#[test]
fn empty_query_returns_items_unchanged() {
    let xs = items(&["Open Sans", "Source Sans", "Comic Sans"]);
    let r = filter(&xs, "");
    assert_eq!(r, xs);
}

#[test]
fn all_substring_matches_keep_input_order() {
    let xs = items(&["Open Sans", "Source Sans", "Comic Sans"]);
    let r = filter(&xs, "sans");
    assert_eq!(r, items(&["Open Sans", "Source Sans", "Comic Sans"]));
}

#[test]
fn prefix_matches_come_before_substring_matches() {
    let xs = items(&["Roboto", "Oswald", "Open Sans"]);
    let r = filter(&xs, "o");
    assert_eq!(r, items(&["Oswald", "Open Sans", "Roboto"]));
}

#[test]
fn query_is_lowercased_before_matching() {
    let xs = items(&["open sans"]);
    let r = filter(&xs, "SANS");
    assert_eq!(r, items(&["open sans"]));
}

#[test]
fn items_are_lowercased_before_matching() {
    let xs = items(&["OPEN SANS", "LATO"]);
    let r = filter(&xs, "pen");
    assert_eq!(r, items(&["OPEN SANS"]));
}

#[test]
fn non_matching_items_are_excluded() {
    let xs = items(&["Roboto", "Lato"]);
    let r = filter(&xs, "zzz");
    assert_eq!(r, items(&[]));
}

#[test]
fn prefix_and_substring_groups_each_keep_order() {
    let xs = items(&["Lato", "Alata", "Lateef", "Galada"]);
    let r = filter(&xs, "la");
    assert_eq!(r, items(&["Lato", "Lateef", "Alata", "Galada"]));
}
