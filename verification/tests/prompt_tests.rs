use plyx_tui::{confirm, search_select, text_input, Key};

fn items(v: &[&str]) -> Vec<String> {
    v.iter().map(|s| String::from(*s)).collect()
}

#[test]
fn confirm_enter_is_yes() {
    assert_eq!(confirm(&vec![Key::Enter]), Some(true));
}

#[test]
fn confirm_y_is_yes() {
    assert_eq!(confirm(&vec![Key::Char('y')]), Some(true));
    assert_eq!(confirm(&vec![Key::Char('Y')]), Some(true));
}

#[test]
fn confirm_n_and_esc_are_no() {
    assert_eq!(confirm(&vec![Key::Char('n')]), Some(false));
    assert_eq!(confirm(&vec![Key::Char('N')]), Some(false));
    assert_eq!(confirm(&vec![Key::Esc]), Some(false));
}

#[test]
fn confirm_ignores_other_keys_until_a_decision() {
    let keys = vec![Key::Up, Key::Down, Key::Char('x'), Key::Char('n')];
    assert_eq!(confirm(&keys), Some(false));
}

#[test]
fn confirm_without_decision_returns_none() {
    assert_eq!(confirm(&vec![]), None);
    assert_eq!(confirm(&vec![Key::Other, Key::Char('q')]), None);
}

#[test]
fn confirm_prompt_and_echo_text() {
    assert_eq!(plyx_tui::confirm::confirm_prompt_display("Go?"), "? Go? [Y/n] ");
    assert_eq!(plyx_tui::confirm::confirm_echo(true), "Yes");
    assert_eq!(plyx_tui::confirm::confirm_echo(false), "No");
}

#[test]
fn text_input_returns_typed_text() {
    let keys = vec![Key::Char('h'), Key::Char('i'), Key::Enter];
    assert_eq!(text_input("app", &keys), Some(String::from("hi")));
}

#[test]
fn text_input_empty_buffer_uses_default() {
    assert_eq!(text_input("app", &vec![Key::Enter]), Some(String::from("app")));
}

#[test]
fn text_input_backspace_removes_last_character() {
    let keys = vec![Key::Char('a'), Key::Char('b'), Key::Backspace, Key::Enter];
    assert_eq!(text_input("app", &keys), Some(String::from("a")));
}

#[test]
fn text_input_backspace_to_empty_falls_back_to_default() {
    let keys = vec![Key::Char('a'), Key::Backspace, Key::Enter];
    assert_eq!(text_input("dflt", &keys), Some(String::from("dflt")));
}

#[test]
fn text_input_backspace_on_empty_buffer_is_harmless() {
    let keys = vec![Key::Backspace, Key::Backspace, Key::Enter];
    assert_eq!(text_input("dflt", &keys), Some(String::from("dflt")));
}

#[test]
fn text_input_without_enter_returns_none() {
    assert_eq!(text_input("app", &vec![Key::Char('a')]), None);
}

#[test]
fn search_select_commits_top_match() {
    let xs = items(&["Roboto", "Lato", "Oswald"]);
    let keys = vec![Key::Char('l'), Key::Char('a'), Key::Enter];
    assert_eq!(search_select(&xs, &keys), Some(String::from("Lato")));
}

#[test]
fn search_select_empty_query_commits_first_item() {
    let xs = items(&["Roboto", "Lato"]);
    assert_eq!(search_select(&xs, &vec![Key::Enter]), Some(String::from("Roboto")));
}

#[test]
fn search_select_enter_on_empty_filter_is_a_no_op() {
    let xs = items(&["Roboto", "Lato"]);
    let keys = vec![
        Key::Char('z'),
        Key::Char('z'),
        Key::Enter,
        Key::Backspace,
        Key::Backspace,
        Key::Enter,
    ];
    assert_eq!(search_select(&xs, &keys), Some(String::from("Roboto")));
}

#[test]
fn search_select_on_no_items_never_commits() {
    let xs = items(&[]);
    assert_eq!(search_select(&xs, &vec![Key::Enter, Key::Enter]), None);
}

#[test]
fn search_select_prefers_prefix_match() {
    let xs = items(&["Roboto", "Oswald"]);
    let keys = vec![Key::Char('o'), Key::Enter];
    assert_eq!(search_select(&xs, &keys), Some(String::from("Oswald")));
}
