use plyx_tui::add_widget::{add_result_display, AddCursor, AddResult, AddWidget};
use plyx_tui::feature_select::Feature;
use plyx_tui::{add_widget, Key};

fn features() -> Vec<Feature> {
    vec![
        Feature {
            key: String::from("a"),
            label: String::from("A"),
            desc: String::from("descA"),
        },
        Feature {
            key: String::from("b"),
            label: String::from("B"),
            desc: String::from("descB"),
        },
    ]
}

fn strs(v: &[&str]) -> Vec<String> {
    v.iter().map(|s| String::from(*s)).collect()
}

fn step(st: &mut AddWidget, key: Key, fs: &Vec<Feature>, fonts: &Vec<String>, locked: &Vec<String>, installed: &Vec<String>) -> Option<AddResult> {
    st.handle_key(&key, fs, fonts, locked, installed)
}

#[test]
fn zone_traversal_boundaries() {
    let fs = features();
    let fonts = strs(&["Lato"]);
    let locked = strs(&[]);
    let installed = strs(&[]);
    let mut st = AddWidget::new(&fs, &locked);
    assert_eq!(st.cursor, AddCursor::Feature(0));
    step(&mut st, Key::Down, &fs, &fonts, &locked, &installed);
    assert_eq!(st.cursor, AddCursor::Feature(1));
    step(&mut st, Key::Down, &fs, &fonts, &locked, &installed);
    assert_eq!(st.cursor, AddCursor::FontSearch);
    step(&mut st, Key::Down, &fs, &fonts, &locked, &installed);
    assert_eq!(st.cursor, AddCursor::Done);
    step(&mut st, Key::Up, &fs, &fonts, &locked, &installed);
    assert_eq!(st.cursor, AddCursor::FontSearch);
    step(&mut st, Key::Up, &fs, &fonts, &locked, &installed);
    assert_eq!(st.cursor, AddCursor::Feature(1));
}

#[test]
fn installed_font_is_rejected_without_error() {
    let fs: Vec<Feature> = vec![];
    let fonts = strs(&["Roboto", "Lato"]);
    let locked = strs(&[]);
    let installed = strs(&["Roboto"]);
    let keys = vec![
        Key::Down,
        Key::Char('r'),
        Key::Char('o'),
        Key::Char('b'),
        Key::Enter,
        Key::Down,
        Key::Enter,
    ];
    let r = add_widget(&fs, &fonts, &locked, &installed, &keys).unwrap();
    assert_eq!(r.fonts, strs(&[]));
    assert_eq!(r.features, strs(&[]));
}

#[test]
fn duplicate_add_raises_notice_and_clears_query() {
    let fs: Vec<Feature> = vec![];
    let fonts = strs(&["Roboto"]);
    let locked = strs(&[]);
    let installed = strs(&["Roboto"]);
    let mut st = AddWidget::new(&fs, &locked);
    step(&mut st, Key::Down, &fs, &fonts, &locked, &installed);
    assert_eq!(st.cursor, AddCursor::FontSearch);
    step(&mut st, Key::Char('r'), &fs, &fonts, &locked, &installed);
    assert_eq!(st.query, "r");
    step(&mut st, Key::Enter, &fs, &fonts, &locked, &installed);
    assert!(st.font_notice);
    assert_eq!(st.query, "");
    assert_eq!(st.added, strs(&[]));
}

#[test]
fn added_fonts_accumulate_in_order() {
    let fs: Vec<Feature> = vec![];
    let fonts = strs(&["Lato", "Roboto"]);
    let locked = strs(&[]);
    let installed = strs(&[]);
    let keys = vec![
        Key::Down,
        Key::Char('l'),
        Key::Enter,
        Key::Char('r'),
        Key::Enter,
        Key::Down,
        Key::Enter,
    ];
    let r = add_widget(&fs, &fonts, &locked, &installed, &keys).unwrap();
    assert_eq!(r.fonts, strs(&["Lato", "Roboto"]));
}

#[test]
fn a_font_added_this_session_is_rejected_the_second_time() {
    let fs: Vec<Feature> = vec![];
    let fonts = strs(&["Lato"]);
    let locked = strs(&[]);
    let installed = strs(&[]);
    let keys = vec![
        Key::Down,
        Key::Char('l'),
        Key::Enter,
        Key::Char('l'),
        Key::Enter,
        Key::Down,
        Key::Enter,
    ];
    let r = add_widget(&fs, &fonts, &locked, &installed, &keys).unwrap();
    assert_eq!(r.fonts, strs(&["Lato"]));
}

#[test]
fn esc_clears_the_font_query() {
    let fs: Vec<Feature> = vec![];
    let fonts = strs(&["Lato", "Roboto"]);
    let locked = strs(&[]);
    let installed = strs(&[]);
    let keys = vec![
        Key::Down,
        Key::Char('z'),
        Key::Esc,
        Key::Enter,
        Key::Down,
        Key::Enter,
    ];
    let r = add_widget(&fs, &fonts, &locked, &installed, &keys).unwrap();
    assert_eq!(r.fonts, strs(&["Lato"]));
}

#[test]
fn commit_returns_new_features_and_fonts() {
    let fs = features();
    let fonts = strs(&["Lato"]);
    let locked = strs(&["a"]);
    let installed = strs(&[]);
    let keys = vec![
        Key::Down,
        Key::Char(' '),
        Key::Down,
        Key::Char('l'),
        Key::Enter,
        Key::Down,
        Key::Char(' '),
    ];
    let r = add_widget(&fs, &fonts, &locked, &installed, &keys).unwrap();
    assert_eq!(r.features, strs(&["b"]));
    assert_eq!(r.fonts, strs(&["Lato"]));
}

#[test]
fn locked_feature_toggle_raises_notice_and_is_never_committed() {
    let fs = features();
    let fonts = strs(&[]);
    let locked = strs(&["a"]);
    let installed = strs(&[]);
    let keys = vec![
        Key::Char(' '),
        Key::Char(' '),
        Key::Down,
        Key::Down,
        Key::Down,
        Key::Enter,
    ];
    let r = add_widget(&fs, &fonts, &locked, &installed, &keys).unwrap();
    assert_eq!(r.features, strs(&[]));
    assert_eq!(r.fonts, strs(&[]));
}

#[test]
fn widget_without_committing_key_returns_none() {
    let fs = features();
    let fonts = strs(&[]);
    let r = add_widget(&fs, &fonts, &strs(&[]), &strs(&[]), &vec![Key::Down]);
    assert!(r.is_none());
}

#[test]
fn up_from_first_feature_row_stays_put() {
    let fs = features();
    let fonts = strs(&[]);
    let locked = strs(&[]);
    let installed = strs(&[]);
    let mut st = AddWidget::new(&fs, &locked);
    step(&mut st, Key::Up, &fs, &fonts, &locked, &installed);
    assert_eq!(st.cursor, AddCursor::Feature(0));
}

#[test]
fn display_of_empty_result_reports_no_changes() {
    let r = AddResult { features: strs(&[]), fonts: strs(&[]) };
    assert_eq!(add_result_display(&features(), &r), "(no changes)");
}

#[test]
fn display_joins_labels_and_fonts() {
    let r = AddResult { features: strs(&["b"]), fonts: strs(&["Lato"]) };
    assert_eq!(add_result_display(&features(), &r), "Features: B | Fonts: Lato");
    let r = AddResult { features: strs(&["a", "b"]), fonts: strs(&[]) };
    assert_eq!(add_result_display(&features(), &r), "Features: A, B");
    let r = AddResult { features: strs(&[]), fonts: strs(&["Lato", "Roboto"]) };
    assert_eq!(add_result_display(&features(), &r), "Fonts: Lato, Roboto");
}
