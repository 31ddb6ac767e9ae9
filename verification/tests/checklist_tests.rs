use plyx_tui::feature_select::{feature_select_display, Feature, FeatureSelect};
use plyx_tui::{feature_select, Key};

fn features() -> Vec<Feature> {
    vec![
        Feature {
            key: String::from("a"),
            label: String::from("A"),
            desc: String::from("descA"),
        },
        Feature {
            key: String::from("b"),
            label: String::from("B"),
            desc: String::from("descB"),
        },
    ]
}

fn strs(v: &[&str]) -> Vec<String> {
    v.iter().map(|s| String::from(*s)).collect()
}

#[test]
fn down_space_down_enter_selects_b() {
    let keys = vec![Key::Down, Key::Char(' '), Key::Down, Key::Enter];
    let r = feature_select(&features(), &strs(&[]), &strs(&["a"]), &keys);
    assert_eq!(r, Some(strs(&["b"])));
}

#[test]
fn toggling_twice_restores_the_original_state() {
    let keys = vec![
        Key::Char(' '),
        Key::Char(' '),
        Key::Down,
        Key::Down,
        Key::Enter,
    ];
    let r = feature_select(&features(), &strs(&[]), &strs(&[]), &keys);
    assert_eq!(r, Some(strs(&[])));
}

#[test]
fn locked_key_stays_out_despite_toggle_attempts() {
    let keys = vec![
        Key::Char(' '),
        Key::Char(' '),
        Key::Char(' '),
        Key::Down,
        Key::Down,
        Key::Enter,
    ];
    let r = feature_select(&features(), &strs(&[]), &strs(&["a"]), &keys);
    assert_eq!(r, Some(strs(&[])));
}

#[test]
fn locked_key_is_excluded_even_when_pre_checked() {
    let keys = vec![Key::Down, Key::Down, Key::Enter];
    let r = feature_select(&features(), &strs(&["a"]), &strs(&["a"]), &keys);
    assert_eq!(r, Some(strs(&[])));
}

#[test]
fn pre_checked_keys_are_committed_untouched() {
    let keys = vec![Key::Down, Key::Down, Key::Enter];
    let r = feature_select(&features(), &strs(&["b"]), &strs(&[]), &keys);
    assert_eq!(r, Some(strs(&["b"])));
}

#[test]
fn cursor_clamps_at_both_ends() {
    let keys = vec![
        Key::Up,
        Key::Up,
        Key::Char(' '),
        Key::Down,
        Key::Down,
        Key::Down,
        Key::Down,
        Key::Enter,
    ];
    let r = feature_select(&features(), &strs(&[]), &strs(&[]), &keys);
    assert_eq!(r, Some(strs(&["a"])));
}

#[test]
fn space_on_action_row_commits() {
    let keys = vec![Key::Down, Key::Enter, Key::Down, Key::Char(' ')];
    let r = feature_select(&features(), &strs(&[]), &strs(&[]), &keys);
    assert_eq!(r, Some(strs(&["b"])));
}

#[test]
fn no_committing_key_returns_none() {
    let keys = vec![Key::Down, Key::Char(' '), Key::Esc];
    let r = feature_select(&features(), &strs(&[]), &strs(&[]), &keys);
    assert_eq!(r, None);
}

#[test]
fn locked_toggle_raises_notice_and_esc_clears_it() {
    let fs = features();
    let locked = strs(&["a"]);
    let mut st = FeatureSelect::new(&fs, &strs(&[]));
    assert_eq!(st.notice, None);
    let r = st.handle_key(&Key::Char(' '), &fs, &locked);
    assert!(r.is_none());
    assert_eq!(st.notice, Some(0));
    assert_eq!(st.checked, vec![false, false]);
    let r = st.handle_key(&Key::Esc, &fs, &locked);
    assert!(r.is_none());
    assert_eq!(st.notice, None);
}

#[test]
fn navigation_clears_the_notice() {
    let fs = features();
    let locked = strs(&["a"]);
    let mut st = FeatureSelect::new(&fs, &strs(&[]));
    st.handle_key(&Key::Char(' '), &fs, &locked);
    assert_eq!(st.notice, Some(0));
    st.handle_key(&Key::Down, &fs, &locked);
    assert_eq!(st.notice, None);
    assert_eq!(st.cursor, 1);
}

#[test]
fn display_of_empty_result_is_none_marker() {
    let r = feature_select_display(&features(), &strs(&[]));
    assert_eq!(r, "(none)");
}

#[test]
fn display_joins_selected_labels() {
    let r = feature_select_display(&features(), &strs(&["b"]));
    assert_eq!(r, "B");
    let r = feature_select_display(&features(), &strs(&["a", "b"]));
    assert_eq!(r, "A, B");
}
