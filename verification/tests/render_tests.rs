use plyx_tui::add_widget::AddWidget;
use plyx_tui::feature_select::Feature;
use plyx_tui::render::{
    render_add, render_features, render_search, render_text_input, Style, VISIBLE_RESULTS,
};
use plyx_tui::Key;

fn features() -> Vec<Feature> {
    vec![
        Feature {
            key: String::from("a"),
            label: String::from("A"),
            desc: String::from("descA"),
        },
        Feature {
            key: String::from("b"),
            label: String::from("B"),
            desc: String::from("descB"),
        },
    ]
}

fn strs(v: &[&str]) -> Vec<String> {
    v.iter().map(|s| String::from(*s)).collect()
}

#[test]
fn text_input_frame_shows_placeholder_while_empty() {
    let f = render_text_input("Name", "", "app");
    assert_eq!(f.lines.len(), 1);
    assert_eq!(f.lines[0].text, "? Name app");
    assert_eq!(f.lines[0].style, Style::Prompt);
    assert_eq!(f.occupied, 0);
    assert_eq!(f.park_row, 0);
    assert_eq!(f.park_col, 7);
}

#[test]
fn text_input_frame_shows_buffer_and_tracks_column() {
    let f = render_text_input("Name", "xy", "app");
    assert_eq!(f.lines[0].text, "? Name xy");
    assert_eq!(f.park_col, 9);
}

#[test]
fn search_frame_caps_displayed_results() {
    let xs = strs(&["f1", "f2", "f3", "f4", "f5", "f6", "f7", "f8"]);
    let f = render_search("Pick", "", &xs, &strs(&[]), "help");
    assert_eq!(f.lines.len(), 1 + VISIBLE_RESULTS + 1);
    assert_eq!(f.lines[0].text, "? Pick (type to search)");
    assert_eq!(f.lines[1].text, "  f1");
    assert_eq!(f.lines[1].style, Style::Highlight);
    assert_eq!(f.lines[2].style, Style::Plain);
    assert_eq!(f.lines[6].text, "  f6");
    assert_eq!(f.lines[7].text, "  help");
    assert_eq!(f.lines[7].style, Style::Dim);
    assert_eq!(f.occupied, 0);
    assert_eq!(f.park_col, 3 + 4);
}

#[test]
fn search_frame_reflects_the_query() {
    let xs = strs(&["Lato", "Roboto"]);
    let f = render_search("Pick", "la", &xs, &strs(&[]), "");
    assert_eq!(f.lines.len(), 2);
    assert_eq!(f.lines[0].text, "? Pick la");
    assert_eq!(f.lines[1].text, "  Lato");
    assert_eq!(f.park_col, 3 + 4 + 2);
}

#[test]
fn search_frame_marks_selected_entries() {
    let xs = strs(&["Lato", "Roboto"]);
    let f = render_search("Pick", "", &xs, &strs(&["Roboto"]), "");
    assert_eq!(f.lines[1].style, Style::Highlight);
    assert_eq!(f.lines[2].style, Style::Checked);
}

#[test]
fn features_frame_lays_out_rows_and_action() {
    let fs = features();
    let f = render_features("P", &fs, 0, &vec![false, true], &strs(&[]), &None, "Create!", "");
    assert_eq!(f.lines.len(), 4);
    assert_eq!(f.lines[0].text, "? P");
    assert_eq!(f.lines[1].text, "    [ ] A: descA");
    assert_eq!(f.lines[1].style, Style::Highlight);
    assert_eq!(f.lines[2].text, "    [x] B: descB");
    assert_eq!(f.lines[2].style, Style::Checked);
    assert_eq!(f.lines[3].text, "    > Create!");
    assert_eq!(f.lines[3].style, Style::Plain);
    assert_eq!(f.occupied, 4);
    assert_eq!(f.park_row, 4);
    assert_eq!(f.park_col, 0);
}

#[test]
fn features_frame_highlights_action_under_cursor() {
    let fs = features();
    let f = render_features("P", &fs, 2, &vec![false, false], &strs(&[]), &None, "Done!", "");
    assert_eq!(f.lines[3].style, Style::Highlight);
    assert_eq!(f.lines[1].style, Style::Plain);
}

#[test]
fn features_frame_renders_locked_as_checked() {
    let fs = features();
    let f = render_features("P", &fs, 2, &vec![false, false], &strs(&["a"]), &None, "Done!", "");
    assert_eq!(f.lines[1].text, "    [x] A: descA");
    assert_eq!(f.lines[1].style, Style::Checked);
}

#[test]
fn features_frame_notice_replaces_its_row() {
    let fs = features();
    let f = render_features("P", &fs, 1, &vec![false, false], &strs(&["a"]), &Some(0), "Done!", "h");
    assert_eq!(f.lines[1].text, "    Sorry, plyx doesn't want to break anything :(");
    assert_eq!(f.lines[1].style, Style::Notice);
    assert_eq!(f.lines[4].text, "  h");
    assert_eq!(f.lines.len(), 5);
}

#[test]
fn confirmed_line_shows_prompt_and_value() {
    let line = plyx_tui::render::confirmed_display("Pick a font:", "Lato");
    assert_eq!(line, "\u{2714} Pick a font: Lato");
}

#[test]
fn add_frame_parks_on_the_search_row() {
    let fs = features();
    let fonts = strs(&["Lato", "Roboto"]);
    let locked = strs(&["a"]);
    let installed = strs(&[]);
    let mut st = AddWidget::new(&fs, &locked);
    st.handle_key(&Key::Down, &fs, &fonts, &locked, &installed);
    st.handle_key(&Key::Down, &fs, &fonts, &locked, &installed);
    let f = render_add("P", &fs, &fonts, &locked, &installed, &st, "h");
    // prompt, 2 features, search row, 2 fonts, done, help
    assert_eq!(f.lines.len(), 8);
    assert_eq!(f.lines[0].text, "? P");
    assert_eq!(f.lines[1].text, "    [x] A: descA");
    assert_eq!(f.lines[3].text, "  Add fonts: (type to search)");
    assert_eq!(f.lines[3].style, Style::Highlight);
    assert_eq!(f.lines[4].text, "    Lato");
    assert_eq!(f.lines[4].style, Style::Highlight);
    assert_eq!(f.lines[5].text, "    Roboto");
    assert_eq!(f.lines[5].style, Style::Plain);
    assert_eq!(f.lines[6].text, "    > Done!");
    assert_eq!(f.lines[7].text, "  h");
    assert_eq!(f.park_row, 3);
    assert_eq!(f.occupied, 3);
    assert_eq!(f.park_col, 13);
}

#[test]
fn add_frame_parks_below_for_navigation_zones() {
    let fs = features();
    let fonts = strs(&["Lato"]);
    let locked = strs(&[]);
    let installed = strs(&[]);
    let st = AddWidget::new(&fs, &locked);
    let f = render_add("P", &fs, &fonts, &locked, &installed, &st, "");
    // prompt, 2 features, search row, 1 font, done
    assert_eq!(f.lines.len(), 6);
    assert_eq!(f.lines[1].style, Style::Highlight);
    assert_eq!(f.lines[3].style, Style::Plain);
    assert_eq!(f.lines[4].style, Style::Plain);
    assert_eq!(f.occupied, 6);
    assert_eq!(f.park_row, 6);
    assert_eq!(f.park_col, 0);
}

#[test]
fn add_frame_shows_summary_once_something_is_picked() {
    let fs = features();
    let fonts = strs(&["Lato"]);
    let locked = strs(&["a"]);
    let installed = strs(&[]);
    let mut st = AddWidget::new(&fs, &locked);
    st.handle_key(&Key::Down, &fs, &fonts, &locked, &installed);
    st.handle_key(&Key::Char(' '), &fs, &fonts, &locked, &installed);
    st.handle_key(&Key::Down, &fs, &fonts, &locked, &installed);
    st.handle_key(&Key::Char('l'), &fs, &fonts, &locked, &installed);
    st.handle_key(&Key::Enter, &fs, &fonts, &locked, &installed);
    let f = render_add("P", &fs, &fonts, &locked, &installed, &st, "");
    // prompt, 2 features, search row, 1 font row, done, summary
    assert_eq!(f.lines.len(), 7);
    assert_eq!(f.lines[6].text, "  +B  +Lato");
    assert_eq!(f.lines[6].style, Style::Dim);
    // the added font is marked in the result rows
    assert_eq!(f.lines[4].style, Style::Highlight);
}

#[test]
fn add_frame_font_notice_replaces_result_rows() {
    let fs: Vec<Feature> = vec![];
    let fonts = strs(&["Roboto"]);
    let locked = strs(&[]);
    let installed = strs(&["Roboto"]);
    let mut st = AddWidget::new(&fs, &locked);
    st.handle_key(&Key::Down, &fs, &fonts, &locked, &installed);
    st.handle_key(&Key::Char('r'), &fs, &fonts, &locked, &installed);
    st.handle_key(&Key::Enter, &fs, &fonts, &locked, &installed);
    assert!(st.font_notice);
    let f = render_add("P", &fs, &fonts, &locked, &installed, &st, "");
    // prompt, search row, notice, done
    assert_eq!(f.lines.len(), 4);
    assert_eq!(f.lines[1].text, "  Add fonts: (type to search)");
    assert_eq!(f.lines[2].text, "    Sorry, plyx doesn't want to break anything :(");
    assert_eq!(f.lines[2].style, Style::Notice);
    assert_eq!(f.lines[3].text, "    > Done!");
}
