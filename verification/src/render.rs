//! The redraw engine, as pure frame computation.
//!
//! A redraw erases the previous frame and rewrites every visual line of the
//! current state, then parks the terminal cursor at the widget's active
//! point. A `Frame` carries exactly that: the lines to write top to bottom,
//! the row and column to park the cursor at, and the occupied-line count to
//! hand to the next redraw. The painter that turns a frame into terminal
//! commands moves up `occupied` rows from the cursor, clears downward,
//! writes each line, moves back up `lines.len() - park_row` rows and sets
//! the cursor column — so the protocol is sound exactly when `occupied`
//! equals `park_row`, which every renderer here guarantees.

use crate::add_widget::{aw_wf, AddCursor, AddCursorV, AddWidget};
use crate::feature_select::{committed_labels, Feature, FeatureView};
use crate::filter::{filter, filter_spec};
use crate::strings::join_with;
use vstd::prelude::*;
use vstd::string::StringExecFns;

verus! {

/// The number of filtered entries a search box displays at most.
pub const VISIBLE_RESULTS: usize = 6;

/// How a visual line is styled. The painter maps each style to its colors;
/// the renderers only decide which rule a row falls under.
#[derive(Clone, Copy, Debug, PartialEq, Eq, Structural)]
pub enum Style {
    /// The prompt line at the top of a widget.
    Prompt,
    /// An ordinary row.
    Plain,
    /// The row the cursor is on, or the implicit top selection.
    Highlight,
    /// A checked or locked row that the cursor is not on.
    Checked,
    /// Help text and other secondary annotations.
    Dim,
    /// The transient "cannot modify" notice.
    Notice,
}

/// One visual line of a frame.
pub struct Line {
    pub style: Style,
    pub text: String,
}

/// The mathematical image of a `Line`.
pub ghost struct LineV {
    pub style: Style,
    pub text: Seq<char>,
}

impl View for Line {
    type V = LineV;

    open spec fn view(&self) -> LineV {
        LineV { style: self.style, text: self.text@ }
    }
}

impl DeepView for Line {
    type V = LineV;

    open spec fn deep_view(&self) -> LineV {
        self.view()
    }
}

/// One computed redraw: the lines to write and where to park the cursor.
///
/// `park_row` is the cursor's row measured from the top of the frame, with
/// `lines.len()` meaning "below the last line". `occupied` is what the next
/// redraw must move up by; it always equals `park_row`.
pub struct Frame {
    pub lines: Vec<Line>,
    pub park_row: usize,
    pub park_col: usize,
    pub occupied: usize,
}

/// The redraw protocol's invariant: the reported occupied-line count is
/// the parked row, and the parked row is within the frame.
pub open spec fn frame_wf(f: Frame) -> bool {
    &&& f.occupied == f.park_row
    &&& f.park_row <= f.lines@.len()
}

/// The placeholder shown in an empty search or input box.
pub open spec fn placeholder_text() -> Seq<char> {
    "(type to search)"@
}

/// The transient notice shown for a locked or duplicate toggle attempt.
pub open spec fn notice_text() -> Seq<char> {
    "    Sorry, plyx doesn't want to break anything :("@
}

/// The top line of every widget: a marker, the prompt, and for text-entry
/// widgets the typed suffix.
pub open spec fn prompt_line(prompt: Seq<char>, suffix: Seq<char>) -> LineV {
    LineV { style: Style::Prompt, text: "? "@ + prompt + suffix }
}

/// One feature row of a checklist: a notice replaces the row while it is
/// showing; otherwise a checkbox, the label and the description, styled by
/// the cursor/checked/locked rules.
pub open spec fn feature_row(
    f: FeatureView,
    checked: bool,
    locked: bool,
    is_cursor: bool,
    notice: bool,
) -> LineV {
    if notice {
        LineV { style: Style::Notice, text: notice_text() }
    } else {
        LineV {
            style: if is_cursor {
                Style::Highlight
            } else if checked || locked {
                Style::Checked
            } else {
                Style::Plain
            },
            text: "    "@ + (if checked || locked {
                "[x] "@
            } else {
                "[ ] "@
            }) + f.label + ": "@ + f.desc,
        }
    }
}

/// The final row of a checklist: the action button.
pub open spec fn action_row(label: Seq<char>, is_cursor: bool) -> LineV {
    LineV {
        style: if is_cursor {
            Style::Highlight
        } else {
            Style::Plain
        },
        text: "    > "@ + label,
    }
}

/// A help line under a widget.
pub open spec fn help_row(help: Seq<char>) -> LineV {
    LineV { style: Style::Dim, text: "  "@ + help }
}

/// Is the transient notice sitting on row `i`?
pub open spec fn notice_at(notice: Option<usize>, i: int) -> bool {
    match notice {
        Some(x) => x as int == i,
        None => false,
    }
}

/// How many filtered entries are shown: all of them, capped at
/// `VISIBLE_RESULTS`.
pub open spec fn shown_count(filtered_len: nat) -> nat {
    if filtered_len > VISIBLE_RESULTS as nat {
        VISIBLE_RESULTS as nat
    } else {
        filtered_len
    }
}

/// Build the feature row for index `i`, as `feature_row` says.
fn build_feature_row(
    features: &Vec<Feature>,
    i: usize,
    checked: &Vec<bool>,
    locked: &Vec<String>,
    is_cursor: bool,
    notice: bool,
) -> (l: Line)
    requires
        i < features@.len(),
        checked@.len() == features@.len(),
    ensures
        l@ == feature_row(
            features.deep_view()[i as int],
            checked@[i as int],
            crate::feature_select::is_locked(features.deep_view()[i as int], locked.deep_view()),
            is_cursor,
            notice,
        ),
{
    proof {
        assert(features.deep_view()[i as int] == features@[i as int]@);
    }
    if notice {
        return Line {
            style: Style::Notice,
            text: String::from_str("    Sorry, plyx doesn't want to break anything :("),
        };
    }
    let is_checked = checked[i];
    let is_locked = crate::strings::contains_str(locked, &features[i].key);
    let mut text = String::from_str("    ");
    if is_checked || is_locked {
        text.append("[x] ");
    } else {
        text.append("[ ] ");
    }
    text.append(features[i].label.as_str());
    text.append(": ");
    text.append(features[i].desc.as_str());
    let style = if is_cursor {
        Style::Highlight
    } else if is_checked || is_locked {
        Style::Checked
    } else {
        Style::Plain
    };
    Line { style, text }
}

/// Redraw the text prompt: a single line showing the prompt and the buffer
/// — or the default, dimly standing in while the buffer is empty — with
/// the cursor parked just past the typed text, at the start of the input
/// area when nothing is typed yet.
pub fn render_text_input(prompt: &str, buf: &str, default: &str) -> (f: Frame)
    requires
        prompt@.len() + buf@.len() + 3 <= usize::MAX,
    ensures
        frame_wf(f),
        f.lines@.len() == 1,
        f.lines.deep_view()[0] == prompt_line(
            prompt@,
            " "@ + if buf@.len() == 0 {
                default@
            } else {
                buf@
            },
        ),
        f.occupied == 0,
        f.park_col == 3 + prompt@.len() + buf@.len(),
{
    let mut text = String::from_str("? ");
    text.append(prompt);
    text.append(" ");
    let plen = prompt.unicode_len();
    let blen = buf.unicode_len();
    if buf.is_empty() {
        text.append(default);
    } else {
        text.append(buf);
    }
    proof {
        assert(text@ =~= "? "@ + prompt@ + (" "@ + if buf@.len() == 0 {
            default@
        } else {
            buf@
        }));
    }
    let line = Line { style: Style::Prompt, text };
    let mut lines: Vec<Line> = Vec::new();
    lines.push(line);
    proof {
        assert(lines.deep_view() =~= seq![
            prompt_line(
                prompt@,
                " "@ + if buf@.len() == 0 {
                    default@
                } else {
                    buf@
                },
            ),
        ]);
    }
    Frame { lines, park_row: 0, park_col: 3 + plen + blen, occupied: 0 }
}

/// Redraw the search prompt: the prompt line with the query (or the
/// placeholder), up to `VISIBLE_RESULTS` filtered entries — the top one
/// highlighted as the implicit selection, already-selected ones marked —
/// and the optional help line. The cursor parks on the prompt line just
/// past the query, so the reported occupied count is 0.
pub fn render_search(
    prompt: &str,
    query: &str,
    items: &Vec<String>,
    selected: &Vec<String>,
    help: &str,
) -> (f: Frame)
    requires
        prompt@.len() + query@.len() + 3 <= usize::MAX,
    ensures
        frame_wf(f),
        ({
            let filtered = filter_spec(items.deep_view(), query@);
            let m = shown_count(filtered.len());
            &&& f.lines@.len() == 1 + m + if help@.len() > 0 {
                1nat
            } else {
                0nat
            }
            &&& f.lines.deep_view()[0] == prompt_line(
                prompt@,
                " "@ + if query@.len() == 0 {
                    placeholder_text()
                } else {
                    query@
                },
            )
            &&& forall|i: int|
                0 <= i < m ==> f.lines.deep_view()[1 + i] == (LineV {
                    style: if i == 0 {
                        Style::Highlight
                    } else if selected.deep_view().contains(#[trigger] filtered[i]) {
                        Style::Checked
                    } else {
                        Style::Plain
                    },
                    text: "  "@ + filtered[i],
                })
            &&& help@.len() > 0 ==> f.lines.deep_view()[1 + m as int] == help_row(help@)
        }),
        f.occupied == 0,
        f.park_col == 3 + prompt@.len() + query@.len(),
{
    let ghost filtered_g = filter_spec(items.deep_view(), query@);
    let mut text = String::from_str("? ");
    text.append(prompt);
    text.append(" ");
    if query.is_empty() {
        text.append("(type to search)");
    } else {
        text.append(query);
    }
    proof {
        assert(text@ =~= "? "@ + prompt@ + (" "@ + if query@.len() == 0 {
            placeholder_text()
        } else {
            query@
        }));
    }
    let plen = prompt.unicode_len();
    let qlen = query.unicode_len();
    let mut lines: Vec<Line> = Vec::new();
    lines.push(Line { style: Style::Prompt, text });

    let filtered = filter(items, query);
    let shown: usize = if filtered.len() > VISIBLE_RESULTS {
        VISIBLE_RESULTS
    } else {
        filtered.len()
    };
    let mut i: usize = 0;
    while i < shown
        invariant
            0 <= i <= shown,
            filtered_g == filtered.deep_view(),
            shown == shown_count(filtered_g.len()),
            shown <= filtered@.len(),
            lines@.len() == 1 + i,
            lines.deep_view()[0] == prompt_line(
                prompt@,
                " "@ + if query@.len() == 0 {
                    placeholder_text()
                } else {
                    query@
                },
            ),
            forall|j: int|
                0 <= j < i ==> lines.deep_view()[1 + j] == (LineV {
                    style: if j == 0 {
                        Style::Highlight
                    } else if selected.deep_view().contains(#[trigger] filtered_g[j]) {
                        Style::Checked
                    } else {
                        Style::Plain
                    },
                    text: "  "@ + filtered_g[j],
                }),
        decreases shown - i,
    {
        let ghost lines_before = lines.deep_view();
        proof {
            assert(filtered.deep_view()[i as int] == filtered@[i as int]@);
        }
        let is_sel = crate::strings::contains_str(selected, &filtered[i]);
        let style = if i == 0 {
            Style::Highlight
        } else if is_sel {
            Style::Checked
        } else {
            Style::Plain
        };
        let mut t = String::from_str("  ");
        t.append(filtered[i].as_str());
        lines.push(Line { style, text: t });
        proof {
            assert(lines.deep_view() =~= lines_before.push(
                LineV {
                    style: if i == 0 {
                        Style::Highlight
                    } else if selected.deep_view().contains(filtered_g[i as int]) {
                        Style::Checked
                    } else {
                        Style::Plain
                    },
                    text: "  "@ + filtered_g[i as int],
                },
            ));
        }
        i = i + 1;
    }
    if !help.is_empty() {
        let ghost lines_before = lines.deep_view();
        let mut h = String::from_str("  ");
        h.append(help);
        lines.push(Line { style: Style::Dim, text: h });
        proof {
            assert(lines.deep_view() =~= lines_before.push(help_row(help@)));
        }
    }
    Frame { lines, park_row: 0, park_col: 3 + plen + qlen, occupied: 0 }
}

/// Redraw the checklist: the prompt line, one row per feature (the notice
/// replacing its row while showing), the action row, and the optional help
/// line. Navigation widgets hide the cursor, so it parks below the frame
/// and the reported occupied count is the whole frame.
pub fn render_features(
    prompt: &str,
    features: &Vec<Feature>,
    cursor: usize,
    checked: &Vec<bool>,
    locked: &Vec<String>,
    notice: &Option<usize>,
    action_label: &str,
    help: &str,
) -> (f: Frame)
    requires
        checked@.len() == features@.len(),
    ensures
        frame_wf(f),
        ({
            let n = features.deep_view().len();
            &&& f.lines@.len() == 2 + n + if help@.len() > 0 {
                1nat
            } else {
                0nat
            }
            &&& f.lines.deep_view()[0] == prompt_line(prompt@, Seq::<char>::empty())
            &&& forall|i: int|
                0 <= i < n ==> f.lines.deep_view()[1 + i] == feature_row(
                    #[trigger] features.deep_view()[i],
                    checked@[i],
                    crate::feature_select::is_locked(features.deep_view()[i], locked.deep_view()),
                    i == cursor,
                    notice_at(*notice, i),
                )
            &&& f.lines.deep_view()[1 + n as int] == action_row(action_label@, cursor == n)
            &&& help@.len() > 0 ==> f.lines.deep_view()[2 + n as int] == help_row(help@)
        }),
        f.occupied == f.lines@.len(),
        f.park_col == 0,
{
    let mut text = String::from_str("? ");
    text.append(prompt);
    let mut lines: Vec<Line> = Vec::new();
    lines.push(Line { style: Style::Prompt, text });
    proof {
        assert(lines.deep_view()[0].text =~= "? "@ + prompt@ + Seq::<char>::empty());
    }
    let mut i: usize = 0;
    while i < features.len()
        invariant
            0 <= i <= features@.len(),
            checked@.len() == features@.len(),
            lines@.len() == 1 + i,
            lines.deep_view()[0] == prompt_line(prompt@, Seq::<char>::empty()),
            forall|j: int|
                0 <= j < i ==> lines.deep_view()[1 + j] == feature_row(
                    #[trigger] features.deep_view()[j],
                    checked@[j],
                    crate::feature_select::is_locked(features.deep_view()[j], locked.deep_view()),
                    j == cursor,
                    notice_at(*notice, j),
                ),
        decreases features@.len() - i,
    {
        let ghost lines_before = lines.deep_view();
        let is_cursor = i == cursor;
        let has_notice = match notice {
            Some(x) => *x == i,
            None => false,
        };
        proof {
            assert(has_notice == notice_at(*notice, i as int));
        }
        let row = build_feature_row(features, i, checked, locked, is_cursor, has_notice);
        lines.push(row);
        proof {
            assert(lines.deep_view() =~= lines_before.push(
                feature_row(
                    features.deep_view()[i as int],
                    checked@[i as int],
                    crate::feature_select::is_locked(
                        features.deep_view()[i as int],
                        locked.deep_view(),
                    ),
                    i == cursor,
                    notice_at(*notice, i as int),
                ),
            ));
        }
        i = i + 1;
    }
    let ghost lines_before_action = lines.deep_view();
    let mut a = String::from_str("    > ");
    a.append(action_label);
    let action_is_cursor = cursor == features.len();
    lines.push(Line { style: if action_is_cursor { Style::Highlight } else { Style::Plain }, text: a });
    proof {
        assert(lines.deep_view() =~= lines_before_action.push(
            action_row(action_label@, cursor == features.deep_view().len()),
        ));
    }
    if !help.is_empty() {
        let ghost lines_before_help = lines.deep_view();
        let mut h = String::from_str("  ");
        h.append(help);
        lines.push(Line { style: Style::Dim, text: h });
        proof {
            assert(lines.deep_view() =~= lines_before_help.push(help_row(help@)));
        }
    }
    let total = lines.len();
    Frame { lines, park_row: total, park_col: 0, occupied: total }
}

/// The final "confirmed" line every widget prints after it commits: a
/// check mark, the prompt, and the resolved value.
pub fn confirmed_display(prompt: &str, value: &str) -> (r: String)
    ensures
        r@ == "\u{2714} "@ + prompt@ + " "@ + value@,
{
    let mut r = String::from_str("\u{2714} ");
    r.append(prompt);
    r.append(" ");
    r.append(value);
    r
}

/// The font search row of the add widget: the zone label and the query (or
/// the placeholder), highlighted while the cursor is in the zone.
pub open spec fn font_search_row(query: Seq<char>, is_cursor: bool) -> LineV {
    LineV {
        style: if is_cursor {
            Style::Highlight
        } else {
            Style::Plain
        },
        text: "  Add fonts: "@ + if query.len() == 0 {
            placeholder_text()
        } else {
            query
        },
    }
}

/// One font result row: the top match is highlighted while the cursor is
/// in the search zone; installed or already-added fonts are marked.
pub open spec fn font_result_row(item: Seq<char>, is_top: bool, marked: bool) -> LineV {
    LineV {
        style: if is_top {
            Style::Highlight
        } else if marked {
            Style::Checked
        } else {
            Style::Plain
        },
        text: "    "@ + item,
    }
}

/// The running summary under the add widget: each picked label and added
/// font with a `+` prefix, labels first.
pub open spec fn summary_text(new_labels: Seq<Seq<char>>, fonts: Seq<Seq<char>>) -> Seq<char> {
    let fpart = "+"@ + join_with(new_labels, ", +"@);
    let gpart = "+"@ + join_with(fonts, ", +"@);
    "  "@ + if new_labels.len() > 0 && fonts.len() > 0 {
        fpart + "  "@ + gpart
    } else if new_labels.len() > 0 {
        fpart
    } else {
        gpart
    }
}

/// Join the items with `", +"` after a leading `"+"`.
fn plus_join(xs: &Vec<String>) -> (r: String)
    ensures
        r@ == "+"@ + join_with(xs.deep_view(), ", +"@),
{
    let mut r = String::from_str("+");
    let joined = crate::strings::join_strings(xs, ", +");
    r.append(joined.as_str());
    r
}

/// Redraw the add widget: the prompt line, the feature rows (with the same
/// notice rule as the checklist), the font search row, then either the
/// font notice or up to `VISIBLE_RESULTS` filtered fonts, the action row,
/// the running summary when anything is picked, and the optional help
/// line. While the cursor is in the font search zone it parks on that row
/// just past the query, and the reported occupied count is the rows above
/// it; otherwise it parks below the frame and reports the whole frame.
pub fn render_add(
    prompt: &str,
    features: &Vec<Feature>,
    font_items: &Vec<String>,
    locked_features: &Vec<String>,
    installed_fonts: &Vec<String>,
    st: &AddWidget,
    help: &str,
) -> (f: Frame)
    requires
        aw_wf(st@, features.deep_view().len()),
        st.query@.len() + 13 <= usize::MAX,
    ensures
        frame_wf(f),
        ({
            let n = features.deep_view().len();
            let filtered = filter_spec(font_items.deep_view(), st@.query);
            let m = shown_count(filtered.len());
            let new_labels = committed_labels(
                features.deep_view(),
                locked_features.deep_view(),
                st@.checked,
            );
            let result_rows = if st@.font_notice {
                1nat
            } else {
                m
            };
            let done_row = 2 + n as int + result_rows as int;
            let has_summary = new_labels.len() > 0 || st@.added.len() > 0;
            &&& f.lines@.len() == done_row + 1 + (if has_summary {
                1int
            } else {
                0int
            }) + (if help@.len() > 0 {
                1int
            } else {
                0int
            })
            &&& f.lines.deep_view()[0] == prompt_line(prompt@, Seq::<char>::empty())
            &&& forall|i: int|
                0 <= i < n ==> f.lines.deep_view()[1 + i] == feature_row(
                    #[trigger] features.deep_view()[i],
                    st@.checked[i],
                    crate::feature_select::is_locked(
                        features.deep_view()[i],
                        locked_features.deep_view(),
                    ),
                    st@.cursor == AddCursorV::Feature(i),
                    st@.feature_notice == Some(i),
                )
            &&& f.lines.deep_view()[1 + n as int] == font_search_row(
                st@.query,
                st@.cursor is FontSearch,
            )
            &&& st@.font_notice ==> f.lines.deep_view()[2 + n as int] == (LineV {
                style: Style::Notice,
                text: notice_text(),
            })
            &&& !st@.font_notice ==> forall|j: int|
                0 <= j < m ==> f.lines.deep_view()[2 + n as int + j] == font_result_row(
                    #[trigger] filtered[j],
                    j == 0 && st@.cursor is FontSearch,
                    installed_fonts.deep_view().contains(filtered[j]) || st@.added.contains(
                        filtered[j],
                    ),
                )
            &&& f.lines.deep_view()[done_row] == action_row("Done!"@, st@.cursor is Done)
            &&& has_summary ==> f.lines.deep_view()[done_row + 1] == (LineV {
                style: Style::Dim,
                text: summary_text(new_labels, st@.added),
            })
            &&& help@.len() > 0 ==> f.lines.deep_view()[f.lines@.len() - 1] == help_row(help@)
        }),
        st@.cursor is FontSearch ==> f.occupied == 1 + features.deep_view().len() && f.park_col
            == 13 + st@.query.len(),
        !(st@.cursor is FontSearch) ==> f.occupied == f.lines@.len() && f.park_col == 0,
{
    let ghost fv = features.deep_view();
    let ghost lv = locked_features.deep_view();
    let mut lines: Vec<Line> = Vec::new();

    let mut text = String::from_str("? ");
    text.append(prompt);
    lines.push(Line { style: Style::Prompt, text });
    proof {
        assert(lines.deep_view()[0].text =~= "? "@ + prompt@ + Seq::<char>::empty());
    }

    let mut i: usize = 0;
    while i < features.len()
        invariant
            0 <= i <= features@.len(),
            fv == features.deep_view(),
            lv == locked_features.deep_view(),
            aw_wf(st@, fv.len()),
            lines@.len() == 1 + i,
            lines.deep_view()[0] == prompt_line(prompt@, Seq::<char>::empty()),
            forall|j: int|
                0 <= j < i ==> lines.deep_view()[1 + j] == feature_row(
                    #[trigger] fv[j],
                    st@.checked[j],
                    crate::feature_select::is_locked(fv[j], lv),
                    st@.cursor == AddCursorV::Feature(j),
                    st@.feature_notice == Some(j),
                ),
        decreases features@.len() - i,
    {
        let ghost lines_before = lines.deep_view();
        let is_cursor = match st.cursor {
            AddCursor::Feature(ci) => ci == i,
            _ => false,
        };
        let has_notice = match st.feature_notice {
            Some(x) => x == i,
            None => false,
        };
        proof {
            assert(is_cursor == (st@.cursor == AddCursorV::Feature(i as int)));
            assert(has_notice == (st@.feature_notice == Some(i as int)));
        }
        let row = build_feature_row(features, i, &st.checked, locked_features, is_cursor, has_notice);
        lines.push(row);
        proof {
            assert(lines.deep_view() =~= lines_before.push(
                feature_row(
                    fv[i as int],
                    st@.checked[i as int],
                    crate::feature_select::is_locked(fv[i as int], lv),
                    st@.cursor == AddCursorV::Feature(i as int),
                    st@.feature_notice == Some(i as int),
                ),
            ));
        }
        i = i + 1;
    }

    let font_is_cursor = match st.cursor {
        AddCursor::FontSearch => true,
        _ => false,
    };
    let font_row = lines.len();
    {
        let ghost lines_before = lines.deep_view();
        let mut t = String::from_str("  Add fonts: ");
        if st.query.as_str().is_empty() {
            t.append("(type to search)");
        } else {
            t.append(st.query.as_str());
        }
        lines.push(
            Line {
                style: if font_is_cursor {
                    Style::Highlight
                } else {
                    Style::Plain
                },
                text: t,
            },
        );
        proof {
            assert(lines.deep_view() =~= lines_before.push(
                font_search_row(st@.query, st@.cursor is FontSearch),
            ));
        }
    }

    let ghost filtered_g = filter_spec(font_items.deep_view(), st@.query);
    let ghost m = shown_count(filtered_g.len());
    if st.font_notice {
        let ghost lines_before = lines.deep_view();
        lines.push(
            Line {
                style: Style::Notice,
                text: String::from_str("    Sorry, plyx doesn't want to break anything :("),
            },
        );
        proof {
            assert(lines.deep_view() =~= lines_before.push(
                LineV { style: Style::Notice, text: notice_text() },
            ));
        }
    } else {
        let filtered = filter(font_items, st.query.as_str());
        let shown: usize = if filtered.len() > VISIBLE_RESULTS {
            VISIBLE_RESULTS
        } else {
            filtered.len()
        };
        let mut j: usize = 0;
        while j < shown
            invariant
                0 <= j <= shown,
                fv == features.deep_view(),
                lv == locked_features.deep_view(),
                aw_wf(st@, fv.len()),
                filtered_g == filtered.deep_view(),
                filtered_g == filter_spec(font_items.deep_view(), st@.query),
                shown == m,
                m == shown_count(filtered_g.len()),
                shown <= filtered@.len(),
                font_is_cursor == st@.cursor is FontSearch,
                font_row == 1 + fv.len(),
                lines@.len() == 2 + fv.len() + j,
                lines.deep_view()[0] == prompt_line(prompt@, Seq::<char>::empty()),
                forall|k: int|
                    0 <= k < fv.len() ==> lines.deep_view()[1 + k] == feature_row(
                        #[trigger] fv[k],
                        st@.checked[k],
                        crate::feature_select::is_locked(fv[k], lv),
                        st@.cursor == AddCursorV::Feature(k),
                        st@.feature_notice == Some(k),
                    ),
                lines.deep_view()[1 + fv.len() as int] == font_search_row(
                    st@.query,
                    st@.cursor is FontSearch,
                ),
                forall|k: int|
                    0 <= k < j ==> lines.deep_view()[2 + fv.len() + k] == font_result_row(
                        #[trigger] filtered_g[k],
                        k == 0 && st@.cursor is FontSearch,
                        installed_fonts.deep_view().contains(filtered_g[k]) || st@.added.contains(
                            filtered_g[k],
                        ),
                    ),
            decreases shown - j,
        {
            let ghost lines_before = lines.deep_view();
            proof {
                assert(filtered.deep_view()[j as int] == filtered@[j as int]@);
            }
            let marked = crate::strings::contains_str(installed_fonts, &filtered[j])
                || crate::strings::contains_str(&st.added, &filtered[j]);
            let is_top = j == 0 && font_is_cursor;
            let mut t = String::from_str("    ");
            t.append(filtered[j].as_str());
            lines.push(
                Line {
                    style: if is_top {
                        Style::Highlight
                    } else if marked {
                        Style::Checked
                    } else {
                        Style::Plain
                    },
                    text: t,
                },
            );
            proof {
                assert(lines.deep_view() =~= lines_before.push(
                    font_result_row(
                        filtered_g[j as int],
                        j == 0 && st@.cursor is FontSearch,
                        installed_fonts.deep_view().contains(filtered_g[j as int])
                            || st@.added.contains(filtered_g[j as int]),
                    ),
                ));
            }
            j = j + 1;
        }
    }

    let done_row = lines.len();
    {
        let ghost lines_before = lines.deep_view();
        let mut d = String::from_str("    > ");
        d.append("Done!");
        let done_is_cursor = match st.cursor {
            AddCursor::Done => true,
            _ => false,
        };
        lines.push(
            Line {
                style: if done_is_cursor {
                    Style::Highlight
                } else {
                    Style::Plain
                },
                text: d,
            },
        );
        proof {
            assert(lines.deep_view() =~= lines_before.push(
                action_row("Done!"@, st@.cursor is Done),
            ));
        }
    }

    let new_labels = crate::feature_select::collect_committed_labels(
        features,
        locked_features,
        &st.checked,
    );
    if new_labels.len() > 0 || st.added.len() > 0 {
        let ghost lines_before = lines.deep_view();
        let mut s = String::from_str("  ");
        if new_labels.len() > 0 && st.added.len() > 0 {
            let fpart = plus_join(&new_labels);
            let gpart = plus_join(&st.added);
            s.append(fpart.as_str());
            s.append("  ");
            s.append(gpart.as_str());
        } else if new_labels.len() > 0 {
            let fpart = plus_join(&new_labels);
            s.append(fpart.as_str());
        } else {
            let gpart = plus_join(&st.added);
            s.append(gpart.as_str());
        }
        proof {
            assert(s@ =~= summary_text(committed_labels(fv, lv, st@.checked), st@.added));
        }
        lines.push(Line { style: Style::Dim, text: s });
        proof {
            assert(lines.deep_view() =~= lines_before.push(
                LineV {
                    style: Style::Dim,
                    text: summary_text(committed_labels(fv, lv, st@.checked), st@.added),
                },
            ));
        }
    }

    if !help.is_empty() {
        let ghost lines_before = lines.deep_view();
        let mut h = String::from_str("  ");
        h.append(help);
        lines.push(Line { style: Style::Dim, text: h });
        proof {
            assert(lines.deep_view() =~= lines_before.push(help_row(help@)));
        }
    }

    if font_is_cursor {
        let ql = st.query.as_str().unicode_len();
        Frame { lines, park_row: font_row, park_col: 13 + ql, occupied: font_row }
    } else {
        let total = lines.len();
        Frame { lines, park_row: total, park_col: 0, occupied: total }
    }
}

} // verus!
