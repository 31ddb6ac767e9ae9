//! The composite add widget: a feature checklist, a font search row and a
//! final action row, with cross-zone cursor navigation.
//!
//! The zones are strictly ordered — features, then search, then action —
//! for Up/Down traversal. The search row behaves like the search prompt,
//! except that Enter on a non-empty top match appends it to an accumulating
//! list of added fonts instead of ending the widget; a match that is
//! already installed or already added only raises a one-frame notice. The
//! action row commits the checked, non-locked feature keys together with
//! the added fonts.

use crate::feature_select::{committed_keys, is_locked, selected_labels, Feature, FeatureView};
use crate::filter::{filter, filter_spec};
use crate::key::Key;
use crate::strings::{contains_str, join_strings, join_with};
use vstd::prelude::*;
use vstd::string::StringExecFns;

verus! {

/// Where the cursor sits: a feature row, the font search row, or the
/// action ("Done") row.
#[derive(Clone, Copy, Debug, PartialEq, Eq, Structural)]
pub enum AddCursor {
    Feature(usize),
    FontSearch,
    Done,
}

/// The mathematical image of an `AddCursor`.
pub ghost enum AddCursorV {
    Feature(int),
    FontSearch,
    Done,
}

impl View for AddCursor {
    type V = AddCursorV;

    open spec fn view(&self) -> AddCursorV {
        match *self {
            AddCursor::Feature(i) => AddCursorV::Feature(i as int),
            AddCursor::FontSearch => AddCursorV::FontSearch,
            AddCursor::Done => AddCursorV::Done,
        }
    }
}

/// What the widget returns on commit.
pub struct AddResult {
    /// Newly enabled feature keys, locked ones excluded.
    pub features: Vec<String>,
    /// Newly added font names, in the order they were added.
    pub fonts: Vec<String>,
}

/// The mathematical image of an `AddResult`.
pub ghost struct AddResultView {
    pub features: Seq<Seq<char>>,
    pub fonts: Seq<Seq<char>>,
}

impl View for AddResult {
    type V = AddResultView;

    open spec fn view(&self) -> AddResultView {
        AddResultView { features: self.features.deep_view(), fonts: self.fonts.deep_view() }
    }
}

/// The widget's state between keystrokes.
pub struct AddWidget {
    pub cursor: AddCursor,
    pub checked: Vec<bool>,
    pub query: String,
    pub added: Vec<String>,
    pub feature_notice: Option<usize>,
    pub font_notice: bool,
}

/// The mathematical image of an `AddWidget`.
pub ghost struct AwView {
    pub cursor: AddCursorV,
    pub checked: Seq<bool>,
    pub query: Seq<char>,
    pub added: Seq<Seq<char>>,
    pub feature_notice: Option<int>,
    pub font_notice: bool,
}

impl View for AddWidget {
    type V = AwView;

    open spec fn view(&self) -> AwView {
        AwView {
            cursor: self.cursor@,
            checked: self.checked@,
            query: self.query@,
            added: self.added.deep_view(),
            feature_notice: match self.feature_notice {
                Some(i) => Some(i as int),
                None => None,
            },
            font_notice: self.font_notice,
        }
    }
}

/// Well-formed against `n` features: a feature cursor is on a real row
/// (row 0 stands in when there are no features, as there is always a
/// starting row), the checked flags match the features, and a feature
/// notice can only sit on a feature row.
pub open spec fn aw_wf(s: AwView, n: nat) -> bool {
    &&& (s.cursor matches AddCursorV::Feature(i) ==> 0 <= i && (i < n || i == 0))
    &&& s.checked.len() == n
    &&& (s.feature_notice matches Some(i) ==> 0 <= i < n)
}

/// The initial state: cursor on the first feature row, locked features
/// already checked, empty query, nothing added, no notices.
pub open spec fn aw_init(features: Seq<FeatureView>, locked: Seq<Seq<char>>) -> AwView {
    AwView {
        cursor: AddCursorV::Feature(0),
        checked: Seq::new(features.len(), |i: int| locked.contains(features[i].key)),
        query: Seq::empty(),
        added: Seq::empty(),
        feature_notice: None,
        font_notice: false,
    }
}

/// Does this key, in this state, commit the widget?
pub open spec fn aw_commits(s: AwView, k: Key) -> bool {
    s.cursor is Done && (k == Key::Enter || k == Key::Char(' '))
}

/// A toggle attempt on feature row `idx`: locked keys only raise the
/// notice, unlocked ones flip their checked flag; a row past the end (only
/// possible with no features at all) does nothing.
pub open spec fn aw_toggle(s: AwView, idx: int, features: Seq<FeatureView>, locked: Seq<Seq<char>>) -> AwView {
    if idx < features.len() {
        if is_locked(features[idx], locked) {
            AwView { feature_notice: Some(idx), ..s }
        } else {
            AwView { checked: s.checked.update(idx, !s.checked[idx]), feature_notice: None, ..s }
        }
    } else {
        s
    }
}

/// One non-committing key while the cursor is on feature row `idx`.
pub open spec fn aw_feature_step(
    s: AwView,
    idx: int,
    features: Seq<FeatureView>,
    locked: Seq<Seq<char>>,
    k: Key,
) -> AwView {
    match k {
        Key::Up => AwView {
            cursor: if idx > 0 {
                AddCursorV::Feature(idx - 1)
            } else {
                AddCursorV::Feature(idx)
            },
            feature_notice: None,
            ..s
        },
        Key::Down => AwView {
            cursor: if idx + 1 < features.len() {
                AddCursorV::Feature(idx + 1)
            } else {
                AddCursorV::FontSearch
            },
            feature_notice: None,
            ..s
        },
        Key::Enter => aw_toggle(s, idx, features, locked),
        Key::Char(c) => if c == ' ' {
            aw_toggle(s, idx, features, locked)
        } else {
            s
        },
        Key::Esc => AwView { feature_notice: None, ..s },
        _ => s,
    }
}

/// One key while the cursor is on the font search row.
pub open spec fn aw_search_step(
    s: AwView,
    n: nat,
    fonts: Seq<Seq<char>>,
    installed: Seq<Seq<char>>,
    k: Key,
) -> AwView {
    match k {
        Key::Up => AwView {
            cursor: if n > 0 {
                AddCursorV::Feature(n - 1)
            } else {
                AddCursorV::FontSearch
            },
            font_notice: false,
            ..s
        },
        Key::Down => AwView { cursor: AddCursorV::Done, font_notice: false, ..s },
        Key::Enter => {
            let filtered = filter_spec(fonts, s.query);
            if filtered.len() > 0 {
                if installed.contains(filtered[0]) || s.added.contains(filtered[0]) {
                    AwView { query: Seq::empty(), font_notice: true, ..s }
                } else {
                    AwView {
                        query: Seq::empty(),
                        added: s.added.push(filtered[0]),
                        font_notice: false,
                        ..s
                    }
                }
            } else {
                s
            }
        },
        Key::Backspace => AwView {
            query: if s.query.len() == 0 {
                s.query
            } else {
                s.query.drop_last()
            },
            font_notice: false,
            ..s
        },
        Key::Char(c) => AwView { query: s.query.push(c), font_notice: false, ..s },
        Key::Esc => AwView { query: Seq::empty(), font_notice: false, ..s },
        _ => s,
    }
}

/// One non-committing key while the cursor is on the action row.
pub open spec fn aw_done_step(s: AwView, k: Key) -> AwView {
    match k {
        Key::Up => AwView { cursor: AddCursorV::FontSearch, ..s },
        _ => s,
    }
}

/// One non-committing key applied to the widget state.
pub open spec fn aw_step(
    s: AwView,
    features: Seq<FeatureView>,
    locked: Seq<Seq<char>>,
    fonts: Seq<Seq<char>>,
    installed: Seq<Seq<char>>,
    k: Key,
) -> AwView {
    match s.cursor {
        AddCursorV::Feature(idx) => aw_feature_step(s, idx, features, locked, k),
        AddCursorV::FontSearch => aw_search_step(s, features.len(), fonts, installed, k),
        AddCursorV::Done => aw_done_step(s, k),
    }
}

/// What a commit in state `s` returns: the checked, non-locked feature
/// keys and the added fonts.
pub open spec fn aw_committed(s: AwView, features: Seq<FeatureView>, locked: Seq<Seq<char>>) -> AddResultView {
    AddResultView { features: committed_keys(features, locked, s.checked), fonts: s.added }
}

/// Result of feeding `keys` to the widget: the first committing key (Space
/// or Enter on the action row) returns the result; `None` if none commits.
pub open spec fn aw_run(
    s: AwView,
    features: Seq<FeatureView>,
    locked: Seq<Seq<char>>,
    fonts: Seq<Seq<char>>,
    installed: Seq<Seq<char>>,
    keys: Seq<Key>,
) -> Option<AddResultView>
    decreases keys.len(),
{
    if keys.len() == 0 {
        None
    } else if aw_commits(s, keys[0]) {
        Some(aw_committed(s, features, locked))
    } else {
        aw_run(
            aw_step(s, features, locked, fonts, installed, keys[0]),
            features,
            locked,
            fonts,
            installed,
            keys.drop_first(),
        )
    }
}

/// The result carried by an optional commit, for stating contracts.
pub open spec fn opt_result_view(r: Option<AddResult>) -> Option<AddResultView> {
    match r {
        Some(res) => Some(res@),
        None => None,
    }
}

impl AddWidget {
    /// A fresh widget: cursor on the first feature row, locked features
    /// checked, everything else empty.
    pub fn new(features: &Vec<Feature>, locked: &Vec<String>) -> (s: Self)
        ensures
            s@ == aw_init(features.deep_view(), locked.deep_view()),
            aw_wf(s@, features.deep_view().len()),
    {
        let ghost fv = features.deep_view();
        let ghost lv = locked.deep_view();
        let mut checked: Vec<bool> = Vec::new();
        let mut i: usize = 0;
        while i < features.len()
            invariant
                0 <= i <= features@.len(),
                fv == features.deep_view(),
                lv == locked.deep_view(),
                checked@.len() == i,
                forall|j: int| 0 <= j < i ==> checked@[j] == lv.contains(fv[j].key),
            decreases features@.len() - i,
        {
            proof {
                assert(fv[i as int] == features@[i as int]@);
            }
            let c = contains_str(locked, &features[i].key);
            checked.push(c);
            i = i + 1;
        }
        let s = AddWidget {
            cursor: AddCursor::Feature(0),
            checked,
            query: String::new(),
            added: Vec::new(),
            feature_notice: None,
            font_notice: false,
        };
        proof {
            assert(s@.checked =~= aw_init(fv, lv).checked);
            assert(s@.added =~= aw_init(fv, lv).added);
        }
        s
    }

    /// Apply one key. A committing key (Space or Enter on the action row)
    /// returns the result and leaves the state alone; every other key
    /// moves the state as `aw_step` says.
    pub fn handle_key(
        &mut self,
        key: &Key,
        features: &Vec<Feature>,
        font_items: &Vec<String>,
        locked: &Vec<String>,
        installed_fonts: &Vec<String>,
    ) -> (r: Option<AddResult>)
        requires
            aw_wf(old(self)@, features.deep_view().len()),
        ensures
            aw_wf(final(self)@, features.deep_view().len()),
            match r {
                Some(res) => aw_commits(old(self)@, *key) && res@ == aw_committed(
                    old(self)@,
                    features.deep_view(),
                    locked.deep_view(),
                ) && final(self)@ == old(self)@,
                None => !aw_commits(old(self)@, *key) && final(self)@ == aw_step(
                    old(self)@,
                    features.deep_view(),
                    locked.deep_view(),
                    font_items.deep_view(),
                    installed_fonts.deep_view(),
                    *key,
                ),
            },
    {
        let cursor = self.cursor;
        match cursor {
            AddCursor::Feature(idx) => {
                match key {
                    Key::Up => {
                        if idx > 0 {
                            self.cursor = AddCursor::Feature(idx - 1);
                        }
                        self.feature_notice = None;
                        None
                    },
                    Key::Down => {
                        let n = features.len();
                        if idx + 1 < n {
                            self.cursor = AddCursor::Feature(idx + 1);
                        } else {
                            self.cursor = AddCursor::FontSearch;
                        }
                        self.feature_notice = None;
                        None
                    },
                    Key::Enter | Key::Char(' ') => {
                        if idx < features.len() {
                            proof {
                                assert(features.deep_view()[idx as int] == features@[idx as int]@);
                            }
                            if contains_str(locked, &features[idx].key) {
                                self.feature_notice = Some(idx);
                            } else {
                                let b = self.checked[idx];
                                self.checked[idx] = !b;
                                self.feature_notice = None;
                            }
                        }
                        None
                    },
                    Key::Esc => {
                        self.feature_notice = None;
                        None
                    },
                    _ => None,
                }
            },
            AddCursor::FontSearch => {
                match key {
                    Key::Up => {
                        if features.len() > 0 {
                            self.cursor = AddCursor::Feature(features.len() - 1);
                        }
                        self.font_notice = false;
                        None
                    },
                    Key::Down => {
                        self.cursor = AddCursor::Done;
                        self.font_notice = false;
                        None
                    },
                    Key::Enter => {
                        let filtered = filter(font_items, self.query.as_str());
                        if filtered.len() > 0 {
                            let top = filtered[0].clone();
                            proof {
                                assert(top@ == filtered.deep_view()[0]);
                            }
                            let dup = contains_str(installed_fonts, &top) || contains_str(
                                &self.added,
                                &top,
                            );
                            if dup {
                                self.font_notice = true;
                            } else {
                                let ghost added_before = self.added.deep_view();
                                self.added.push(top);
                                self.font_notice = false;
                                proof {
                                    assert(self.added.deep_view() =~= added_before.push(
                                        filter_spec(font_items.deep_view(), old(self)@.query)[0],
                                    ));
                                }
                            }
                            self.query = String::new();
                        }
                        None
                    },
                    Key::Backspace => {
                        crate::strings::pop_char(&mut self.query);
                        self.font_notice = false;
                        None
                    },
                    Key::Char(c) => {
                        crate::strings::push_char(&mut self.query, *c);
                        self.font_notice = false;
                        None
                    },
                    Key::Esc => {
                        self.query = String::new();
                        self.font_notice = false;
                        None
                    },
                    _ => None,
                }
            },
            AddCursor::Done => {
                match key {
                    Key::Up => {
                        self.cursor = AddCursor::FontSearch;
                        None
                    },
                    Key::Enter | Key::Char(' ') => {
                        let committed = crate::feature_select::collect_committed_keys(
                            features,
                            locked,
                            &self.checked,
                        );
                        let fonts = self.added.clone();
                        proof {
                            assert(fonts.deep_view() =~= self.added.deep_view());
                        }
                        Some(AddResult { features: committed, fonts })
                    },
                    _ => None,
                }
            },
        }
    }
}

/// Run the widget over a sequence of keys, starting from the locked-checked
/// state: the first committing key returns the new feature keys and the
/// added fonts; `None` if no key commits.
pub fn add_widget(
    features: &Vec<Feature>,
    font_items: &Vec<String>,
    locked_features: &Vec<String>,
    installed_fonts: &Vec<String>,
    keys: &Vec<Key>,
) -> (r: Option<AddResult>)
    ensures
        opt_result_view(r) == aw_run(
            aw_init(features.deep_view(), locked_features.deep_view()),
            features.deep_view(),
            locked_features.deep_view(),
            font_items.deep_view(),
            installed_fonts.deep_view(),
            keys@,
        ),
{
    let ghost fv = features.deep_view();
    let ghost lv = locked_features.deep_view();
    let ghost gv = font_items.deep_view();
    let ghost iv = installed_fonts.deep_view();
    let ghost s0 = aw_init(fv, lv);
    let mut st = AddWidget::new(features, locked_features);
    let mut i: usize = 0;
    proof {
        assert(keys@.skip(0) =~= keys@);
        assert(aw_init(features.deep_view(), locked_features.deep_view()).checked =~= s0.checked);
        assert(aw_init(features.deep_view(), locked_features.deep_view()) == s0);
    }
    while i < keys.len()
        invariant
            0 <= i <= keys@.len(),
            fv == features.deep_view(),
            lv == locked_features.deep_view(),
            gv == font_items.deep_view(),
            iv == installed_fonts.deep_view(),
            s0 == aw_init(features.deep_view(), locked_features.deep_view()),
            aw_wf(st@, fv.len()),
            aw_run(s0, fv, lv, gv, iv, keys@) == aw_run(st@, fv, lv, gv, iv, keys@.skip(i as int)),
        decreases keys@.len() - i,
    {
        proof {
            assert(keys@.skip(i as int)[0] == keys@[i as int]);
            assert(keys@.skip(i as int).drop_first() =~= keys@.skip(i + 1));
        }
        let ghost st_before = st@;
        let r = st.handle_key(&keys[i], features, font_items, locked_features, installed_fonts);
        if let Some(res) = r {
            proof {
                assert(aw_run(st_before, fv, lv, gv, iv, keys@.skip(i as int)) == Some(
                    aw_committed(st_before, fv, lv),
                ));
            }
            return Some(res);
        }
        i = i + 1;
    }
    None
}

/// The confirmation line shown after the widget commits: the selected
/// feature labels and the added fonts, or `"(no changes)"` when the commit
/// carries nothing.
pub open spec fn add_display_of(features: Seq<FeatureView>, res: AddResultView) -> Seq<char> {
    let fpart = "Features: "@ + join_with(selected_labels(features, res.features), ", "@);
    let gpart = "Fonts: "@ + join_with(res.fonts, ", "@);
    if res.features.len() == 0 && res.fonts.len() == 0 {
        "(no changes)"@
    } else if res.fonts.len() == 0 {
        fpart
    } else if res.features.len() == 0 {
        gpart
    } else {
        fpart + " | "@ + gpart
    }
}

/// Build the confirmation line for a committed result.
pub fn add_result_display(features: &Vec<Feature>, res: &AddResult) -> (r: String)
    ensures
        r@ == add_display_of(features.deep_view(), res@),
{
    if res.features.len() == 0 && res.fonts.len() == 0 {
        return String::from_str("(no changes)");
    }
    let labels = crate::feature_select::selected_label_strings(features, &res.features);
    if res.fonts.len() == 0 {
        let mut out = String::from_str("Features: ");
        let joined = join_strings(&labels, ", ");
        out.append(joined.as_str());
        return out;
    }
    if res.features.len() == 0 {
        let mut out = String::from_str("Fonts: ");
        let joined = join_strings(&res.fonts, ", ");
        out.append(joined.as_str());
        return out;
    }
    let mut out = String::from_str("Features: ");
    let joined = join_strings(&labels, ", ");
    out.append(joined.as_str());
    out.append(" | ");
    out.append("Fonts: ");
    let joined_fonts = join_strings(&res.fonts, ", ");
    out.append(joined_fonts.as_str());
    proof {
        assert(out@ =~= add_display_of(features.deep_view(), res@));
    }
    out
}

/// Law: from the last feature row, Down reaches the font search zone; from
/// the font search zone, Down reaches the action zone and Up returns to the
/// last feature row; from the action zone, Up returns to the font search
/// zone.
pub proof fn lemma_zone_traversal(
    s: AwView,
    features: Seq<FeatureView>,
    locked: Seq<Seq<char>>,
    fonts: Seq<Seq<char>>,
    installed: Seq<Seq<char>>,
)
    requires
        aw_wf(s, features.len()),
        features.len() > 0,
    ensures
        s.cursor == AddCursorV::Feature(features.len() - 1) ==> aw_step(
            s,
            features,
            locked,
            fonts,
            installed,
            Key::Down,
        ).cursor == AddCursorV::FontSearch,
        s.cursor is FontSearch ==> aw_step(s, features, locked, fonts, installed, Key::Down).cursor
            == AddCursorV::Done,
        s.cursor is FontSearch ==> aw_step(s, features, locked, fonts, installed, Key::Up).cursor
            == AddCursorV::Feature(features.len() - 1),
        s.cursor is Done ==> aw_step(s, features, locked, fonts, installed, Key::Up).cursor
            == AddCursorV::FontSearch,
{
}

/// Law: an Enter on the font search row whose top match is already
/// installed, or already added this session, leaves the added list
/// unchanged, raises the notice, and clears the query.
pub proof fn lemma_duplicate_font_rejected(
    s: AwView,
    features: Seq<FeatureView>,
    locked: Seq<Seq<char>>,
    fonts: Seq<Seq<char>>,
    installed: Seq<Seq<char>>,
)
    requires
        s.cursor is FontSearch,
        filter_spec(fonts, s.query).len() > 0,
        installed.contains(filter_spec(fonts, s.query)[0]) || s.added.contains(
            filter_spec(fonts, s.query)[0],
        ),
    ensures
        ({
            let s1 = aw_step(s, features, locked, fonts, installed, Key::Enter);
            s1.added == s.added && s1.font_notice && s1.query == Seq::<char>::empty()
        }),
{
}

/// Law: a locked key is never among the committed feature keys, whatever
/// sequence of keys the widget receives.
pub proof fn lemma_locked_immutable_add(
    s: AwView,
    features: Seq<FeatureView>,
    locked: Seq<Seq<char>>,
    fonts: Seq<Seq<char>>,
    installed: Seq<Seq<char>>,
    keys: Seq<Key>,
    x: Seq<char>,
)
    requires
        locked.contains(x),
    ensures
        aw_run(s, features, locked, fonts, installed, keys) matches Some(res) ==> !res.features.contains(x),
    decreases keys.len(),
{
    if keys.len() == 0 {
    } else if aw_commits(s, keys[0]) {
        crate::feature_select::lemma_committed_excludes_locked(features, locked, s.checked, x);
    } else {
        lemma_locked_immutable_add(
            aw_step(s, features, locked, fonts, installed, keys[0]),
            features,
            locked,
            fonts,
            installed,
            keys.drop_first(),
            x,
        );
    }
}

} // verus!
