//! The multi-select checklist with a final action row.
//!
//! Rows are the features in input order followed by one synthetic action
//! row, always last. The cursor moves one row at a time, clamped at both
//! ends. Space or Enter toggles the item under the cursor — unless its key
//! is locked, which only raises a one-frame notice — and on the action row
//! commits the checked, non-locked keys.

use crate::key::Key;
use crate::strings::{contains_str, join_strings, join_with};
use vstd::prelude::*;
use vstd::string::StringExecFns;

verus! {

/// One selectable item: a stable key, a display label and a description.
pub struct Feature {
    pub key: String,
    pub label: String,
    pub desc: String,
}

/// The mathematical image of a `Feature`: its three texts.
pub ghost struct FeatureView {
    pub key: Seq<char>,
    pub label: Seq<char>,
    pub desc: Seq<char>,
}

impl View for Feature {
    type V = FeatureView;

    open spec fn view(&self) -> FeatureView {
        FeatureView { key: self.key@, label: self.label@, desc: self.desc@ }
    }
}

impl DeepView for Feature {
    type V = FeatureView;

    open spec fn deep_view(&self) -> FeatureView {
        self.view()
    }
}

/// Is this feature's key in the locked set?
pub open spec fn is_locked(f: FeatureView, locked: Seq<Seq<char>>) -> bool {
    locked.contains(f.key)
}

/// The checklist's state: the cursor row (`features.len()` is the action
/// row), one checked flag per feature, and the row of the transient
/// "cannot modify" notice, if one is showing.
pub struct FeatureSelect {
    pub cursor: usize,
    pub checked: Vec<bool>,
    pub notice: Option<usize>,
}

/// The mathematical image of a `FeatureSelect`.
pub ghost struct FsView {
    pub cursor: int,
    pub checked: Seq<bool>,
    pub notice: Option<int>,
}

impl View for FeatureSelect {
    type V = FsView;

    open spec fn view(&self) -> FsView {
        FsView {
            cursor: self.cursor as int,
            checked: self.checked@,
            notice: match self.notice {
                Some(i) => Some(i as int),
                None => None,
            },
        }
    }
}

/// Well-formed against a checklist of `n` features: the cursor is on a row,
/// the checked flags match the features one to one, and a notice can only
/// sit on a feature row.
pub open spec fn fs_wf(s: FsView, n: nat) -> bool {
    &&& 0 <= s.cursor <= n
    &&& s.checked.len() == n
    &&& (s.notice matches Some(i) ==> 0 <= i < n)
}

/// The initial state: cursor on the first row, nothing noticed, and each
/// feature checked exactly when its key is pre-checked.
pub open spec fn fs_init(features: Seq<FeatureView>, pre_checked: Seq<Seq<char>>) -> FsView {
    FsView {
        cursor: 0,
        checked: Seq::new(features.len(), |i: int| pre_checked.contains(features[i].key)),
        notice: None,
    }
}

/// Does this key, in this state, commit the checklist?
pub open spec fn fs_commits(s: FsView, n: nat, k: Key) -> bool {
    s.cursor == n && (k == Key::Enter || k == Key::Char(' '))
}

/// A toggle attempt on the cursor row: locked keys only raise the notice,
/// unlocked ones flip their checked flag.
pub open spec fn fs_toggle(s: FsView, features: Seq<FeatureView>, locked: Seq<Seq<char>>) -> FsView {
    if is_locked(features[s.cursor], locked) {
        FsView { notice: Some(s.cursor), ..s }
    } else {
        FsView { checked: s.checked.update(s.cursor, !s.checked[s.cursor]), notice: None, ..s }
    }
}

/// One non-committing key applied to the checklist state.
pub open spec fn fs_step(s: FsView, features: Seq<FeatureView>, locked: Seq<Seq<char>>, k: Key) -> FsView {
    let n = features.len();
    match k {
        Key::Up => FsView {
            cursor: if s.cursor > 0 {
                s.cursor - 1
            } else {
                s.cursor
            },
            notice: None,
            ..s
        },
        Key::Down => FsView {
            cursor: if s.cursor < n {
                s.cursor + 1
            } else {
                s.cursor
            },
            notice: None,
            ..s
        },
        Key::Enter => if s.cursor < n {
            fs_toggle(s, features, locked)
        } else {
            s
        },
        Key::Char(c) => if c == ' ' && s.cursor < n {
            fs_toggle(s, features, locked)
        } else {
            s
        },
        Key::Esc => FsView { notice: None, ..s },
        _ => s,
    }
}

/// The keys committed from the first `i` features: checked and not locked,
/// in input order.
pub open spec fn committed_upto(
    features: Seq<FeatureView>,
    locked: Seq<Seq<char>>,
    checked: Seq<bool>,
    i: int,
) -> Seq<Seq<char>>
    decreases i,
{
    if i <= 0 {
        Seq::empty()
    } else {
        committed_upto(features, locked, checked, i - 1) + if checked[i - 1] && !is_locked(
            features[i - 1],
            locked,
        ) {
            seq![features[i - 1].key]
        } else {
            Seq::empty()
        }
    }
}

/// The committed result: every checked, non-locked key, in input order.
pub open spec fn committed_keys(
    features: Seq<FeatureView>,
    locked: Seq<Seq<char>>,
    checked: Seq<bool>,
) -> Seq<Seq<char>> {
    committed_upto(features, locked, checked, features.len() as int)
}

/// The labels of the checked, non-locked features among the first `i`, in
/// input order.
pub open spec fn committed_labels_upto(
    features: Seq<FeatureView>,
    locked: Seq<Seq<char>>,
    checked: Seq<bool>,
    i: int,
) -> Seq<Seq<char>>
    decreases i,
{
    if i <= 0 {
        Seq::empty()
    } else {
        committed_labels_upto(features, locked, checked, i - 1) + if checked[i - 1] && !is_locked(
            features[i - 1],
            locked,
        ) {
            seq![features[i - 1].label]
        } else {
            Seq::empty()
        }
    }
}

/// The labels of the checked, non-locked features, in input order.
pub open spec fn committed_labels(
    features: Seq<FeatureView>,
    locked: Seq<Seq<char>>,
    checked: Seq<bool>,
) -> Seq<Seq<char>> {
    committed_labels_upto(features, locked, checked, features.len() as int)
}

/// Collect the labels of the checked, non-locked features in input order.
pub(crate) fn collect_committed_labels(
    features: &Vec<Feature>,
    locked: &Vec<String>,
    checked: &Vec<bool>,
) -> (r: Vec<String>)
    requires
        checked@.len() == features@.len(),
    ensures
        r.deep_view() == committed_labels(features.deep_view(), locked.deep_view(), checked@),
{
    let ghost fv = features.deep_view();
    let ghost lv = locked.deep_view();
    let mut r: Vec<String> = Vec::new();
    let mut i: usize = 0;
    while i < features.len()
        invariant
            0 <= i <= features@.len(),
            checked@.len() == features@.len(),
            fv == features.deep_view(),
            lv == locked.deep_view(),
            r.deep_view() == committed_labels_upto(fv, lv, checked@, i as int),
        decreases features@.len() - i,
    {
        let ghost r_before = r.deep_view();
        proof {
            assert(fv[i as int] == features@[i as int]@);
        }
        if checked[i] && !contains_str(locked, &features[i].key) {
            let l = features[i].label.clone();
            r.push(l);
            proof {
                assert(r.deep_view() =~= r_before.push(fv[i as int].label));
                assert(r_before.push(fv[i as int].label) =~= r_before + seq![fv[i as int].label]);
            }
        } else {
            proof {
                assert(r_before =~= r_before + Seq::<Seq<char>>::empty());
            }
        }
        i = i + 1;
    }
    r
}

/// Result of feeding `keys` to the checklist: the first committing key
/// returns the checked, non-locked keys; `None` if none commits.
pub open spec fn fs_run(
    s: FsView,
    features: Seq<FeatureView>,
    locked: Seq<Seq<char>>,
    keys: Seq<Key>,
) -> Option<Seq<Seq<char>>>
    decreases keys.len(),
{
    if keys.len() == 0 {
        None
    } else if fs_commits(s, features.len(), keys[0]) {
        Some(committed_keys(features, locked, s.checked))
    } else {
        fs_run(fs_step(s, features, locked, keys[0]), features, locked, keys.drop_first())
    }
}

/// The texts carried by an optional key list, for stating contracts.
pub open spec fn opt_keys_view(r: Option<Vec<String>>) -> Option<Seq<Seq<char>>> {
    match r {
        Some(v) => Some(v.deep_view()),
        None => None,
    }
}

/// Collect the checked, non-locked keys in input order.
pub(crate) fn collect_committed_keys(
    features: &Vec<Feature>,
    locked: &Vec<String>,
    checked: &Vec<bool>,
) -> (r: Vec<String>)
    requires
        checked@.len() == features@.len(),
    ensures
        r.deep_view() == committed_keys(features.deep_view(), locked.deep_view(), checked@),
{
    let ghost fv = features.deep_view();
    let ghost lv = locked.deep_view();
    let mut r: Vec<String> = Vec::new();
    let mut i: usize = 0;
    while i < features.len()
        invariant
            0 <= i <= features@.len(),
            checked@.len() == features@.len(),
            fv == features.deep_view(),
            lv == locked.deep_view(),
            r.deep_view() == committed_upto(fv, lv, checked@, i as int),
        decreases features@.len() - i,
    {
        let ghost r_before = r.deep_view();
        proof {
            assert(fv[i as int] == features@[i as int]@);
        }
        if checked[i] && !contains_str(locked, &features[i].key) {
            let k = features[i].key.clone();
            r.push(k);
            proof {
                assert(r.deep_view() =~= r_before.push(fv[i as int].key));
                assert(r_before.push(fv[i as int].key) =~= r_before + seq![fv[i as int].key]);
            }
        } else {
            proof {
                assert(r_before =~= r_before + Seq::<Seq<char>>::empty());
            }
        }
        i = i + 1;
    }
    r
}

impl FeatureSelect {
    /// A fresh checklist: cursor on the first row, each feature checked
    /// exactly when its key appears in `pre_checked`.
    pub fn new(features: &Vec<Feature>, pre_checked: &Vec<String>) -> (s: Self)
        ensures
            s@ == fs_init(features.deep_view(), pre_checked.deep_view()),
            fs_wf(s@, features.deep_view().len()),
    {
        let ghost fv = features.deep_view();
        let ghost pv = pre_checked.deep_view();
        let mut checked: Vec<bool> = Vec::new();
        let mut i: usize = 0;
        while i < features.len()
            invariant
                0 <= i <= features@.len(),
                fv == features.deep_view(),
                pv == pre_checked.deep_view(),
                checked@.len() == i,
                forall|j: int| 0 <= j < i ==> checked@[j] == pv.contains(fv[j].key),
            decreases features@.len() - i,
        {
            proof {
                assert(fv[i as int] == features@[i as int]@);
            }
            let c = contains_str(pre_checked, &features[i].key);
            checked.push(c);
            i = i + 1;
        }
        let s = FeatureSelect { cursor: 0, checked, notice: None };
        proof {
            assert(s@.checked =~= fs_init(fv, pv).checked);
        }
        s
    }

    /// Apply one key. A committing key (Space or Enter on the action row)
    /// returns the checked, non-locked keys and leaves the state alone;
    /// every other key moves the state as `fs_step` says.
    pub fn handle_key(&mut self, key: &Key, features: &Vec<Feature>, locked: &Vec<String>) -> (r:
        Option<Vec<String>>)
        requires
            fs_wf(old(self)@, features.deep_view().len()),
        ensures
            fs_wf(final(self)@, features.deep_view().len()),
            match r {
                Some(v) => fs_commits(old(self)@, features.deep_view().len(), *key)
                    && v.deep_view() == committed_keys(
                    features.deep_view(),
                    locked.deep_view(),
                    old(self)@.checked,
                ) && final(self)@ == old(self)@,
                None => !fs_commits(old(self)@, features.deep_view().len(), *key) && final(self)@
                    == fs_step(old(self)@, features.deep_view(), locked.deep_view(), *key),
            },
    {
        match key {
            Key::Up => {
                if self.cursor > 0 {
                    self.cursor = self.cursor - 1;
                }
                self.notice = None;
                None
            },
            Key::Down => {
                if self.cursor < features.len() {
                    self.cursor = self.cursor + 1;
                }
                self.notice = None;
                None
            },
            Key::Esc => {
                self.notice = None;
                None
            },
            Key::Enter | Key::Char(' ') => {
                if self.cursor < features.len() {
                    proof {
                        assert(features.deep_view()[self.cursor as int]
                            == features@[self.cursor as int]@);
                    }
                    if contains_str(locked, &features[self.cursor].key) {
                        self.notice = Some(self.cursor);
                    } else {
                        let b = self.checked[self.cursor];
                        self.checked[self.cursor] = !b;
                        self.notice = None;
                    }
                    None
                } else {
                    Some(collect_committed_keys(features, locked, &self.checked))
                }
            },
            _ => None,
        }
    }
}

/// Run the checklist over a sequence of keys, starting from the
/// pre-checked state: the first committing key returns the checked,
/// non-locked keys; `None` if no key commits.
pub fn feature_select(
    features: &Vec<Feature>,
    pre_checked: &Vec<String>,
    locked: &Vec<String>,
    keys: &Vec<Key>,
) -> (r: Option<Vec<String>>)
    ensures
        opt_keys_view(r) == fs_run(
            fs_init(features.deep_view(), pre_checked.deep_view()),
            features.deep_view(),
            locked.deep_view(),
            keys@,
        ),
{
    let ghost fv = features.deep_view();
    let ghost lv = locked.deep_view();
    let ghost s0 = fs_init(fv, pre_checked.deep_view());
    let mut st = FeatureSelect::new(features, pre_checked);
    let mut i: usize = 0;
    proof {
        assert(keys@.skip(0) =~= keys@);
        assert(fs_init(features.deep_view(), pre_checked.deep_view()).checked =~= s0.checked);
        assert(fs_init(features.deep_view(), pre_checked.deep_view()) == s0);
    }
    while i < keys.len()
        invariant
            0 <= i <= keys@.len(),
            fv == features.deep_view(),
            lv == locked.deep_view(),
            s0 == fs_init(features.deep_view(), pre_checked.deep_view()),
            fs_wf(st@, fv.len()),
            fs_run(s0, fv, lv, keys@) == fs_run(st@, fv, lv, keys@.skip(i as int)),
        decreases keys@.len() - i,
    {
        proof {
            assert(keys@.skip(i as int)[0] == keys@[i as int]);
            assert(keys@.skip(i as int).drop_first() =~= keys@.skip(i + 1));
        }
        let ghost st_before = st@;
        let r = st.handle_key(&keys[i], features, locked);
        if let Some(v) = r {
            proof {
                assert(fs_run(st_before, fv, lv, keys@.skip(i as int)) == Some(
                    committed_keys(fv, lv, st_before.checked),
                ));
            }
            return Some(v);
        }
        i = i + 1;
    }
    None
}

/// The labels of the features whose key is in `result`, in feature order,
/// taking the first `i` features.
pub open spec fn selected_labels_upto(
    features: Seq<FeatureView>,
    result: Seq<Seq<char>>,
    i: int,
) -> Seq<Seq<char>>
    decreases i,
{
    if i <= 0 {
        Seq::empty()
    } else {
        selected_labels_upto(features, result, i - 1) + if result.contains(features[i - 1].key) {
            seq![features[i - 1].label]
        } else {
            Seq::empty()
        }
    }
}

/// The labels of the features whose key is in `result`, in feature order.
pub open spec fn selected_labels(features: Seq<FeatureView>, result: Seq<Seq<char>>) -> Seq<
    Seq<char>,
> {
    selected_labels_upto(features, result, features.len() as int)
}

/// Collect the labels of the features whose key is in `result`, in
/// feature order.
pub(crate) fn selected_label_strings(features: &Vec<Feature>, result: &Vec<String>) -> (labels:
    Vec<String>)
    ensures
        labels.deep_view() == selected_labels(features.deep_view(), result.deep_view()),
{
    let ghost fv = features.deep_view();
    let ghost rv = result.deep_view();
    let mut labels: Vec<String> = Vec::new();
    let mut i: usize = 0;
    while i < features.len()
        invariant
            0 <= i <= features@.len(),
            fv == features.deep_view(),
            rv == result.deep_view(),
            labels.deep_view() == selected_labels_upto(fv, rv, i as int),
        decreases features@.len() - i,
    {
        let ghost before = labels.deep_view();
        proof {
            assert(fv[i as int] == features@[i as int]@);
        }
        if contains_str(result, &features[i].key) {
            let l = features[i].label.clone();
            labels.push(l);
            proof {
                assert(labels.deep_view() =~= before.push(fv[i as int].label));
                assert(before.push(fv[i as int].label) =~= before + seq![fv[i as int].label]);
            }
        } else {
            proof {
                assert(before =~= before + Seq::<Seq<char>>::empty());
            }
        }
        i = i + 1;
    }
    labels
}

/// The confirmation line shown after the checklist commits: the labels of
/// the selected features joined with `", "`, or `"(none)"` when nothing was
/// selected.
pub fn feature_select_display(features: &Vec<Feature>, result: &Vec<String>) -> (r: String)
    ensures
        result@.len() == 0 ==> r@ == "(none)"@,
        result@.len() > 0 ==> r@ == join_with(
            selected_labels(features.deep_view(), result.deep_view()),
            ", "@,
        ),
{
    if result.len() == 0 {
        return String::from_str("(none)");
    }
    let labels = selected_label_strings(features, result);
    join_strings(&labels, ", ")
}

/// Law: toggling the same unlocked item twice returns the checked flags to
/// their original value.
pub proof fn lemma_toggle_twice(
    s: FsView,
    features: Seq<FeatureView>,
    locked: Seq<Seq<char>>,
    k: Key,
)
    requires
        fs_wf(s, features.len()),
        k == Key::Enter || k == Key::Char(' '),
        0 <= s.cursor < features.len(),
        !is_locked(features[s.cursor], locked),
    ensures
        fs_step(fs_step(s, features, locked, k), features, locked, k).checked == s.checked,
{
    let s1 = fs_step(s, features, locked, k);
    let s2 = fs_step(s1, features, locked, k);
    assert(s2.checked =~= s.checked);
}

/// No element of the committed prefix is a locked key.
proof fn lemma_committed_upto_excludes(
    features: Seq<FeatureView>,
    locked: Seq<Seq<char>>,
    checked: Seq<bool>,
    i: int,
    x: Seq<char>,
)
    requires
        locked.contains(x),
    ensures
        forall|j: int|
            0 <= j < committed_upto(features, locked, checked, i).len() ==> #[trigger] committed_upto(
                features,
                locked,
                checked,
                i,
            )[j] != x,
    decreases i,
{
    if i > 0 {
        lemma_committed_upto_excludes(features, locked, checked, i - 1, x);
        let pre = committed_upto(features, locked, checked, i - 1);
        let whole = committed_upto(features, locked, checked, i);
        assert forall|j: int| 0 <= j < whole.len() implies whole[j] != x by {
            if j < pre.len() {
                assert(whole[j] == pre[j]);
            } else {
                assert(checked[i - 1] && !is_locked(features[i - 1], locked));
                assert(whole[j] == features[i - 1].key);
            }
        }
    }
}

/// A locked key is never a member of the committed key list, whatever the
/// checked flags say.
pub(crate) proof fn lemma_committed_excludes_locked(
    features: Seq<FeatureView>,
    locked: Seq<Seq<char>>,
    checked: Seq<bool>,
    x: Seq<char>,
)
    requires
        locked.contains(x),
    ensures
        !committed_keys(features, locked, checked).contains(x),
{
    lemma_committed_upto_excludes(features, locked, checked, features.len() as int, x);
    let res = committed_keys(features, locked, checked);
    if res.contains(x) {
        let j = choose|j: int| 0 <= j < res.len() && res[j] == x;
        assert(res[j] != x);
    }
}

/// Law: a locked key is never a member of the committed result, whatever
/// sequence of keys — toggle attempts included — the checklist receives.
pub proof fn lemma_locked_immutable(
    s: FsView,
    features: Seq<FeatureView>,
    locked: Seq<Seq<char>>,
    keys: Seq<Key>,
    x: Seq<char>,
)
    requires
        locked.contains(x),
    ensures
        fs_run(s, features, locked, keys) matches Some(res) ==> !res.contains(x),
    decreases keys.len(),
{
    if keys.len() == 0 {
    } else if fs_commits(s, features.len(), keys[0]) {
        lemma_committed_excludes_locked(features, locked, s.checked, x);
    } else {
        lemma_locked_immutable(
            fs_step(s, features, locked, keys[0]),
            features,
            locked,
            keys.drop_first(),
            x,
        );
    }
}

} // verus!
