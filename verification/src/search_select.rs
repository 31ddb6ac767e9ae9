//! The single-select-with-search prompt: a query string refined by typing;
//! the top entry of the ranking filter is the implicit selection, and Enter
//! commits it — or does nothing when nothing matches.

use crate::filter::{filter, filter_spec};
use crate::key::{edit_key, Key};
use crate::strings::{opt_view, pop_char, push_char};
use vstd::prelude::*;

verus! {

/// Result of feeding `keys` to a query holding `q`: the first Enter that
/// finds a non-empty filtered list commits its top entry; an Enter on an
/// empty filtered list changes nothing; `None` if no Enter commits.
pub open spec fn search_result(q: Seq<char>, items: Seq<Seq<char>>, keys: Seq<Key>) -> Option<
    Seq<char>,
>
    decreases keys.len(),
{
    if keys.len() == 0 {
        None
    } else if keys[0] == Key::Enter && filter_spec(items, q).len() > 0 {
        Some(filter_spec(items, q)[0])
    } else {
        search_result(edit_key(q, keys[0]), items, keys.drop_first())
    }
}

/// The search prompt's state: the query typed so far.
pub struct SearchSelect {
    pub query: String,
}

impl SearchSelect {
    /// A fresh prompt with an empty query.
    pub fn new() -> (s: Self)
        ensures
            s.query@ == Seq::<char>::empty(),
    {
        SearchSelect { query: String::new() }
    }

    /// Apply one key. Enter commits the top filtered match if one exists
    /// and leaves the query as it was; an Enter with no match is a no-op;
    /// any other key edits the query as `edit_key` says.
    pub fn handle_key(&mut self, key: &Key, items: &Vec<String>) -> (r: Option<String>)
        ensures
            match r {
                Some(s) => *key == Key::Enter && filter_spec(
                    items.deep_view(),
                    old(self).query@,
                ).len() > 0 && s@ == filter_spec(items.deep_view(), old(self).query@)[0]
                    && final(self).query@ == old(self).query@,
                None => final(self).query@ == edit_key(old(self).query@, *key) && !(*key
                    == Key::Enter && filter_spec(items.deep_view(), old(self).query@).len() > 0),
            },
    {
        match key {
            Key::Enter => {
                let filtered = filter(items, self.query.as_str());
                if filtered.len() > 0 {
                    let top = filtered[0].clone();
                    proof {
                        assert(top@ == filtered.deep_view()[0]);
                    }
                    Some(top)
                } else {
                    None
                }
            },
            Key::Char(c) => {
                push_char(&mut self.query, *c);
                None
            },
            Key::Backspace => {
                pop_char(&mut self.query);
                None
            },
            _ => None,
        }
    }
}

/// Run the search prompt over a sequence of keys, starting from an empty
/// query. Only a valid selection returns; key sequences whose Enters all
/// fall on an empty filtered list return `None`.
pub fn search_select(items: &Vec<String>, keys: &Vec<Key>) -> (r: Option<String>)
    ensures
        opt_view(r) == search_result(Seq::<char>::empty(), items.deep_view(), keys@),
{
    let mut st = SearchSelect::new();
    let mut i: usize = 0;
    proof {
        assert(keys@.skip(0) =~= keys@);
    }
    while i < keys.len()
        invariant
            0 <= i <= keys@.len(),
            search_result(Seq::<char>::empty(), items.deep_view(), keys@) == search_result(
                st.query@,
                items.deep_view(),
                keys@.skip(i as int),
            ),
        decreases keys@.len() - i,
    {
        proof {
            assert(keys@.skip(i as int)[0] == keys@[i as int]);
            assert(keys@.skip(i as int).drop_first() =~= keys@.skip(i + 1));
        }
        let r = st.handle_key(&keys[i], items);
        if let Some(s) = r {
            return Some(s);
        }
        i = i + 1;
    }
    None
}

} // verus!
