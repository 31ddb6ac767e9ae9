//! The ranking filter behind every "type to search" box.
//!
//! Matching is case-insensitive. Items whose lowercased text starts with the
//! lowercased query come first, items that merely contain it follow, and the
//! original relative order is kept inside each of the two groups. An empty
//! query leaves the list untouched.

use vstd::prelude::*;
use vstd::seq_lib::*;

verus! {

broadcast use vstd::seq_lib::group_filter_ensures, Seq::filter_distributes_over_add;

/// What `str::to_lowercase` returns for a given character sequence; the
/// result depends on the characters alone.
pub uninterp spec fn lower_of(s: Seq<char>) -> Seq<char>;

/// Relies on `str::to_lowercase`: the Unicode lowercase equivalent of `s`,
/// a function of the characters alone, handed back character by character.
#[verifier::external_body]
fn lower_chars(s: &str) -> (r: Vec<char>)
    ensures
        r@ == lower_of(s@),
{
    s.to_lowercase().chars().collect()
}

/// `needle` occurs contiguously somewhere in `hay`.
pub open spec fn contains_seq(hay: Seq<char>, needle: Seq<char>) -> bool {
    exists|i: int|
        0 <= i && i + needle.len() <= hay.len() && needle == #[trigger] hay.subrange(
            i,
            i + needle.len(),
        )
}

/// The lowercased item starts with the (already lowercased) query.
pub open spec fn prefix_matches(item: Seq<char>, q: Seq<char>) -> bool {
    q.is_prefix_of(lower_of(item))
}

/// The lowercased item contains the (already lowercased) query.
pub open spec fn substring_matches(item: Seq<char>, q: Seq<char>) -> bool {
    contains_seq(lower_of(item), q)
}

/// The item belongs to the second bucket: a substring match that is not a
/// prefix match.
pub open spec fn matches_only_substring(item: Seq<char>, q: Seq<char>) -> bool {
    substring_matches(item, q) && !prefix_matches(item, q)
}

/// The prefix-match bucket, in input order.
pub open spec fn prefix_group(items: Seq<Seq<char>>, q: Seq<char>) -> Seq<Seq<char>> {
    items.filter(|it: Seq<char>| prefix_matches(it, q))
}

/// The substring-only bucket, in input order.
pub open spec fn substring_group(items: Seq<Seq<char>>, q: Seq<char>) -> Seq<Seq<char>> {
    items.filter(|it: Seq<char>| matches_only_substring(it, q))
}

/// What `filter` returns: the input itself for an empty query, otherwise the
/// prefix bucket followed by the substring-only bucket.
pub open spec fn filter_spec(items: Seq<Seq<char>>, query: Seq<char>) -> Seq<Seq<char>> {
    if query.len() == 0 {
        items
    } else {
        prefix_group(items, lower_of(query)) + substring_group(items, lower_of(query))
    }
}

/// Does `s` start with `pre`?
fn starts_with_chars(s: &Vec<char>, pre: &Vec<char>) -> (r: bool)
    ensures
        r == pre@.is_prefix_of(s@),
{
    if pre.len() > s.len() {
        return false;
    }
    let mut i: usize = 0;
    while i < pre.len()
        invariant
            0 <= i <= pre@.len() <= s@.len(),
            forall|j: int| 0 <= j < i ==> s@[j] == pre@[j],
        decreases pre@.len() - i,
    {
        if s[i] != pre[i] {
            return false;
        }
        i = i + 1;
    }
    proof {
        assert(pre@ =~= s@.subrange(0, pre@.len() as int));
    }
    true
}

/// Does `needle` match `hay` at position `pos`?
fn match_at(hay: &Vec<char>, needle: &Vec<char>, pos: usize) -> (r: bool)
    requires
        pos + needle@.len() <= hay@.len(),
    ensures
        r == (needle@ == hay@.subrange(pos as int, pos as int + needle@.len())),
{
    let hay_len: usize = hay.len();
    let mut i: usize = 0;
    while i < needle.len()
        invariant
            pos + needle@.len() <= hay@.len(),
            hay@.len() == hay_len,
            0 <= i <= needle@.len(),
            forall|j: int| 0 <= j < i ==> hay@[pos + j] == needle@[j],
        decreases needle@.len() - i,
    {
        if hay[pos + i] != needle[i] {
            proof {
                assert(hay@.subrange(pos as int, pos as int + needle@.len())[i as int] == hay@[pos + i]);
            }
            return false;
        }
        i = i + 1;
    }
    proof {
        assert(needle@ =~= hay@.subrange(pos as int, pos as int + needle@.len()));
    }
    true
}

/// Does `hay` contain `needle` anywhere?
fn contains_chars(hay: &Vec<char>, needle: &Vec<char>) -> (r: bool)
    ensures
        r == contains_seq(hay@, needle@),
{
    if needle.len() > hay.len() {
        return false;
    }
    let last_start: usize = hay.len() - needle.len();
    let mut pos: usize = 0;
    loop
        invariant
            needle@.len() <= hay@.len(),
            last_start == hay@.len() - needle@.len(),
            0 <= pos <= last_start,
            forall|j: int|
                0 <= j < pos ==> needle@ != #[trigger] hay@.subrange(j, j + needle@.len()),
        decreases last_start - pos,
    {
        if match_at(hay, needle, pos) {
            return true;
        }
        if pos == last_start {
            return false;
        }
        pos = pos + 1;
    }
}

/// Reorder `items` for display against `query`: prefix matches first, then
/// substring matches, each group in input order; everything else dropped.
/// An empty query returns the items unchanged.
pub fn filter(items: &Vec<String>, query: &str) -> (r: Vec<String>)
    ensures
        r.deep_view() == filter_spec(items.deep_view(), query@),
        query@.len() == 0 ==> r.deep_view() == items.deep_view(),
{
    let ghost dv = items.deep_view();
    if query.is_empty() {
        let mut r: Vec<String> = Vec::new();
        let mut i: usize = 0;
        while i < items.len()
            invariant
                0 <= i <= items@.len(),
                dv == items.deep_view(),
                r.deep_view() == dv.take(i as int),
            decreases items@.len() - i,
        {
            let ghost r_before = r.deep_view();
            let it = items[i].clone();
            r.push(it);
            proof {
                assert(r.deep_view() =~= r_before.push(dv[i as int]));
                assert(dv.take(i + 1) =~= r_before.push(dv[i as int]));
            }
            i = i + 1;
        }
        proof {
            assert(dv.take(items@.len() as int) =~= dv);
        }
        return r;
    }
    let q = lower_chars(query);
    let ghost ql = lower_of(query@);
    let mut starts: Vec<String> = Vec::new();
    let mut subs: Vec<String> = Vec::new();
    let mut i: usize = 0;
    while i < items.len()
        invariant
            0 <= i <= items@.len(),
            dv == items.deep_view(),
            q@ == ql,
            starts.deep_view() == prefix_group(dv.take(i as int), ql),
            subs.deep_view() == substring_group(dv.take(i as int), ql),
        decreases items@.len() - i,
    {
        let ghost prefix_before = starts.deep_view();
        let ghost subs_before = subs.deep_view();
        let lower = lower_chars(items[i].as_str());
        proof {
            assert(dv[i as int] == items@[i as int]@);
            assert(dv.take(i + 1 as int) =~= dv.take(i as int).push(dv[i as int]));
            lemma_groups_push(dv.take(i as int), ql, dv[i as int]);
        }
        if starts_with_chars(&lower, &q) {
            let it = items[i].clone();
            starts.push(it);
            proof {
                assert(starts.deep_view() =~= prefix_before.push(dv[i as int]));
            }
        } else if contains_chars(&lower, &q) {
            let it = items[i].clone();
            subs.push(it);
            proof {
                assert(subs.deep_view() =~= subs_before.push(dv[i as int]));
            }
        }
        i = i + 1;
    }
    proof {
        assert(dv.take(items@.len() as int) =~= dv);
    }
    let mut r = starts;
    r.append(&mut subs);
    proof {
        assert(r.deep_view() =~= prefix_group(dv, ql) + substring_group(dv, ql));
    }
    r
}

/// Appending one item to the input extends exactly the bucket it matches.
proof fn lemma_groups_push(items: Seq<Seq<char>>, q: Seq<char>, x: Seq<char>)
    ensures
        prefix_group(items.push(x), q) == if prefix_matches(x, q) {
            prefix_group(items, q).push(x)
        } else {
            prefix_group(items, q)
        },
        substring_group(items.push(x), q) == if matches_only_substring(x, q) {
            substring_group(items, q).push(x)
        } else {
            substring_group(items, q)
        },
{
    reveal(Seq::filter);
    assert(items.push(x).drop_last() =~= items);
    assert(items.push(x).last() == x);
}

/// Every element of `s` is a prefix match: the prefix bucket is `s` itself
/// and the substring-only bucket is empty.
proof fn lemma_groups_of_all_prefix(s: Seq<Seq<char>>, q: Seq<char>)
    requires
        forall|i: int| 0 <= i < s.len() ==> prefix_matches(#[trigger] s[i], q),
    ensures
        prefix_group(s, q) == s,
        substring_group(s, q) == Seq::<Seq<char>>::empty(),
    decreases s.len(),
{
    reveal(Seq::filter);
    if s.len() > 0 {
        lemma_groups_of_all_prefix(s.drop_last(), q);
        assert(s.drop_last().push(s.last()) =~= s);
    } else {
        assert(s =~= Seq::<Seq<char>>::empty());
    }
}

/// No element of `s` is a prefix match: the prefix bucket is empty and the
/// substring-only bucket keeps exactly the substring matches.
proof fn lemma_groups_of_no_prefix(s: Seq<Seq<char>>, q: Seq<char>)
    requires
        forall|i: int| 0 <= i < s.len() ==> !prefix_matches(#[trigger] s[i], q),
        forall|i: int| 0 <= i < s.len() ==> substring_matches(#[trigger] s[i], q),
    ensures
        prefix_group(s, q) == Seq::<Seq<char>>::empty(),
        substring_group(s, q) == s,
    decreases s.len(),
{
    reveal(Seq::filter);
    if s.len() > 0 {
        lemma_groups_of_no_prefix(s.drop_last(), q);
        assert(s.drop_last().push(s.last()) =~= s);
    } else {
        assert(s =~= Seq::<Seq<char>>::empty());
    }
}

/// Law: for any candidate list and non-empty query, every prefix-matching
/// element of the filtered output comes before every merely-substring
/// element, and inside each of the two groups the output keeps exactly the
/// input's members in the input's order.
pub proof fn lemma_filter_ordering(items: Seq<Seq<char>>, query: Seq<char>)
    requires
        query.len() > 0,
    ensures
        ({
            let r = filter_spec(items, query);
            let q = lower_of(query);
            &&& forall|i: int, j: int|
                0 <= i < j < r.len() && prefix_matches(#[trigger] r[j], q) ==> prefix_matches(
                    #[trigger] r[i],
                    q,
                )
            &&& prefix_group(r, q) == prefix_group(items, q)
            &&& substring_group(r, q) == substring_group(items, q)
        }),
{
    let r = filter_spec(items, query);
    let q = lower_of(query);
    let a = prefix_group(items, q);
    let b = substring_group(items, q);
    assert(forall|i: int| 0 <= i < a.len() ==> prefix_matches(#[trigger] a[i], q));
    assert(forall|i: int| 0 <= i < b.len() ==> matches_only_substring(#[trigger] b[i], q));
    assert forall|i: int, j: int|
        0 <= i < j < r.len() && prefix_matches(#[trigger] r[j], q) implies prefix_matches(
        #[trigger] r[i],
        q,
    ) by {
        if j >= a.len() {
            assert(r[j] == b[j - a.len()]);
        } else {
            assert(r[i] == a[i]);
        }
    }
    lemma_groups_of_all_prefix(a, q);
    lemma_groups_of_no_prefix(b, q);
    assert(prefix_group(r, q) =~= prefix_group(items, q));
    assert(substring_group(r, q) =~= substring_group(items, q));
}

/// Law: filtering with the empty query returns the items unchanged, same
/// members and same order.
pub proof fn lemma_filter_empty_query(items: Seq<Seq<char>>)
    ensures
        filter_spec(items, Seq::<char>::empty()) == items,
{
}

} // verus!
