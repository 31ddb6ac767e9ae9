//! Small string helpers shared by the widgets: buffer editing, membership
//! tests over string lists, and separator joins for summary lines.

use vstd::prelude::*;
use vstd::string::StringExecFns;

verus! {

/// Relies on `String::push`: appends the given character to the end of the
/// buffer.
#[verifier::external_body]
pub(crate) fn push_char(s: &mut String, c: char)
    ensures
        final(s)@ == old(s)@.push(c),
{
    s.push(c);
}

/// Relies on `String::pop`: removes the last character of the buffer; an
/// empty buffer is left as it is.
#[verifier::external_body]
pub(crate) fn pop_char(s: &mut String)
    ensures
        old(s)@.len() == 0 ==> final(s)@ == old(s)@,
        old(s)@.len() > 0 ==> final(s)@ == old(s)@.drop_last(),
{
    s.pop();
}

/// The text carried by an optional string, for stating contracts.
pub open spec fn opt_view(r: Option<String>) -> Option<Seq<char>> {
    match r {
        Some(s) => Some(s@),
        None => None,
    }
}

/// Is the text of `x` among the texts of `xs`?
pub fn contains_str(xs: &Vec<String>, x: &String) -> (r: bool)
    ensures
        r == xs.deep_view().contains(x@),
{
    let mut i: usize = 0;
    while i < xs.len()
        invariant
            0 <= i <= xs@.len(),
            forall|j: int| 0 <= j < i ==> xs.deep_view()[j] != x@,
        decreases xs@.len() - i,
    {
        if xs[i] == *x {
            proof {
                assert(xs.deep_view()[i as int] == x@);
            }
            return true;
        }
        i = i + 1;
    }
    false
}

/// The texts of `xs` joined with `sep` between neighbours.
pub open spec fn join_with(xs: Seq<Seq<char>>, sep: Seq<char>) -> Seq<char>
    decreases xs.len(),
{
    if xs.len() == 0 {
        Seq::empty()
    } else if xs.len() == 1 {
        xs[0]
    } else {
        xs[0] + sep + join_with(xs.drop_first(), sep)
    }
}

/// Joining one more item appends a separator and the item, except to an
/// empty list.
pub proof fn lemma_join_push(xs: Seq<Seq<char>>, sep: Seq<char>, x: Seq<char>)
    ensures
        join_with(xs.push(x), sep) == if xs.len() == 0 {
            x
        } else {
            join_with(xs, sep) + sep + x
        },
    decreases xs.len(),
{
    let p = xs.push(x);
    if xs.len() == 0 {
        assert(p.len() == 1);
        assert(p[0] == x);
    } else if xs.len() == 1 {
        assert(p.drop_first() =~= seq![x]);
        assert(join_with(p.drop_first(), sep) == x);
        assert(p[0] == xs[0]);
    } else {
        assert(p.drop_first() =~= xs.drop_first().push(x));
        lemma_join_push(xs.drop_first(), sep, x);
        assert(p[0] == xs[0]);
        assert(xs[0] + sep + (join_with(xs.drop_first(), sep) + sep + x) =~= (xs[0] + sep
            + join_with(xs.drop_first(), sep)) + sep + x);
    }
}

/// Join the items with a separator, e.g. `", "`.
pub fn join_strings(xs: &Vec<String>, sep: &str) -> (r: String)
    ensures
        r@ == join_with(xs.deep_view(), sep@),
{
    let ghost dv = xs.deep_view();
    let mut r = String::new();
    let mut i: usize = 0;
    while i < xs.len()
        invariant
            0 <= i <= xs@.len(),
            dv == xs.deep_view(),
            r@ == join_with(dv.take(i as int), sep@),
        decreases xs@.len() - i,
    {
        proof {
            lemma_join_push(dv.take(i as int), sep@, dv[i as int]);
            assert(dv.take(i + 1) =~= dv.take(i as int).push(dv[i as int]));
        }
        if i > 0 {
            r.append(sep);
        }
        r.append(xs[i].as_str());
        i = i + 1;
    }
    proof {
        assert(dv.take(xs@.len() as int) =~= dv);
    }
    r
}

} // verus!
