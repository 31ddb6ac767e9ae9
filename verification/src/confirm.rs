//! The yes/no prompt: a one-shot decision keyed by a single keystroke.

use crate::key::Key;
use vstd::prelude::*;
use vstd::string::StringExecFns;

verus! {

/// The decision a single key settles, if any: Enter, 'y' and 'Y' answer
/// yes; 'n', 'N' and Esc answer no; every other key is ignored.
pub open spec fn confirm_key(k: Key) -> Option<bool> {
    match k {
        Key::Enter => Some(true),
        Key::Esc => Some(false),
        Key::Char(c) => if c == 'y' || c == 'Y' {
            Some(true)
        } else if c == 'n' || c == 'N' {
            Some(false)
        } else {
            None
        },
        _ => None,
    }
}

/// The decision of the first deciding key in the sequence, if any key
/// decides at all.
pub open spec fn confirm_decision(keys: Seq<Key>) -> Option<bool>
    decreases keys.len(),
{
    if keys.len() == 0 {
        None
    } else if confirm_key(keys[0]) is Some {
        confirm_key(keys[0])
    } else {
        confirm_decision(keys.drop_first())
    }
}

/// The one-line prompt of the yes/no question.
pub fn confirm_prompt_display(prompt: &str) -> (r: String)
    ensures
        r@ == "? "@ + prompt@ + " [Y/n] "@,
{
    let mut r = String::from_str("? ");
    r.append(prompt);
    r.append(" [Y/n] ");
    r
}

/// The one-word echo of the decision.
pub fn confirm_echo(yes: bool) -> (r: String)
    ensures
        yes ==> r@ == "Yes"@,
        !yes ==> r@ == "No"@,
{
    if yes {
        String::from_str("Yes")
    } else {
        String::from_str("No")
    }
}

/// Handle one key of a yes/no prompt.
pub fn confirm_step(key: &Key) -> (r: Option<bool>)
    ensures
        r == confirm_key(*key),
{
    match key {
        Key::Enter => Some(true),
        Key::Esc => Some(false),
        Key::Char(c) => {
            if *c == 'y' || *c == 'Y' {
                Some(true)
            } else if *c == 'n' || *c == 'N' {
                Some(false)
            } else {
                None
            }
        },
        _ => None,
    }
}

/// Run the yes/no prompt over a sequence of keys: the first deciding key
/// gives the answer; `None` if no key in the sequence decides.
pub fn confirm(keys: &Vec<Key>) -> (r: Option<bool>)
    ensures
        r == confirm_decision(keys@),
{
    let mut i: usize = 0;
    proof {
        assert(keys@.skip(0) =~= keys@);
    }
    while i < keys.len()
        invariant
            0 <= i <= keys@.len(),
            confirm_decision(keys@) == confirm_decision(keys@.skip(i as int)),
        decreases keys@.len() - i,
    {
        let d = confirm_step(&keys[i]);
        proof {
            assert(keys@.skip(i as int)[0] == keys@[i as int]);
            assert(keys@.skip(i as int).drop_first() =~= keys@.skip(i + 1));
        }
        if let Some(b) = d {
            return Some(b);
        }
        i = i + 1;
    }
    None
}

} // verus!
