//! Keyboard events as the prompt state machines see them.
//!
//! The caller translates whatever its terminal backend reports into a `Key`;
//! everything the machines decide is a function of these plain values.

use vstd::prelude::*;

verus! {

/// One keyboard event. `Char` carries any printable character, including
/// `' '`, which the checklist widgets treat as a toggle. Events the prompts
/// do not react to (function keys, page movement, ...) arrive as `Other`.
#[derive(Clone, Copy, Debug, PartialEq, Eq, Structural)]
pub enum Key {
    Enter,
    Up,
    Down,
    Backspace,
    Esc,
    Char(char),
    Other,
}

/// How one key edits a text buffer: printable characters append, Backspace
/// removes the last character (of a non-empty buffer), every other key
/// leaves the buffer alone.
pub open spec fn edit_key(buf: Seq<char>, k: Key) -> Seq<char> {
    match k {
        Key::Char(c) => buf.push(c),
        Key::Backspace => if buf.len() == 0 {
            buf
        } else {
            buf.drop_last()
        },
        _ => buf,
    }
}

} // verus!
