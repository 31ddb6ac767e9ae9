//! The single-line text prompt: an editable buffer with a default value
//! that stands in when the buffer is committed empty.

use crate::key::{edit_key, Key};
use crate::strings::{opt_view, pop_char, push_char};
use vstd::prelude::*;
use vstd::string::StringExecFns;

verus! {

/// The committed value: the buffer itself, or the default if the buffer is
/// empty.
pub open spec fn resolve(buf: Seq<char>, default: Seq<char>) -> Seq<char> {
    if buf.len() == 0 {
        default
    } else {
        buf
    }
}

/// Result of feeding `keys` to a buffer holding `buf`: the first Enter
/// commits the resolved value; `None` if no Enter arrives.
pub open spec fn text_input_result(buf: Seq<char>, default: Seq<char>, keys: Seq<Key>) -> Option<
    Seq<char>,
>
    decreases keys.len(),
{
    if keys.len() == 0 {
        None
    } else if keys[0] == Key::Enter {
        Some(resolve(buf, default))
    } else {
        text_input_result(edit_key(buf, keys[0]), default, keys.drop_first())
    }
}

/// The text prompt's state: what the user has typed so far.
pub struct TextInput {
    pub buf: String,
}

impl TextInput {
    /// A fresh prompt with an empty buffer.
    pub fn new() -> (s: Self)
        ensures
            s.buf@ == Seq::<char>::empty(),
    {
        TextInput { buf: String::new() }
    }

    /// Apply one key. Enter commits the resolved value and leaves the buffer
    /// as it was; any other key edits the buffer as `edit_key` says.
    pub fn handle_key(&mut self, key: &Key, default: &str) -> (r: Option<String>)
        ensures
            match r {
                Some(s) => *key == Key::Enter && s@ == resolve(old(self).buf@, default@)
                    && final(self).buf@ == old(self).buf@,
                None => *key != Key::Enter && final(self).buf@ == edit_key(old(self).buf@, *key),
            },
    {
        match key {
            Key::Enter => {
                if self.buf.as_str().is_empty() {
                    Some(String::from_str(default))
                } else {
                    Some(self.buf.clone())
                }
            },
            Key::Char(c) => {
                push_char(&mut self.buf, *c);
                None
            },
            Key::Backspace => {
                pop_char(&mut self.buf);
                None
            },
            _ => None,
        }
    }
}

/// Run the text prompt over a sequence of keys, starting from an empty
/// buffer: the first Enter commits the typed text, or the default if
/// nothing was typed; `None` if no Enter arrives.
pub fn text_input(default: &str, keys: &Vec<Key>) -> (r: Option<String>)
    ensures
        opt_view(r) == text_input_result(Seq::<char>::empty(), default@, keys@),
{
    let mut st = TextInput::new();
    let mut i: usize = 0;
    proof {
        assert(keys@.skip(0) =~= keys@);
    }
    while i < keys.len()
        invariant
            0 <= i <= keys@.len(),
            text_input_result(Seq::<char>::empty(), default@, keys@) == text_input_result(
                st.buf@,
                default@,
                keys@.skip(i as int),
            ),
        decreases keys@.len() - i,
    {
        proof {
            assert(keys@.skip(i as int)[0] == keys@[i as int]);
            assert(keys@.skip(i as int).drop_first() =~= keys@.skip(i + 1));
        }
        let r = st.handle_key(&keys[i], default);
        if let Some(s) = r {
            return Some(s);
        }
        i = i + 1;
    }
    None
}

} // verus!
