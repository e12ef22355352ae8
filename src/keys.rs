//! Key presses as the library sees them.
use vstd::prelude::*;

verus! {

/// A key, as far as the screens tell keys apart.
#[derive(Clone, Copy, Debug, PartialEq, Eq, Structural)]
pub enum Key {
    Char(char),
    Backspace,
    Enter,
    Esc,
    Up,
    Down,
    Tab,
    Other,
}

/// A key press with the state of the control modifier.
#[derive(Clone, Copy, Debug, PartialEq, Eq, Structural)]
pub struct KeyPress {
    pub key: Key,
    pub ctrl: bool,
}

impl KeyPress {
    /// A key press without the control modifier.
    pub fn plain(key: Key) -> (r: KeyPress)
        ensures
            r == (KeyPress { key, ctrl: false }),
    {
        KeyPress { key, ctrl: false }
    }
}

/// A text buffer after a key press: a character is appended, backspace
/// removes the last character (if any), other keys leave it as it is.
pub open spec fn edited(buf: Seq<char>, key: Key) -> Seq<char> {
    match key {
        Key::Char(c) => buf.push(c),
        Key::Backspace => if buf.len() > 0 {
            buf.drop_last()
        } else {
            buf
        },
        _ => buf,
    }
}

/// Applies a key press to a text buffer.
pub fn edit(buf: &mut Vec<char>, key: Key)
    ensures
        final(buf)@ == edited(old(buf)@, key),
{
    match key {
        Key::Char(c) => buf.push(c),
        Key::Backspace => {
            if buf.len() > 0 {
                let _ = buf.pop();
            }
        },
        _ => {},
    }
}

} // verus!
