//! Keyboard keys for text input.

use vstd::prelude::*;
use vstd::string::*;

verus! {

/// A key of the keyboard.
#[derive(Debug, Clone, PartialEq)]
pub enum Key {
    /// The key that types a character.
    Char(char),
    Enter,
    Tab,
    Escape,
    Backspace,
    Delete,
    ArrowUp,
    ArrowDown,
    ArrowLeft,
    ArrowRight,
    F1,
    F2,
    F3,
    F4,
    F5,
    F6,
    F7,
    F8,
    F9,
    F10,
    F11,
    F12,
    Shift,
    Control,
    Alt,
    Meta,
    PageUp,
    PageDown,
    Home,
    End,
}

impl Key {
    /// Whether `keys` are the keys that type the characters of `text`, one
    /// after another.
    pub open spec fn types_text(keys: Seq<Key>, text: Seq<char>) -> bool {
        &&& keys.len() == text.len()
        &&& forall|i: int| 0 <= i < text.len() ==> #[trigger] keys[i] == Key::Char(text[i])
    }

    /// The key that types `c`.
    pub fn char(c: char) -> (key: Self)
        ensures
            key == Key::Char(c),
    {
        Key::Char(c)
    }

    /// The keys that type `s`, one for each character.
    pub fn string(s: &str) -> (keys: Vec<Self>)
        ensures
            Self::types_text(keys@, s@),
    {
        let count = s.unicode_len();
        let mut keys: Vec<Key> = Vec::new();
        let mut i: usize = 0;
        while i < count
            invariant
                count == s@.len(),
                i <= count,
                keys@.len() == i,
                forall|k: int| 0 <= k < i ==> #[trigger] keys@[k] == Key::Char(s@[k]),
            decreases count - i,
        {
            keys.push(Key::Char(s.get_char(i)));
            i += 1;
        }
        keys
    }
}

} // verus!
