//! The finite key domain that chords are built from.

use vstd::prelude::*;

verus! {

/// A physical keyboard key that can take part in a registered chord.
///
/// The domain is closed and finite: only keys that occur in some chord are
/// representable.  Equality is by identity, never by label text.  A source
/// adapter that sees any other physical key simply reports the combination
/// as unlabelled, which the dispatch engine ignores.
#[derive(Clone, Copy, Debug, PartialEq, Eq, Structural)]
pub enum Key {
    MetaLeft,
    Alt,
    ControlLeft,
    UpArrow,
    DownArrow,
    LeftArrow,
    RightArrow,
    KeyP,
}

/// Canonical rank of a key.  The signature encoder lists held keys in
/// strictly increasing rank order, which makes the encoding independent of
/// the order in which keys were added.
pub open spec fn key_code(k: Key) -> int {
    match k {
        Key::MetaLeft => 0,
        Key::Alt => 1,
        Key::ControlLeft => 2,
        Key::UpArrow => 3,
        Key::DownArrow => 4,
        Key::LeftArrow => 5,
        Key::RightArrow => 6,
        Key::KeyP => 7,
    }
}

/// The character standing for a key inside a chord signature.
pub open spec fn key_char(k: Key) -> char {
    match k {
        Key::MetaLeft => 'm',
        Key::Alt => 'a',
        Key::ControlLeft => 'c',
        Key::UpArrow => 'u',
        Key::DownArrow => 'd',
        Key::LeftArrow => 'l',
        Key::RightArrow => 'r',
        Key::KeyP => 'p',
    }
}

/// Executable twin of [`key_code`].
pub fn key_rank(k: Key) -> (r: u8)
    ensures
        r as int == key_code(k),
{
    match k {
        Key::MetaLeft => 0,
        Key::Alt => 1,
        Key::ControlLeft => 2,
        Key::UpArrow => 3,
        Key::DownArrow => 4,
        Key::LeftArrow => 5,
        Key::RightArrow => 6,
        Key::KeyP => 7,
    }
}

/// The one-character token standing for a key inside a signature.
pub fn key_token(k: Key) -> (t: &'static str)
    ensures
        t@ == seq![key_char(k)],
{
    proof {
        reveal_strlit("m");
        reveal_strlit("a");
        reveal_strlit("c");
        reveal_strlit("u");
        reveal_strlit("d");
        reveal_strlit("l");
        reveal_strlit("r");
        reveal_strlit("p");
    }
    let t = match k {
        Key::MetaLeft => "m",
        Key::Alt => "a",
        Key::ControlLeft => "c",
        Key::UpArrow => "u",
        Key::DownArrow => "d",
        Key::LeftArrow => "l",
        Key::RightArrow => "r",
        Key::KeyP => "p",
    };
    proof {
        assert(t@ =~= seq![key_char(k)]);
    }
    t
}

/// Distinct keys have distinct ranks.
pub proof fn lemma_key_code_injective(a: Key, b: Key)
    ensures
        key_code(a) == key_code(b) ==> a == b,
{
}

/// Distinct keys are encoded by distinct characters.
pub proof fn lemma_key_char_injective(a: Key, b: Key)
    ensures
        key_char(a) == key_char(b) ==> a == b,
{
}

} // verus!
