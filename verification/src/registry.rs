//! The fixed table binding the five chord signatures to their actions.
//!
//! All five chords share the meta+alt+control modifier prefix and differ in
//! one terminal key.  The table is built once at startup from the signature
//! encoder and never mutated afterwards; lookup is a pure read.

use vstd::prelude::*;

use crate::held::HeldKeySet;
use crate::held::lemma_sig_chars_injective;
use crate::held::lemma_signature_of_listing;
use crate::held::sig_chars;
use crate::held::sorted_unique;
use crate::keys::Key;
use crate::keys::key_code;

verus! {

/// One of the closed set of media-control operations a chord can trigger.
#[derive(Clone, Copy, Debug, PartialEq, Eq, Structural)]
pub enum Action {
    VolumeUp,
    VolumeDown,
    PreviousTrack,
    NextTrack,
    PlayPause,
}

/// The key that distinguishes an action's chord from the shared prefix.
pub open spec fn terminal_key(a: Action) -> Key {
    match a {
        Action::VolumeUp => Key::UpArrow,
        Action::VolumeDown => Key::DownArrow,
        Action::PreviousTrack => Key::LeftArrow,
        Action::NextTrack => Key::RightArrow,
        Action::PlayPause => Key::KeyP,
    }
}

/// The canonical listing of an action's chord: the shared modifier prefix
/// followed by the terminal key.
pub open spec fn chord_listing(a: Action) -> Seq<Key> {
    seq![Key::MetaLeft, Key::Alt, Key::ControlLeft, terminal_key(a)]
}

/// The signature the registry binds to an action.
pub open spec fn chord_signature(a: Action) -> Seq<char> {
    sig_chars(chord_listing(a))
}

/// Which action, if any, is bound to a signature text.  Absence is not an
/// error: an unbound signature means the event carries no chord of ours.
pub open spec fn spec_lookup(label: Seq<char>) -> Option<Action> {
    if label == chord_signature(Action::VolumeUp) {
        Some(Action::VolumeUp)
    } else if label == chord_signature(Action::VolumeDown) {
        Some(Action::VolumeDown)
    } else if label == chord_signature(Action::PreviousTrack) {
        Some(Action::PreviousTrack)
    } else if label == chord_signature(Action::NextTrack) {
        Some(Action::NextTrack)
    } else if label == chord_signature(Action::PlayPause) {
        Some(Action::PlayPause)
    } else {
        None
    }
}

/// A held set holding exactly the shared meta+alt+control modifier prefix,
/// the common stem every chord registration starts from.
pub fn new_ctrl_alt_cmd() -> (r: HeldKeySet)
    ensures
        r.wf(),
        r.key_set() == set![Key::MetaLeft, Key::Alt, Key::ControlLeft],
{
    let mut key = HeldKeySet::new();
    key.add(Key::MetaLeft);
    key.add(Key::Alt);
    key.add(Key::ControlLeft);
    proof {
        assert(key.key_set() =~= set![Key::MetaLeft, Key::Alt, Key::ControlLeft]);
    }
    key
}

/// Executable twin of [`terminal_key`].
pub fn terminal_key_of(a: Action) -> (k: Key)
    ensures
        k == terminal_key(a),
{
    match a {
        Action::VolumeUp => Key::UpArrow,
        Action::VolumeDown => Key::DownArrow,
        Action::PreviousTrack => Key::LeftArrow,
        Action::NextTrack => Key::RightArrow,
        Action::PlayPause => Key::KeyP,
    }
}

/// Encode the chord bound to `a`: the shared prefix plus its terminal key.
///
/// Encoding is total, so registering the fixed chords cannot fail.
pub fn encode_chord(a: Action) -> (r: String)
    ensures
        r@ == chord_signature(a),
{
    let mut b = new_ctrl_alt_cmd();
    b.add(terminal_key_of(a));
    proof {
        let cl = chord_listing(a);
        assert(key_code(terminal_key(a)) >= 3);
        assert(sorted_unique(cl));
        assert forall|x: Key| b.key_set().contains(x) implies cl.to_set().contains(x) by {
            if x == Key::MetaLeft {
                assert(cl[0] == x);
            } else if x == Key::Alt {
                assert(cl[1] == x);
            } else if x == Key::ControlLeft {
                assert(cl[2] == x);
            } else {
                assert(cl[3] == x);
            }
        }
        assert forall|x: Key| cl.to_set().contains(x) implies b.key_set().contains(x) by {
            let w = choose|w: int| 0 <= w < cl.len() && cl[w] == x;
        }
        assert(b.key_set() =~= cl.to_set());
        lemma_signature_of_listing(b, cl);
    }
    b.encode()
}

/// The fixed chord table.  Immutable after construction; shared read-only.
pub struct Registry {
    up: String,
    down: String,
    left: String,
    right: String,
    p: String,
}

impl Registry {
    /// Every stored signature is exactly the one bound to its action.
    pub closed spec fn wf(self) -> bool {
        &&& self.up@ == chord_signature(Action::VolumeUp)
        &&& self.down@ == chord_signature(Action::VolumeDown)
        &&& self.left@ == chord_signature(Action::PreviousTrack)
        &&& self.right@ == chord_signature(Action::NextTrack)
        &&& self.p@ == chord_signature(Action::PlayPause)
    }

    /// What this table's own contents bind `label` to, read off the stored
    /// signatures themselves.
    pub closed spec fn bound_action(self, label: Seq<char>) -> Option<Action> {
        if label == self.up@ {
            Some(Action::VolumeUp)
        } else if label == self.down@ {
            Some(Action::VolumeDown)
        } else if label == self.left@ {
            Some(Action::PreviousTrack)
        } else if label == self.right@ {
            Some(Action::NextTrack)
        } else if label == self.p@ {
            Some(Action::PlayPause)
        } else {
            None
        }
    }

    /// Build the table of all five chord bindings.  The encoder is total,
    /// so construction always succeeds.
    pub fn new() -> (r: Registry)
        ensures
            r.wf(),
    {
        Registry {
            up: encode_chord(Action::VolumeUp),
            down: encode_chord(Action::VolumeDown),
            left: encode_chord(Action::PreviousTrack),
            right: encode_chord(Action::NextTrack),
            p: encode_chord(Action::PlayPause),
        }
    }

    /// Look a reported combination label up.  `None` means no binding: the
    /// caller must silently ignore the event.
    pub fn lookup(&self, label: &String) -> (r: Option<Action>)
        requires
            self.wf(),
        ensures
            r == spec_lookup(label@),
    {
        if label.eq(&self.up) {
            Some(Action::VolumeUp)
        } else if label.eq(&self.down) {
            Some(Action::VolumeDown)
        } else if label.eq(&self.left) {
            Some(Action::PreviousTrack)
        } else if label.eq(&self.right) {
            Some(Action::NextTrack)
        } else if label.eq(&self.p) {
            Some(Action::PlayPause)
        } else {
            None
        }
    }
}

/// A well-formed table binds every label exactly as the fixed chord map
/// does.
pub proof fn lemma_bound_action_is_lookup(r: Registry, label: Seq<char>)
    requires
        r.wf(),
    ensures
        r.bound_action(label) == spec_lookup(label),
{
}

/// Distinctness: the five registered chord signatures are pairwise distinct.
pub proof fn lemma_chord_signatures_distinct(a: Action, b: Action)
    requires
        a != b,
    ensures
        chord_signature(a) != chord_signature(b),
{
    if chord_signature(a) == chord_signature(b) {
        lemma_sig_chars_injective(chord_listing(a), chord_listing(b));
        assert(chord_listing(a)[3] == chord_listing(b)[3]);
        assert(false);
    }
}

/// Exact binding: a lookup yields an action exactly when the label is that
/// action's own chord signature — never on any other label.
pub proof fn lemma_lookup_exact(label: Seq<char>, a: Action)
    ensures
        spec_lookup(label) == Some(a) <==> label == chord_signature(a),
{
    if label == chord_signature(a) {
        if a != Action::VolumeUp {
            lemma_chord_signatures_distinct(a, Action::VolumeUp);
        }
        if a != Action::VolumeDown {
            lemma_chord_signatures_distinct(a, Action::VolumeDown);
        }
        if a != Action::PreviousTrack {
            lemma_chord_signatures_distinct(a, Action::PreviousTrack);
        }
        if a != Action::NextTrack {
            lemma_chord_signatures_distinct(a, Action::NextTrack);
        }
        if a != Action::PlayPause {
            lemma_chord_signatures_distinct(a, Action::PlayPause);
        }
    }
}

} // verus!
