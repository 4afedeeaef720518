use media_chords::engine::{failure_message, Engine, KeyEvent};
use media_chords::held::HeldKeySet;
use media_chords::keys::Key;
use media_chords::registry::{encode_chord, Action, Registry};

fn encode_of(keys: &[Key]) -> String {
    let mut h = HeldKeySet::new();
    for k in keys {
        h.add(*k);
    }
    h.encode()
}

#[test]
fn encode_is_order_independent() {
    let a = encode_of(&[Key::MetaLeft, Key::Alt, Key::ControlLeft, Key::UpArrow]);
    let b = encode_of(&[Key::UpArrow, Key::ControlLeft, Key::Alt, Key::MetaLeft]);
    let c = encode_of(&[Key::Alt, Key::UpArrow, Key::MetaLeft, Key::ControlLeft]);
    assert_eq!(a, b);
    assert_eq!(a, c);
}

#[test]
fn encode_ignores_repeated_additions() {
    let a = encode_of(&[Key::MetaLeft, Key::Alt, Key::MetaLeft, Key::Alt]);
    let b = encode_of(&[Key::Alt, Key::MetaLeft]);
    assert_eq!(a, b);
}

#[test]
fn encode_concrete_values() {
    assert_eq!(encode_of(&[]), "");
    assert_eq!(encode_of(&[Key::KeyP]), "p");
    assert_eq!(
        encode_of(&[Key::MetaLeft, Key::Alt, Key::ControlLeft, Key::UpArrow]),
        "macu"
    );
}

#[test]
fn release_tracking_updates_the_signature() {
    let mut h = HeldKeySet::new();
    h.add(Key::MetaLeft);
    h.add(Key::Alt);
    assert_eq!(h.encode(), "ma");
    h.remove(Key::MetaLeft);
    assert_eq!(h.encode(), "a");
    h.remove(Key::UpArrow);
    assert_eq!(h.encode(), "a");
    h.remove(Key::Alt);
    assert_eq!(h.encode(), "");
}

#[test]
fn five_signatures_are_pairwise_distinct() {
    let sigs = [
        encode_chord(Action::VolumeUp),
        encode_chord(Action::VolumeDown),
        encode_chord(Action::PreviousTrack),
        encode_chord(Action::NextTrack),
        encode_chord(Action::PlayPause),
    ];
    for i in 0..sigs.len() {
        for j in 0..sigs.len() {
            if i != j {
                assert_ne!(sigs[i], sigs[j]);
            }
        }
    }
}

#[test]
fn each_chord_dispatches_exactly_its_action() {
    let engine = Engine::new();
    let actions = [
        Action::VolumeUp,
        Action::VolumeDown,
        Action::PreviousTrack,
        Action::NextTrack,
        Action::PlayPause,
    ];
    for a in actions {
        let ev = KeyEvent::Press {
            label: Some(encode_chord(a)),
        };
        assert_eq!(engine.on_event(&ev), Some(a));
    }
}

#[test]
fn registry_lookup_matches_only_registered_signatures() {
    let reg = Registry::new();
    assert_eq!(
        reg.lookup(&encode_chord(Action::PlayPause)),
        Some(Action::PlayPause)
    );
    assert_eq!(reg.lookup(&String::from("")), None);
    assert_eq!(reg.lookup(&String::from("zzz")), None);
}

#[test]
fn subset_or_superset_of_a_chord_does_not_match() {
    let engine = Engine::new();
    // Only the modifier prefix held: a strict subset of every chord.
    let subset = KeyEvent::Press {
        label: Some(encode_of(&[Key::MetaLeft, Key::Alt, Key::ControlLeft])),
    };
    assert_eq!(engine.on_event(&subset), None);
    // The volume-up chord plus one extra key: a strict superset.
    let superset = KeyEvent::Press {
        label: Some(encode_of(&[
            Key::MetaLeft,
            Key::Alt,
            Key::ControlLeft,
            Key::UpArrow,
            Key::KeyP,
        ])),
    };
    assert_eq!(engine.on_event(&superset), None);
}

#[test]
fn unknown_labels_dispatch_nothing() {
    let engine = Engine::new();
    for label in ["", "x", "volume up", "macux"] {
        let ev = KeyEvent::Press {
            label: Some(String::from(label)),
        };
        assert_eq!(engine.on_event(&ev), None);
    }
}

#[test]
fn releases_and_unlabelled_presses_are_no_ops() {
    let engine = Engine::new();
    assert_eq!(engine.on_event(&KeyEvent::Release), None);
    assert_eq!(engine.on_event(&KeyEvent::Press { label: None }), None);
}

#[test]
fn failure_is_logged_and_dispatch_continues() {
    let mut engine = Engine::new();
    let up = KeyEvent::Press {
        label: Some(encode_chord(Action::VolumeUp)),
    };
    assert_eq!(engine.on_event(&up), Some(Action::VolumeUp));
    let log = engine.note_result(Action::VolumeUp, false);
    assert_eq!(log.as_deref(), Some("Failed to let volume up"));
    assert_eq!(engine.failures_recorded(), 1);
    // The failure changes nothing about how later events dispatch.
    let next = KeyEvent::Press {
        label: Some(encode_chord(Action::NextTrack)),
    };
    assert_eq!(engine.on_event(&next), Some(Action::NextTrack));
    assert_eq!(engine.note_result(Action::NextTrack, true), None);
    assert_eq!(engine.failures_recorded(), 1);
}

#[test]
fn volume_up_chord_runs_the_volume_up_script() {
    // Registry built; a press labelled with the pre-built volume-up
    // signature dispatches exactly the volume-up payload, and the engine is
    // immediately ready for the next event.
    let mut engine = Engine::new();
    let ev = KeyEvent::Press {
        label: Some(encode_of(&[
            Key::MetaLeft,
            Key::Alt,
            Key::ControlLeft,
            Key::UpArrow,
        ])),
    };
    let action = engine.on_event(&ev).expect("the chord is registered");
    assert_eq!(action, Action::VolumeUp);
    assert_eq!(
        media_chords::scripts::script_for(action),
        media_chords::scripts::volume_up()
    );
    assert_eq!(engine.note_result(action, true), None);
    assert_eq!(engine.on_event(&KeyEvent::Release), None);
}

#[test]
fn failure_messages_name_the_action() {
    assert_eq!(failure_message(Action::VolumeUp), "Failed to let volume up");
    assert_eq!(
        failure_message(Action::VolumeDown),
        "Failed to let volume down"
    );
    assert_eq!(
        failure_message(Action::PreviousTrack),
        "Failed to switch to previous track"
    );
    assert_eq!(
        failure_message(Action::NextTrack),
        "Failed to switch to next track"
    );
    assert_eq!(failure_message(Action::PlayPause), "Failed to playpause");
}
