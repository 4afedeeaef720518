//! The per-event dispatch decision and failure accounting.
//!
//! The engine consumes one event at a time, in delivery order.  A labelled
//! press is looked up in the registry; everything else is silently ignored.
//! An executor failure is recorded for logging and swallowed: nothing from
//! the per-event path may unwind past the engine, and a failure must not
//! change how any later event is dispatched.

use vstd::prelude::*;

use crate::registry::Action;
use crate::registry::Registry;
use crate::registry::chord_signature;
use crate::registry::lemma_bound_action_is_lookup;
use crate::registry::lemma_lookup_exact;
use crate::registry::spec_lookup;

verus! {

/// One raw notification from the key-event source.
///
/// A press carries the source's optional canonical label for the full
/// combination held at press time; the source may fail to attach one, for
/// combinations it cannot canonicalize.
pub enum KeyEvent {
    Press { label: Option<String> },
    Release,
}

/// The engine's decision for one event: the action to dispatch, if any.
pub open spec fn spec_dispatch(ev: KeyEvent) -> Option<Action> {
    match ev {
        KeyEvent::Press { label: Some(l) } => spec_lookup(l@),
        _ => None,
    }
}

/// The log line recorded when the executor fails an action, naming the
/// action that failed.
pub open spec fn spec_failure_message(a: Action) -> Seq<char> {
    match a {
        Action::VolumeUp => "Failed to let volume up"@,
        Action::VolumeDown => "Failed to let volume down"@,
        Action::PreviousTrack => "Failed to switch to previous track"@,
        Action::NextTrack => "Failed to switch to next track"@,
        Action::PlayPause => "Failed to playpause"@,
    }
}

/// Executable twin of [`spec_failure_message`].
pub fn failure_message(a: Action) -> (s: &'static str)
    ensures
        s@ == spec_failure_message(a),
{
    match a {
        Action::VolumeUp => "Failed to let volume up",
        Action::VolumeDown => "Failed to let volume down",
        Action::PreviousTrack => "Failed to switch to previous track",
        Action::NextTrack => "Failed to switch to next track",
        Action::PlayPause => "Failed to playpause",
    }
}

/// The chord dispatch engine: the fixed table plus a count of executor
/// failures seen so far.  The table never changes after construction.
pub struct Engine {
    registry: Registry,
    failures: u64,
}

impl Engine {
    /// The engine's table holds the five chord bindings.
    pub closed spec fn wf(self) -> bool {
        self.registry.wf()
    }

    /// The chord table the engine dispatches against.
    pub closed spec fn table(self) -> Registry {
        self.registry
    }

    /// How many executor failures have been recorded.
    pub closed spec fn failure_count(self) -> u64 {
        self.failures
    }

    /// The engine's decision for `ev`, read off its own table's contents.
    pub open spec fn decides(self, ev: KeyEvent) -> Option<Action> {
        match ev {
            KeyEvent::Press { label: Some(l) } => self.table().bound_action(l@),
            _ => None,
        }
    }

    /// Build the engine, registering all five chord bindings.
    pub fn new() -> (r: Engine)
        ensures
            r.wf(),
            r.failure_count() == 0,
    {
        Engine { registry: Registry::new(), failures: 0 }
    }

    /// Decide one event.  Returns the action bound to a labelled press whose
    /// label is a registered signature; every other event is a no-op and
    /// produces no output.
    pub fn on_event(&self, ev: &KeyEvent) -> (r: Option<Action>)
        requires
            self.wf(),
        ensures
            r == spec_dispatch(*ev),
            r == self.decides(*ev),
    {
        proof {
            match ev {
                KeyEvent::Press { label: Some(l) } => lemma_bound_action_is_lookup(
                    self.registry,
                    l@,
                ),
                _ => {},
            }
        }
        match ev {
            KeyEvent::Press { label: Some(l) } => self.registry.lookup(l),
            _ => None,
        }
    }

    /// How many executor failures the engine has recorded so far.
    pub fn failures_recorded(&self) -> (n: u64)
        ensures
            n == self.failure_count(),
    {
        self.failures
    }

    /// Record the executor's report for one dispatched action.  A failure
    /// yields the log line to emit and bumps the failure count; it leaves
    /// the table untouched, so every later event dispatches exactly as it
    /// would have.
    pub fn note_result(&mut self, a: Action, ok: bool) -> (log: Option<String>)
        requires
            old(self).wf(),
        ensures
            final(self).wf(),
            final(self).table() == old(self).table(),
            ok ==> log is None && final(self).failure_count() == old(self).failure_count(),
            !ok ==> (log matches Some(m) && m@ == spec_failure_message(a)),
            !ok ==> final(self).failure_count() == (
                if old(self).failure_count() < u64::MAX {
                    old(self).failure_count() + 1
                } else {
                    old(self).failure_count() as int
                }
            ),
    {
        if ok {
            None
        } else {
            if self.failures < u64::MAX {
                self.failures = self.failures + 1;
            }
            Some(failure_message(a).to_owned())
        }
    }
}

/// Fault containment: recording an executor outcome leaves the chord table
/// untouched ([`Engine::note_result`]), and engines with equal tables decide
/// every event alike — so a failed action can never change how any later
/// event is dispatched, and the listener simply keeps going.
pub proof fn lemma_fault_containment(before: Engine, after: Engine, ev: KeyEvent)
    requires
        after.table() == before.table(),
    ensures
        after.decides(ev) == before.decides(ev),
{
}

/// Exact-match dispatch: an event dispatches action `a` exactly when it is
/// a labelled press whose label is `a`'s own chord signature; no other
/// event, and no other label, dispatches `a`.
pub proof fn lemma_exact_match_dispatch(ev: KeyEvent, a: Action)
    ensures
        spec_dispatch(ev) == Some(a) <==> match ev {
            KeyEvent::Press { label: Some(l) } => l@ == chord_signature(a),
            _ => false,
        },
{
    match ev {
        KeyEvent::Press { label } => {
            match label {
                Some(l) => lemma_lookup_exact(l@, a),
                None => {},
            }
        },
        KeyEvent::Release => {},
    }
}

/// No false positives: a labelled press whose label equals none of the five
/// chord signatures dispatches nothing.
pub proof fn lemma_no_false_positive(l: String)
    requires
        forall|a: Action| l@ != chord_signature(a),
    ensures
        spec_dispatch(KeyEvent::Press { label: Some(l) }) == None::<Action>,
{
    assert(l@ != chord_signature(Action::VolumeUp));
    assert(l@ != chord_signature(Action::VolumeDown));
    assert(l@ != chord_signature(Action::PreviousTrack));
    assert(l@ != chord_signature(Action::NextTrack));
    assert(l@ != chord_signature(Action::PlayPause));
}

/// Releases and unlabelled presses are no-ops: they dispatch nothing, and
/// the engine emits no log line for them.
pub proof fn lemma_irrelevant_events_ignored(ev: KeyEvent)
    requires
        match ev {
            KeyEvent::Press { label } => label is None,
            KeyEvent::Release => true,
        },
    ensures
        spec_dispatch(ev) == None::<Action>,
{
}

} // verus!
