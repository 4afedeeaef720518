//! Chord detection and dispatch for media-control hotkeys.
//!
//! The library turns a stream of raw key-press/release notifications into
//! media-control commands.  Its pieces:
//!
//! * [`keys`] — the finite domain of physical keys a chord can contain;
//! * [`held`] — the set of currently-held keys and the canonical signature
//!   encoder over it;
//! * [`registry`] — the fixed table mapping the five chord signatures to
//!   their actions;
//! * [`engine`] — the per-event dispatch decision and failure accounting;
//! * [`scripts`] — the fixed script payload each action hands to the
//!   external scripting bridge;
//! * [`volume`] — a model of the volume arithmetic the bridge performs,
//!   with its clamping guarantees.
//!
//! Everything side-effecting (the OS key hook, the scripting interpreter,
//! logging) lives outside this crate; the library computes decisions and
//! payloads from plain values.

use vstd::prelude::*;

pub mod engine;
pub mod held;
pub mod keys;
pub mod registry;
pub mod scripts;
pub mod volume;

verus! {

/// Marker selecting `debug` as the default log level for debug builds.
/// The launcher maps it onto its command-line verbosity handling.
#[derive(Copy, Clone, Debug, Default)]
pub struct DebugLevel;

} // verus!
