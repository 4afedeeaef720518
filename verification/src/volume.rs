//! A model of the volume arithmetic the scripting bridge performs.
//!
//! The volume scripts read the player's volume and move it by ten, clamped
//! to the `[0, 100]` range.  The bridge runs that arithmetic outside this
//! process; the functions here state it over plain integers so its clamping
//! behaviour can be proved: repeated up-steps settle at the top of the range
//! and stay there, repeated down-steps settle at the bottom.

use vstd::prelude::*;

verus! {

/// One volume-up step: up by ten, clamped at 100, as the script computes it.
pub open spec fn spec_volume_up_step(v: int) -> int {
    if v + 10 < 100 {
        v + 10
    } else {
        100
    }
}

/// One volume-down step: down by ten, clamped at 0, as the script computes it.
pub open spec fn spec_volume_down_step(v: int) -> int {
    if v - 10 > 0 {
        v - 10
    } else {
        0
    }
}

/// The volume after `n` up-steps from `v`.
pub open spec fn repeat_volume_up(v: int, n: nat) -> int
    decreases n,
{
    if n == 0 {
        v
    } else {
        spec_volume_up_step(repeat_volume_up(v, (n - 1) as nat))
    }
}

/// The volume after `n` down-steps from `v`.
pub open spec fn repeat_volume_down(v: int, n: nat) -> int
    decreases n,
{
    if n == 0 {
        v
    } else {
        spec_volume_down_step(repeat_volume_down(v, (n - 1) as nat))
    }
}

/// Executable twin of [`spec_volume_up_step`].
pub fn volume_up_step(v: u8) -> (r: u8)
    requires
        v <= 100,
    ensures
        r as int == spec_volume_up_step(v as int),
        r <= 100,
{
    if v + 10 < 100 {
        v + 10
    } else {
        100
    }
}

/// Executable twin of [`spec_volume_down_step`].
pub fn volume_down_step(v: u8) -> (r: u8)
    requires
        v <= 100,
    ensures
        r as int == spec_volume_down_step(v as int),
        r <= 100,
{
    if v > 10 {
        v - 10
    } else {
        0
    }
}

/// One step never leaves the volume range and never moves away from the
/// bound it is heading for.
pub proof fn lemma_volume_step_in_range(v: int)
    requires
        0 <= v <= 100,
    ensures
        0 <= spec_volume_up_step(v) <= 100,
        0 <= spec_volume_down_step(v) <= 100,
        v <= spec_volume_up_step(v),
        spec_volume_down_step(v) <= v,
{
}

/// Repeated volume-up from anywhere within ten of the top settles at 100
/// with the first step and stays there for every later step.
pub proof fn lemma_volume_up_settles(v: int, n: nat)
    requires
        90 <= v <= 100,
        n >= 1,
    ensures
        repeat_volume_up(v, n) == 100,
    decreases n,
{
    if n == 1 {
        assert(repeat_volume_up(v, 0) == v);
    } else {
        lemma_volume_up_settles(v, (n - 1) as nat);
    }
}

/// Repeated volume-down from anywhere within ten of the bottom settles at 0
/// with the first step and stays there for every later step.
pub proof fn lemma_volume_down_settles(v: int, n: nat)
    requires
        0 <= v <= 10,
        n >= 1,
    ensures
        repeat_volume_down(v, n) == 0,
    decreases n,
{
    if n == 1 {
        assert(repeat_volume_down(v, 0) == v);
    } else {
        lemma_volume_down_settles(v, (n - 1) as nat);
    }
}

} // verus!
