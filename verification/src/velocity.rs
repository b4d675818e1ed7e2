//! Per-arc angular velocity assignment.
//!
//! The base velocity is derived from a loop count over a reference time
//! window; each arc is then detuned by a fixed step per index, so velocities
//! are strictly decreasing in the arc index. That monotonic detuning is what
//! produces the drifting polyrhythm.

use vstd::prelude::*;

verus! {

/// Base angular velocity, in angle units per time unit: the angle of
/// `loops` full revolutions (`2 * half_turn` each) spread over a reference
/// window of `window` time units, truncated to a whole number of units.
pub open spec fn spec_base_velocity(half_turn: int, loops: int, window: int) -> int
    recommends
        window >= 1,
{
    2 * (half_turn * loops) / window
}

/// Angular velocity of arc `i`: the base velocity detuned by `i` steps.
pub open spec fn spec_arc_velocity(base: int, detune: int, i: int) -> int {
    base - i * detune
}

pub fn base_velocity(half_turn: u64, loops: u64, window: u64) -> (v: u64)
    requires
        window >= 1,
        half_turn * loops <= u64::MAX / 2,
    ensures
        v == spec_base_velocity(half_turn as int, loops as int, window as int),
{
    let revolutions: u64 = half_turn * loops;
    let swept: u64 = revolutions + revolutions;
    swept / window
}

pub fn arc_velocity(base: u64, detune: u64, i: u64) -> (v: u64)
    requires
        i * detune < base,
    ensures
        v == spec_arc_velocity(base as int, detune as int, i as int),
        v >= 1,
{
    base - i * detune
}

/// Arcs with lower index sweep strictly faster: for `i < j`, the detuned
/// velocity of arc `i` exceeds that of arc `j`, and both are positive as
/// long as even the most detuned of the two stays below the base.
pub proof fn lemma_velocity_strictly_decreasing(base: int, detune: int, i: int, j: int)
    requires
        detune >= 1,
        0 <= i < j,
        j * detune < base,
    ensures
        spec_arc_velocity(base, detune, i) > spec_arc_velocity(base, detune, j) > 0,
{
    assert(i * detune < j * detune) by (nonlinear_arith)
        requires
            detune >= 1,
            0 <= i < j,
    ;
}

} // verus!
