//! Phase computation with baseline reflection.
//!
//! The raw phase of an arc is a half turn (so the sweep starts at the
//! baseline) plus the angle swept so far, wrapped into a full revolution.
//! The wrapped angle is then reflected: a value in the upper half stays as
//! it is, a value in the lower half is mirrored to `2 * half_turn - value`.
//! The result always lies in `[half_turn, 2 * half_turn]`, folding a full
//! rotation into a back-and-forth sweep across the lower semicircle, so the
//! arc behaves like a pendulum bouncing off the baseline.

use vstd::prelude::*;
use vstd::arithmetic::div_mod::lemma_small_mod;
use vstd::arithmetic::div_mod::lemma_mod_self_0;

verus! {

/// Wrap a raw angle into `[0, 2 * half_turn)`.
pub open spec fn spec_wrap(raw: int, half_turn: int) -> int
    recommends
        half_turn >= 1,
{
    raw % (2 * half_turn)
}

/// Reflect a wrapped angle into `[half_turn, 2 * half_turn]`.
pub open spec fn spec_reflect(wrapped: int, half_turn: int) -> int
    recommends
        half_turn >= 1,
{
    if wrapped >= half_turn {
        wrapped
    } else {
        2 * half_turn - wrapped
    }
}

/// Reflected phase of an arc with velocity `v` after `t` time units: the
/// fixed half-turn offset plus the swept angle `t * v`, wrapped and
/// reflected.
pub open spec fn spec_phase(t: int, v: int, half_turn: int) -> int
    recommends
        half_turn >= 1,
{
    spec_reflect(spec_wrap(half_turn + t * v, half_turn), half_turn)
}

/// Current reflected angular position of an arc, used both to place its
/// marker and to reason about impacts. `t` is the elapsed time in time
/// units, `v` the arc's velocity in angle units per time unit.
pub fn phase(t: u64, v: u64, half_turn: u64) -> (p: u64)
    requires
        1 <= half_turn <= u64::MAX / 2,
    ensures
        p == spec_phase(t as int, v as int, half_turn as int),
        half_turn <= p <= 2 * half_turn,
{
    proof {
        vstd::arithmetic::mul::lemma_mul_upper_bound(
            t as int,
            u64::MAX as int,
            v as int,
            u64::MAX as int,
        );
    }
    let full: u128 = 2 * (half_turn as u128);
    let swept: u128 = (t as u128) * (v as u128);
    let wrapped: u128 = ((half_turn as u128) + swept) % full;
    if wrapped >= half_turn as u128 {
        wrapped as u64
    } else {
        (full - wrapped) as u64
    }
}

/// The reflected phase always lies in the upper half of the revolution,
/// whatever the time and velocity.
pub proof fn lemma_phase_in_sweep_range(t: int, v: int, half_turn: int)
    requires
        half_turn >= 1,
        t >= 0,
        v >= 0,
    ensures
        half_turn <= spec_phase(t, v, half_turn) <= 2 * half_turn,
{
}

/// Mirror consistency of the reflection: a raw angle and its mirror image
/// around the full revolution reflect to the same phase, so the folded sweep
/// does not depend on the direction of travel.
pub proof fn lemma_reflect_mirror(raw: int, half_turn: int)
    requires
        half_turn >= 1,
        0 <= raw < 2 * half_turn,
    ensures
        spec_reflect(raw, half_turn)
            == spec_reflect(spec_wrap(2 * half_turn - raw, half_turn), half_turn),
{
    if raw == 0 {
        lemma_mod_self_0(2 * half_turn);
    } else {
        lemma_small_mod((2 * half_turn - raw) as nat, (2 * half_turn) as nat);
    }
}

/// Reflection is idempotent under re-wrapping: wrapping and reflecting a
/// value that is already a reflected phase in `[half_turn, 2 * half_turn]`
/// returns the value itself.
pub proof fn lemma_reflect_fixed_on_reflected(x: int, half_turn: int)
    requires
        half_turn >= 1,
        half_turn <= x <= 2 * half_turn,
    ensures
        spec_reflect(spec_wrap(x, half_turn), half_turn) == x,
{
    if x == 2 * half_turn {
        lemma_mod_self_0(2 * half_turn);
    } else {
        lemma_small_mod(x as nat, (2 * half_turn) as nat);
    }
}

/// The phase is a pure function of its inputs: two results computed from
/// identical inputs are identical.
pub proof fn lemma_phase_deterministic(t: int, v: int, half_turn: int, r1: int, r2: int)
    requires
        r1 == spec_phase(t, v, half_turn),
        r2 == spec_phase(t, v, half_turn),
    ensures
        r1 == r2,
{
}

} // verus!
