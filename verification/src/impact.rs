//! Impact detection and tone-trigger scheduling.
//!
//! An arc strikes the baseline once per half revolution of sweep. Rather
//! than storing the next impact as a time (which would be the non-integral
//! `half_turn / velocity`), the scheduler stores it in sweep space: the arc
//! with velocity `v` has swept `t * v` angle units after `t` time units, and
//! impacts fall at exact multiples of `half_turn` of sweep. Comparing
//! `t * v >= threshold` is the exact cross-multiplied form of comparing the
//! elapsed time against the next impact time, and advancing the threshold by
//! `half_turn` advances the impact time by exactly `half_turn / v`, the
//! half-period of the reflected sweep.
//!
//! On a crossing, only a single increment is applied per check regardless of
//! how much time has elapsed; impacts skipped under frame lag are not caught
//! up. That matches the observed behavior of the animation loop and is kept
//! deliberately.

use vstd::prelude::*;

verus! {

/// Per-arc next-impact thresholds, in sweep space (angle units).
///
/// Thresholds start at zero, so every arc fires on the first check, and are
/// only ever increased, never reset backward.
pub struct ImpactScheduler {
    next_sweep: Vec<u128>,
}

impl ImpactScheduler {
    /// The stored thresholds, one per arc.
    pub closed spec fn view(&self) -> Seq<u128> {
        self.next_sweep@
    }

    pub fn new(arcs: usize) -> (s: Self)
        ensures
            s@.len() == arcs,
            forall|i: int| 0 <= i < arcs ==> s@[i] == 0,
    {
        let mut next_sweep: Vec<u128> = Vec::new();
        let mut k: usize = 0;
        while k < arcs
            invariant
                k <= arcs,
                next_sweep@.len() == k,
                forall|i: int| 0 <= i < k ==> next_sweep@[i] == 0,
            decreases arcs - k,
        {
            next_sweep.push(0);
            k = k + 1;
        }
        ImpactScheduler { next_sweep }
    }

    pub fn len(&self) -> (n: usize)
        ensures
            n == self@.len(),
    {
        self.next_sweep.len()
    }

    /// Threshold of one arc, for hosts that render or log it.
    pub fn next_sweep_of(&self, arc: usize) -> (c: u128)
        requires
            arc < self@.len(),
        ensures
            c == self@[arc as int],
    {
        self.next_sweep[arc]
    }

    /// One per-frame check of one arc: `swept` is the angle `t * v` the arc
    /// has covered so far. Fires exactly when the sweep has reached the
    /// stored threshold, and then advances the threshold by a single
    /// `half_turn` — the sweep between consecutive baseline crossings.
    pub fn check(&mut self, arc: usize, swept: u128, half_turn: u64) -> (fired: bool)
        requires
            arc < old(self)@.len(),
            old(self)@[arc as int] + half_turn <= u128::MAX,
        ensures
            fired == (swept >= old(self)@[arc as int]),
            fired ==> final(self)@ == old(self)@.update(
                arc as int,
                (old(self)@[arc as int] + half_turn) as u128,
            ),
            !fired ==> final(self)@ == old(self)@,
            final(self)@.len() == old(self)@.len(),
            final(self)@[arc as int] >= old(self)@[arc as int],
    {
        let threshold = self.next_sweep[arc];
        if swept >= threshold {
            self.next_sweep.set(arc, threshold + half_turn as u128);
            true
        } else {
            false
        }
    }
}

/// The sweep threshold after `k` triggers of one arc: impacts fall at exact
/// multiples of the half turn.
pub open spec fn spec_impact_threshold(k: int, half_turn: int) -> int {
    k * half_turn
}

/// A schedule of successive thresholds that starts at zero and advances by
/// `half_turn` per trigger — what `ImpactScheduler::check` produces — stands
/// at exactly `k * half_turn` after `k` triggers.
pub proof fn lemma_threshold_after_k_triggers(ts: Seq<int>, half_turn: int, k: int)
    requires
        half_turn >= 1,
        ts.len() > 0,
        ts[0] == 0,
        forall|i: int| 0 <= i < ts.len() - 1 ==> #[trigger] ts[i + 1] == ts[i] + half_turn,
        0 <= k < ts.len(),
    ensures
        ts[k] == spec_impact_threshold(k, half_turn),
    decreases k,
{
    if k > 0 {
        lemma_threshold_after_k_triggers(ts, half_turn, k - 1);
        assert(ts[(k - 1) + 1] == ts[k - 1] + half_turn);
        assert((k - 1) * half_turn + half_turn == k * half_turn) by (nonlinear_arith);
    }
}

/// Across successive triggers the next-impact threshold strictly increases,
/// with the fixed increment `half_turn` of sweep — in time units, exactly
/// `half_turn / velocity` per trigger while the velocity is constant.
pub proof fn lemma_next_impact_strictly_increasing(ts: Seq<int>, half_turn: int, i: int, j: int)
    requires
        half_turn >= 1,
        ts.len() > 0,
        ts[0] == 0,
        forall|k: int| 0 <= k < ts.len() - 1 ==> #[trigger] ts[k + 1] == ts[k] + half_turn,
        0 <= i < j < ts.len(),
    ensures
        ts[i] < ts[j],
        ts[j] - ts[i] == (j - i) * half_turn,
{
    lemma_threshold_after_k_triggers(ts, half_turn, i);
    lemma_threshold_after_k_triggers(ts, half_turn, j);
    assert(j * half_turn - i * half_turn == (j - i) * half_turn) by (nonlinear_arith);
    assert((j - i) * half_turn >= 1) by (nonlinear_arith)
        requires
            j - i >= 1,
            half_turn >= 1,
    ;
}

} // verus!
