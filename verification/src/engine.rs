//! The per-frame timing engine.
//!
//! One engine owns the live mutable state of the simulation: the per-arc
//! next-impact thresholds. Everything else — velocities, colors, tones — is
//! derived once from the configuration before the frame loop starts and
//! never changes. Each frame the host samples its clock once and hands the
//! elapsed time in; the engine answers, for every arc, the reflected angular
//! position to render and a go/no-go signal for whether that arc's tone
//! should be submitted this frame. Performing the drawing and the audio
//! submission is the host's part.
//!
//! Only a single impact increment is applied per arc per frame, however much
//! time has passed since the previous frame: impacts skipped under frame lag
//! are dropped, not caught up, matching the animation loop this engine
//! drives.

use vstd::prelude::*;
use crate::velocity::spec_arc_velocity;
use crate::velocity::arc_velocity;
use crate::phase::spec_phase;
use crate::phase::phase;
use crate::impact::ImpactScheduler;
use vstd::arithmetic::mul::lemma_mul_inequality;
use vstd::arithmetic::mul::lemma_mul_upper_bound;

verus! {

/// The fixed startup configuration: arc count, the angle unit (as the
/// number of units in a half turn), the base angular velocity in angle
/// units per time unit, and the per-arc detune step.
#[derive(Clone, Copy, PartialEq, Eq, Structural, Debug)]
pub struct EngineConfig {
    pub arcs: usize,
    pub half_turn: u64,
    pub base_velocity: u64,
    pub detune: u64,
}

impl EngineConfig {
    /// A usable configuration: at least one arc, a positive angle unit that
    /// leaves room for a full turn, a positive detune step, and a base
    /// velocity large enough that even the slowest arc keeps a positive
    /// velocity.
    pub open spec fn wf(&self) -> bool {
        &&& self.arcs >= 1
        &&& 1 <= self.half_turn <= u64::MAX / 2
        &&& self.detune >= 1
        &&& (self.arcs - 1) * self.detune < self.base_velocity
    }

    /// Angular velocity of arc `i` under this configuration.
    pub open spec fn spec_velocity(&self, i: int) -> int {
        spec_arc_velocity(self.base_velocity as int, self.detune as int, i)
    }
}

/// What one frame reports for one arc: the reflected angular position, and
/// whether the arc's tone is to be submitted this frame.
#[derive(Clone, Copy, PartialEq, Eq, Structural, Debug)]
pub struct ArcFrame {
    pub phase: u64,
    pub fire: bool,
}

/// The greatest sweep any arc can reach: elapsed time and velocity are both
/// machine words.
pub open spec fn spec_max_sweep() -> int {
    (u64::MAX as int) * (u64::MAX as int)
}

/// The timing engine: the configuration and the per-arc impact thresholds,
/// the only live mutable state of the simulation.
pub struct Engine {
    config: EngineConfig,
    scheduler: ImpactScheduler,
}

impl Engine {
    /// The configuration the engine was built with.
    pub closed spec fn spec_config(&self) -> EngineConfig {
        self.config
    }

    /// The per-arc next-impact thresholds, in sweep space.
    pub closed spec fn thresholds(&self) -> Seq<u128> {
        self.scheduler@
    }

    /// The configuration the engine was built with, which never changes.
    pub fn config(&self) -> (c: EngineConfig)
        ensures
            c == self.spec_config(),
    {
        self.config
    }

    /// Engine invariant: a usable configuration, one threshold per arc, and
    /// every threshold low enough that one more increment cannot leave the
    /// integer range.
    pub closed spec fn wf(&self) -> bool {
        &&& self.config.wf()
        &&& self.scheduler@.len() == self.config.arcs
        &&& forall|i: int|
            0 <= i < self.config.arcs ==> self.scheduler@[i] <= spec_max_sweep()
                + self.config.half_turn
    }

    /// A fresh engine: thresholds all zero, so every arc fires on the first
    /// frame, at the baseline where its sweep starts.
    pub fn new(config: EngineConfig) -> (e: Engine)
        requires
            config.wf(),
        ensures
            e.wf(),
            e.spec_config() == config,
            e.thresholds().len() == config.arcs,
            forall|i: int| 0 <= i < config.arcs ==> e.thresholds()[i] == 0,
    {
        Engine { config, scheduler: ImpactScheduler::new(config.arcs) }
    }

    /// Angular velocity of arc `i`: the base velocity detuned by `i` steps,
    /// strictly decreasing in the index and always positive.
    pub fn velocity(&self, i: usize) -> (v: u64)
        requires
            self.wf(),
            i < self.spec_config().arcs,
        ensures
            v == self.spec_config().spec_velocity(i as int),
            v >= 1,
    {
        proof {
            lemma_mul_inequality(i as int, self.config.arcs - 1, self.config.detune as int);
        }
        arc_velocity(self.config.base_velocity, self.config.detune, i as u64)
    }

    /// Next-impact threshold of arc `i`, in sweep space, for hosts that
    /// inspect or log the schedule.
    pub fn next_sweep_of(&self, i: usize) -> (c: u128)
        requires
            self.wf(),
            i < self.spec_config().arcs,
        ensures
            c == self.thresholds()[i as int],
    {
        self.scheduler.next_sweep_of(i)
    }

    /// One frame: `t` is the elapsed time, sampled once by the host and
    /// shared by every arc, so no arc observes a different now. For each arc
    /// the result carries the reflected phase to render and whether its tone
    /// fires; a firing arc's threshold advances by exactly one half turn of
    /// sweep, a silent arc's is untouched.
    pub fn frame(&mut self, t: u64) -> (out: Vec<ArcFrame>)
        requires
            old(self).wf(),
        ensures
            final(self).wf(),
            final(self).spec_config() == old(self).spec_config(),
            out@.len() == old(self).spec_config().arcs,
            forall|i: int|
                0 <= i < out@.len() ==> (#[trigger] out@[i]).phase == spec_phase(
                    t as int,
                    old(self).spec_config().spec_velocity(i),
                    old(self).spec_config().half_turn as int,
                ),
            forall|i: int|
                0 <= i < out@.len() ==> (#[trigger] out@[i]).fire == (t
                    * old(self).spec_config().spec_velocity(i) >= old(self).thresholds()[i]),
            final(self).thresholds().len() == old(self).thresholds().len(),
            forall|i: int|
                0 <= i < out@.len() ==> #[trigger] final(self).thresholds()[i] == if out@[i].fire {
                    (old(self).thresholds()[i] + old(self).spec_config().half_turn) as u128
                } else {
                    old(self).thresholds()[i]
                },
            forall|i: int|
                0 <= i < out@.len() ==> #[trigger] final(self).thresholds()[i] >= old(
                    self,
                ).thresholds()[i],
    {
        let arcs = self.config.arcs;
        let half_turn = self.config.half_turn;
        let mut out: Vec<ArcFrame> = Vec::new();
        let mut i: usize = 0;
        while i < arcs
            invariant
                i <= arcs,
                out@.len() == i,
                self.config == old(self).config,
                self.wf(),
                arcs == self.config.arcs,
                half_turn == self.config.half_turn,
                self.thresholds().len() == arcs,
                forall|j: int|
                    0 <= j < i ==> (#[trigger] out@[j]).phase == spec_phase(
                        t as int,
                        old(self).config.spec_velocity(j),
                        old(self).spec_config().half_turn as int,
                    ),
                forall|j: int|
                    0 <= j < i ==> (#[trigger] out@[j]).fire == (t * old(
                        self,
                    ).config.spec_velocity(j) >= old(self).thresholds()[j]),
                forall|j: int|
                    0 <= j < i ==> #[trigger] self.thresholds()[j] == if out@[j].fire {
                        (old(self).thresholds()[j] + old(self).config.half_turn) as u128
                    } else {
                        old(self).thresholds()[j]
                    },
                forall|j: int| i <= j < arcs ==> #[trigger] self.thresholds()[j] == old(
                    self,
                ).thresholds()[j],
            decreases arcs - i,
        {
            let v = self.velocity(i);
            let ph = phase(t, v, half_turn);
            proof {
                lemma_mul_upper_bound(t as int, u64::MAX as int, v as int, u64::MAX as int);
            }
            let swept: u128 = (t as u128) * (v as u128);
            let fired = self.scheduler.check(i, swept, half_turn);
            out.push(ArcFrame { phase: ph, fire: fired });
            i = i + 1;
        }
        out
    }
}

} // verus!
