//! The fixed-timestep accumulator.
//!
//! Wall-clock time arrives in irregular deltas; the accumulator stores it as
//! `overstep` and hands it out again in whole steps of a fixed duration
//! derived from the target rate. All durations are in nanoseconds.

use vstd::prelude::*;

verus! {

/// Nanoseconds in one second of wall-clock time.
pub const NANOS_PER_SECOND: u128 = 1_000_000_000;

/// Step duration used when the configured rate is degenerate (a zero rate, or
/// one so large that a step would round to no time at all): twenty steps per
/// second.
pub const FALLBACK_TIMESTEP_NANOS: u128 = 1_000_000_000 / 20;

/// Accumulates wall-clock time and releases it in whole fixed steps.
pub struct TickSystem {
    /// Desired steps per second; mutable at runtime.
    pub target_tps: usize,
    /// Explicit step-duration override; when `None` the duration is derived
    /// from `target_tps`.
    pub timestep: Option<u128>,
    /// Duration consumed by the most recent successful `expend`.
    pub delta: u128,
    /// Wall-clock time accumulated but not yet consumed by steps.
    pub overstep: u128,
    /// Total duration consumed by all successful `expend` calls.
    pub elapsed: u128,
}

impl TickSystem {
    /// The step duration the next `expend` will use: the override if set,
    /// else one second divided by the target rate, with a safe fallback when
    /// either computation is degenerate. Always positive.
    pub open spec fn spec_timestep(self) -> u128 {
        let raw: u128 = match self.timestep {
            Some(t) => t,
            None => if self.target_tps == 0 {
                0
            } else {
                NANOS_PER_SECOND / (self.target_tps as u128)
            },
        };
        if raw == 0 {
            FALLBACK_TIMESTEP_NANOS
        } else {
            raw
        }
    }

    /// All wall-clock time this accumulator has been fed: what was consumed
    /// plus what is still stored.
    pub open spec fn budget(self) -> int {
        self.elapsed + self.overstep
    }

    /// The budget fits the representation, so moving time from `overstep` to
    /// `elapsed` can never overflow.
    pub open spec fn wf(self) -> bool {
        self.budget() <= u128::MAX
    }

    /// State after feeding `delta` to the accumulator.
    pub open spec fn spec_accumulated(self, delta: u128) -> TickSystem {
        TickSystem { overstep: (self.overstep + delta) as u128, ..self }
    }

    /// Whether enough time is stored for one whole step.
    pub open spec fn can_expend(self) -> bool {
        self.overstep >= self.spec_timestep()
    }

    /// State after one `expend` call: one step's duration moves from
    /// `overstep` to `elapsed` when available, otherwise nothing changes.
    pub open spec fn spec_expended(self) -> TickSystem {
        if self.can_expend() {
            TickSystem {
                overstep: (self.overstep - self.spec_timestep()) as u128,
                delta: self.spec_timestep(),
                elapsed: (self.elapsed + self.spec_timestep()) as u128,
                ..self
            }
        } else {
            self
        }
    }

    pub fn new(target_tps: usize) -> (r: TickSystem)
        ensures
            r == (TickSystem {
                target_tps,
                timestep: None,
                delta: 0,
                overstep: 0,
                elapsed: 0,
            }),
            r.wf(),
    {
        TickSystem { target_tps, timestep: None, delta: 0, overstep: 0, elapsed: 0 }
    }

    /// Computes the current step duration; a degenerate configuration falls
    /// back to a safe default instead of failing.
    pub fn calculate_timestep(&self) -> (r: u128)
        ensures
            r == self.spec_timestep(),
            r > 0,
    {
        let raw: u128 = match self.timestep {
            Some(t) => t,
            None => {
                if self.target_tps == 0 {
                    0
                } else {
                    NANOS_PER_SECOND / (self.target_tps as u128)
                }
            },
        };
        if raw == 0 {
            FALLBACK_TIMESTEP_NANOS
        } else {
            raw
        }
    }

    /// Records that one step of duration `delta` was consumed.
    pub fn advance_by(&mut self, delta: u128)
        requires
            old(self).elapsed + delta <= u128::MAX,
        ensures
            *final(self) == (TickSystem {
                delta,
                elapsed: (old(self).elapsed + delta) as u128,
                ..*old(self)
            }),
    {
        self.delta = delta;
        self.elapsed = self.elapsed + delta;
    }

    /// Feeds a wall-clock delta into the accumulator. The delta may be zero;
    /// the only limit is that the total time fed must stay representable.
    pub fn accumulate(&mut self, delta: u128)
        requires
            old(self).budget() + delta <= u128::MAX,
        ensures
            *final(self) == old(self).spec_accumulated(delta),
            final(self).budget() == old(self).budget() + delta,
            final(self).wf(),
    {
        self.overstep = self.overstep + delta;
    }

    /// Consumes one fixed step from the stored time if one is available.
    /// Returns whether a step was consumed; on `false` nothing changed.
    /// Consuming never creates or destroys time: the budget is conserved.
    pub fn expend(&mut self) -> (stepped: bool)
        requires
            old(self).wf(),
        ensures
            stepped == old(self).can_expend(),
            *final(self) == old(self).spec_expended(),
            final(self).budget() == old(self).budget(),
            final(self).wf(),
            final(self).spec_timestep() == old(self).spec_timestep(),
            !stepped ==> final(self).overstep < final(self).spec_timestep(),
    {
        let timestep = self.calculate_timestep();
        if self.overstep >= timestep {
            self.overstep = self.overstep - timestep;
            self.advance_by(timestep);
            true
        } else {
            false
        }
    }
}

/// One recorded call into the accumulator: a wall-clock delta fed to
/// `accumulate`, or one `expend`.
pub enum TickOp {
    Accumulate(u128),
    Expend,
}

/// The accumulator after one recorded call.
pub open spec fn spec_apply_op(ts: TickSystem, op: TickOp) -> TickSystem {
    match op {
        TickOp::Accumulate(d) => ts.spec_accumulated(d),
        TickOp::Expend => ts.spec_expended(),
    }
}

/// The accumulator after a whole sequence of recorded calls.
pub open spec fn spec_apply_ops(ts: TickSystem, ops: Seq<TickOp>) -> TickSystem
    decreases ops.len(),
{
    if ops.len() == 0 {
        ts
    } else {
        spec_apply_ops(spec_apply_op(ts, ops[0]), ops.subrange(1, ops.len() as int))
    }
}

/// All wall-clock time a sequence of calls feeds in.
pub open spec fn spec_total_fed(ops: Seq<TickOp>) -> int
    decreases ops.len(),
{
    if ops.len() == 0 {
        0
    } else {
        (match ops[0] {
            TickOp::Accumulate(d) => d as int,
            TickOp::Expend => 0,
        }) + spec_total_fed(ops.subrange(1, ops.len() as int))
    }
}

/// No sequence of `accumulate` and `expend` calls creates time: afterwards,
/// the time consumed plus the time still stored never exceeds what was there
/// at the start plus everything fed in.
pub proof fn lemma_budget_bounded(ts: TickSystem, ops: Seq<TickOp>)
    ensures
        spec_apply_ops(ts, ops).budget() <= ts.budget() + spec_total_fed(ops),
    decreases ops.len(),
{
    if ops.len() != 0 {
        let ts1 = spec_apply_op(ts, ops[0]);
        lemma_budget_bounded(ts1, ops.subrange(1, ops.len() as int));
    }
}

/// Starting from an accumulator holding no time, the total simulated time
/// consumed via `expend` never exceeds the total wall-clock time fed to
/// `accumulate`.
pub proof fn lemma_elapsed_never_exceeds_fed(ts: TickSystem, ops: Seq<TickOp>)
    requires
        ts.elapsed == 0,
        ts.overstep == 0,
    ensures
        spec_apply_ops(ts, ops).elapsed <= spec_total_fed(ops),
{
    lemma_budget_bounded(ts, ops);
}

/// Changing the target rate touches no stored time: the overstep, the elapsed
/// total and the last step duration are exactly those of the unchanged
/// accumulator. Only the duration that subsequent `expend` calls consume
/// moves, and the very next `expend` already uses the new rate.
pub proof fn lemma_rate_change(ts: TickSystem, new_tps: usize)
    ensures
        ({
            let changed = (TickSystem { target_tps: new_tps, ..ts });
            &&& changed.overstep == ts.overstep
            &&& changed.elapsed == ts.elapsed
            &&& changed.delta == ts.delta
            &&& changed.can_expend() == (ts.overstep >= changed.spec_timestep())
            &&& changed.can_expend() ==> changed.spec_expended() == (TickSystem {
                target_tps: new_tps,
                timestep: ts.timestep,
                delta: changed.spec_timestep(),
                overstep: (ts.overstep - changed.spec_timestep()) as u128,
                elapsed: (ts.elapsed + changed.spec_timestep()) as u128,
            })
        }),
{
}

} // verus!
