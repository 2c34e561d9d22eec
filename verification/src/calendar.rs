//! The calendar state machine.
//!
//! One step is the atomic unit: it advances the sub-hour tick counter and
//! cascades carries upward (hour, day, month, year), reporting each boundary
//! crossing. A separate throttled comparator emits a full-state diagnostic
//! whenever enough simulated hours have passed since the last one.

use vstd::prelude::*;

verus! {

/// Simulated calendar counters. Each counter below the year stays within its
/// modulus range except momentarily inside a single step's carry propagation.
#[derive(Clone, Copy, Debug, PartialEq, Eq, Structural)]
pub struct SimulationState {
    pub current_day: u64,
    pub current_hour: u64,
    pub current_month: u64,
    pub current_year: u64,
    pub ticks_until_next_hour: u64,
}

/// Which boundaries a single step crossed, and which semantic announcements
/// it raised. Higher-order crossings never fire without the one below them
/// firing in the same step.
#[derive(Clone, Copy, Debug, PartialEq, Eq, Structural)]
pub struct StepCrossings {
    pub hour: bool,
    pub day: bool,
    pub month: bool,
    pub year: bool,
    pub opening: bool,
    pub closing: bool,
}

impl SimulationState {
    pub const TICKS_PER_HOUR: u64 = 2;

    pub const HOURS_PER_DAY: u64 = 24;

    pub const OPENING_HOUR: u64 = 6;

    pub const ENDING_HOUR: u64 = 18;

    pub const DAYS_PER_MONTH: u64 = 30;

    pub const MONTHS_PER_YEAR: u64 = 12;

    /// A fresh calendar: all counters at zero.
    pub open spec fn spec_fresh() -> SimulationState {
        SimulationState {
            current_day: 0,
            current_hour: 0,
            current_month: 0,
            current_year: 0,
            ticks_until_next_hour: 0,
        }
    }

    /// Every counter is within its modulus range.
    pub open spec fn wf(self) -> bool {
        &&& self.ticks_until_next_hour < Self::TICKS_PER_HOUR
        &&& self.current_hour < Self::HOURS_PER_DAY
        &&& self.current_day < Self::DAYS_PER_MONTH
        &&& self.current_month < Self::MONTHS_PER_YEAR
    }

    /// Total simulated hours this state stands for.
    pub open spec fn spec_total_hours(self) -> int {
        ((self.current_year * Self::MONTHS_PER_YEAR + self.current_month) * Self::DAYS_PER_MONTH
            + self.current_day) * Self::HOURS_PER_DAY + self.current_hour
    }

    /// Total simulated ticks this state stands for: every step adds exactly
    /// one of these.
    pub open spec fn spec_total_ticks(self) -> int {
        self.spec_total_hours() * Self::TICKS_PER_HOUR + self.ticks_until_next_hour
    }

    /// Advances the sub-hour counter by one tick; carries into the hour when
    /// the counter wraps. Returns whether an hour boundary was crossed.
    pub fn handle_hours(&mut self) -> (crossed: bool)
        requires
            old(self).ticks_until_next_hour < Self::TICKS_PER_HOUR,
            old(self).current_hour < u64::MAX,
        ensures
            crossed == (old(self).ticks_until_next_hour + 1 >= Self::TICKS_PER_HOUR),
            crossed ==> *final(self) == (SimulationState {
                ticks_until_next_hour: (old(self).ticks_until_next_hour + 1
                    - Self::TICKS_PER_HOUR) as u64,
                current_hour: (old(self).current_hour + 1) as u64,
                ..*old(self)
            }),
            !crossed ==> *final(self) == (SimulationState {
                ticks_until_next_hour: (old(self).ticks_until_next_hour + 1) as u64,
                ..*old(self)
            }),
    {
        self.ticks_until_next_hour = self.ticks_until_next_hour + 1;

        if self.ticks_until_next_hour >= Self::TICKS_PER_HOUR {
            self.ticks_until_next_hour = self.ticks_until_next_hour - Self::TICKS_PER_HOUR;
            self.current_hour = self.current_hour + 1;

            return true;
        }

        false
    }

    /// Carries a full day's worth of hours into the day counter. Returns
    /// whether a day boundary was crossed.
    pub fn handle_days(&mut self) -> (crossed: bool)
        requires
            old(self).current_day < u64::MAX,
        ensures
            crossed == (old(self).current_hour >= Self::HOURS_PER_DAY),
            crossed ==> *final(self) == (SimulationState {
                current_hour: (old(self).current_hour - Self::HOURS_PER_DAY) as u64,
                current_day: (old(self).current_day + 1) as u64,
                ..*old(self)
            }),
            !crossed ==> *final(self) == *old(self),
    {
        if self.current_hour >= Self::HOURS_PER_DAY {
            self.current_hour = self.current_hour - Self::HOURS_PER_DAY;
            self.current_day = self.current_day + 1;

            return true;
        }

        false
    }

    /// Carries a full month's worth of days into the month counter. Returns
    /// whether a month boundary was crossed.
    pub fn handle_months(&mut self) -> (crossed: bool)
        requires
            old(self).current_month < u64::MAX,
        ensures
            crossed == (old(self).current_day >= Self::DAYS_PER_MONTH),
            crossed ==> *final(self) == (SimulationState {
                current_day: (old(self).current_day - Self::DAYS_PER_MONTH) as u64,
                current_month: (old(self).current_month + 1) as u64,
                ..*old(self)
            }),
            !crossed ==> *final(self) == *old(self),
    {
        if self.current_day >= Self::DAYS_PER_MONTH {
            self.current_day = self.current_day - Self::DAYS_PER_MONTH;
            self.current_month = self.current_month + 1;

            return true;
        }

        false
    }

    /// Carries a full year's worth of months into the year counter. Returns
    /// whether a year boundary was crossed.
    pub fn handle_years(&mut self) -> (crossed: bool)
        requires
            old(self).current_year < u64::MAX,
        ensures
            crossed == (old(self).current_month >= Self::MONTHS_PER_YEAR),
            crossed ==> *final(self) == (SimulationState {
                current_month: (old(self).current_month - Self::MONTHS_PER_YEAR) as u64,
                current_year: (old(self).current_year + 1) as u64,
                ..*old(self)
            }),
            !crossed ==> *final(self) == *old(self),
    {
        if self.current_month >= Self::MONTHS_PER_YEAR {
            self.current_month = self.current_month - Self::MONTHS_PER_YEAR;
            self.current_year = self.current_year + 1;

            return true;
        }

        false
    }

    /// Total simulated hours this state stands for.
    pub fn get_total_hours(&self) -> (h: u128)
        ensures
            h == self.spec_total_hours(),
    {
        proof {
            assert(self.current_year as u128 * 12 * 30 * 24 <= 0xffff_ffff_ffff_ffff_u128 * 8640)
                by (nonlinear_arith)
                requires
                    self.current_year <= u64::MAX,
            ;
        }
        let years_to_hours = self.current_year as u128 * Self::MONTHS_PER_YEAR as u128
            * Self::DAYS_PER_MONTH as u128 * Self::HOURS_PER_DAY as u128;

        let months_to_hours = self.current_month as u128 * Self::DAYS_PER_MONTH as u128
            * Self::HOURS_PER_DAY as u128;

        let days_to_hours = self.current_day as u128 * Self::HOURS_PER_DAY as u128;

        years_to_hours + months_to_hours + days_to_hours + self.current_hour as u128
    }
}

impl Default for SimulationState {
    /// A fresh calendar: all counters at zero.
    fn default() -> (r: Self)
        ensures
            r == SimulationState::spec_fresh(),
            r.wf(),
    {
        SimulationState {
            current_day: 0,
            current_hour: 0,
            current_month: 0,
            current_year: 0,
            ticks_until_next_hour: 0,
        }
    }
}

/// Calendar state after one step's fully resolved carry propagation.
pub open spec fn spec_step(s: SimulationState) -> SimulationState {
    let ticks = s.ticks_until_next_hour + 1;
    let s1 = if ticks >= SimulationState::TICKS_PER_HOUR {
        SimulationState {
            ticks_until_next_hour: (ticks - SimulationState::TICKS_PER_HOUR) as u64,
            current_hour: (s.current_hour + 1) as u64,
            ..s
        }
    } else {
        SimulationState { ticks_until_next_hour: ticks as u64, ..s }
    };
    let s2 = if s1.current_hour >= SimulationState::HOURS_PER_DAY {
        SimulationState {
            current_hour: (s1.current_hour - SimulationState::HOURS_PER_DAY) as u64,
            current_day: (s1.current_day + 1) as u64,
            ..s1
        }
    } else {
        s1
    };
    let s3 = if s2.current_day >= SimulationState::DAYS_PER_MONTH {
        SimulationState {
            current_day: (s2.current_day - SimulationState::DAYS_PER_MONTH) as u64,
            current_month: (s2.current_month + 1) as u64,
            ..s2
        }
    } else {
        s2
    };
    if s3.current_month >= SimulationState::MONTHS_PER_YEAR {
        SimulationState {
            current_month: (s3.current_month - SimulationState::MONTHS_PER_YEAR) as u64,
            current_year: (s3.current_year + 1) as u64,
            ..s3
        }
    } else {
        s3
    }
}

/// The crossing and announcement flags one step raises from state `s`.
pub open spec fn spec_step_crossings(s: SimulationState) -> StepCrossings {
    let hour = s.ticks_until_next_hour + 1 >= SimulationState::TICKS_PER_HOUR;
    let hour_after = if hour {
        s.current_hour + 1
    } else {
        s.current_hour as int
    };
    let day = hour && hour_after >= SimulationState::HOURS_PER_DAY;
    let day_after = if day {
        s.current_day + 1
    } else {
        s.current_day as int
    };
    let month = day && day_after >= SimulationState::DAYS_PER_MONTH;
    let month_after = if month {
        s.current_month + 1
    } else {
        s.current_month as int
    };
    let year = month && month_after >= SimulationState::MONTHS_PER_YEAR;
    StepCrossings {
        hour,
        day,
        month,
        year,
        opening: hour && hour_after == SimulationState::OPENING_HOUR,
        closing: hour && hour_after == SimulationState::ENDING_HOUR,
    }
}

/// Calendar state after `n` steps from `s`.
pub open spec fn spec_step_n(s: SimulationState, n: nat) -> SimulationState
    decreases n,
{
    if n == 0 {
        s
    } else {
        spec_step(spec_step_n(s, (n - 1) as nat))
    }
}

/// One atomic calendar step: advances the tick counter and resolves all
/// carries before returning. Pure: the resulting state and flags are a
/// function of the starting state alone. A crossing of one unit can only
/// fire when the unit below it crossed in the same step.
pub fn real_time_ticking(state: &mut SimulationState) -> (crossings: StepCrossings)
    requires
        old(state).wf(),
        old(state).current_year < u64::MAX,
    ensures
        *final(state) == spec_step(*old(state)),
        crossings == spec_step_crossings(*old(state)),
        final(state).wf(),
        final(state).spec_total_ticks() == old(state).spec_total_ticks() + 1,
        crossings.day ==> crossings.hour,
        crossings.month ==> crossings.day,
        crossings.year ==> crossings.month,
        crossings.opening ==> crossings.hour,
        crossings.closing ==> crossings.hour,
{
    let crossed_hour = state.handle_hours();

    let opening = crossed_hour && state.current_hour == SimulationState::OPENING_HOUR;
    let closing = crossed_hour && state.current_hour == SimulationState::ENDING_HOUR;

    let crossed_day = state.handle_days();
    let crossed_month = state.handle_months();
    let crossed_year = state.handle_years();

    StepCrossings {
        hour: crossed_hour,
        day: crossed_day,
        month: crossed_month,
        year: crossed_year,
        opening,
        closing,
    }
}

/// Simulated hours between the last-announced snapshot and the current one
/// before a full-state diagnostic is due again: ten simulated days.
pub const DIAGNOSTIC_INTERVAL_HOURS: u128 = 24 * 10;

/// Distance between two totals, whichever is larger.
pub open spec fn spec_hour_distance(a: int, b: int) -> int {
    if a >= b {
        a - b
    } else {
        b - a
    }
}

/// The throttled full-state diagnostic comparator. Fires exactly when the
/// current state is at least [`DIAGNOSTIC_INTERVAL_HOURS`] simulated hours
/// away from the last-announced snapshot; firing advances the snapshot to the
/// current state, so it cannot fire again until the distance builds up anew.
/// Returns whether the caller should emit a full-state diagnostic now.
pub fn update(previous_state: &mut SimulationState, state: &SimulationState) -> (fired: bool)
    ensures
        fired == (spec_hour_distance(
            state.spec_total_hours(),
            old(previous_state).spec_total_hours(),
        ) >= DIAGNOSTIC_INTERVAL_HOURS),
        fired ==> *final(previous_state) == *state,
        !fired ==> *final(previous_state) == *old(previous_state),
{
    let previous_hours = previous_state.get_total_hours();
    let current_hours = state.get_total_hours();
    let distance = if current_hours >= previous_hours {
        current_hours - previous_hours
    } else {
        previous_hours - current_hours
    };

    if distance >= DIAGNOSTIC_INTERVAL_HOURS {
        *previous_state = *state;

        return true;
    }

    false
}

/// Post-iteration aggregation hook: defined but deliberately empty, a place
/// for batching several steps into one notification.
pub fn batch_ticking(
    previous_state: &SimulationState,
    state: &SimulationState,
    tick_delta: u128,
) {
    let _ = previous_state;
    let _ = state;
    let _ = tick_delta;
}

/// Ticks in one simulated year.
pub const TICKS_PER_YEAR: u128 = 12 * 30 * 24 * 2;

/// Cap on the total simulated ticks a calendar may reach: enough for the year
/// counter to stay strictly below its representation limit.
pub const MAX_SIMULATED_TICKS: u128 = 18_446_744_073_709_551_614 * TICKS_PER_YEAR;

/// A well-formed calendar whose total tick count is under the cap has room
/// for its year counter to grow.
pub proof fn lemma_year_within(s: SimulationState)
    requires
        s.wf(),
        s.spec_total_ticks() <= MAX_SIMULATED_TICKS,
    ensures
        s.current_year < u64::MAX,
{
    let y = s.current_year as int;
    let m = s.current_month as int;
    let d = s.current_day as int;
    let h = s.current_hour as int;
    assert(((y * 12 + m) * 30 + d) * 24 + h >= y * 8640) by (nonlinear_arith)
        requires
            m >= 0 && d >= 0 && h >= 0,
    ;
    assert(s.spec_total_hours() * 2 >= y * 17280) by (nonlinear_arith)
        requires
            s.spec_total_hours() >= y * 8640,
    ;
    assert(y <= 18_446_744_073_709_551_614) by (nonlinear_arith)
        requires
            y * 17280 <= 18_446_744_073_709_551_614 * 17280,
    ;
}

/// One step preserves well-formedness and adds exactly one to the total tick
/// count, and its crossing flags respect the carry chain: each unit's
/// crossing fires only when the unit below it crossed in the same step.
pub proof fn lemma_step(s: SimulationState)
    requires
        s.wf(),
        s.current_year < u64::MAX,
    ensures
        spec_step(s).wf(),
        spec_step(s).spec_total_ticks() == s.spec_total_ticks() + 1,
        spec_step(s).spec_total_hours() == s.spec_total_hours() + (if spec_step_crossings(s).hour {
            1int
        } else {
            0
        }),
        spec_step_crossings(s).day ==> spec_step_crossings(s).hour,
        spec_step_crossings(s).month ==> spec_step_crossings(s).day,
        spec_step_crossings(s).year ==> spec_step_crossings(s).month,
{
}

/// `n` steps preserve well-formedness and add exactly `n` to the total tick
/// count, as long as the cap is not exceeded.
pub proof fn lemma_step_n(s: SimulationState, n: nat)
    requires
        s.wf(),
        s.spec_total_ticks() + n <= MAX_SIMULATED_TICKS,
    ensures
        spec_step_n(s, n).wf(),
        spec_step_n(s, n).spec_total_ticks() == s.spec_total_ticks() + n,
    decreases n,
{
    if n != 0 {
        lemma_step_n(s, (n - 1) as nat);
        lemma_year_within(spec_step_n(s, (n - 1) as nat));
        lemma_step(spec_step_n(s, (n - 1) as nat));
    }
}

/// How many hour boundaries `n` steps from `s` cross.
pub open spec fn spec_hour_crossings(s: SimulationState, n: nat) -> int
    decreases n,
{
    if n == 0 {
        0
    } else {
        spec_hour_crossings(s, (n - 1) as nat) + (if spec_step_crossings(
            spec_step_n(s, (n - 1) as nat),
        ).hour {
            1int
        } else {
            0
        })
    }
}

/// Over any run under the tick cap, the hour boundaries crossed match the
/// simulated hours that elapsed.
pub proof fn lemma_hour_crossings_match_elapsed_hours(s: SimulationState, n: nat)
    requires
        s.wf(),
        s.spec_total_ticks() + n <= MAX_SIMULATED_TICKS,
    ensures
        spec_step_n(s, n).spec_total_hours() == s.spec_total_hours() + spec_hour_crossings(s, n),
    decreases n,
{
    if n != 0 {
        lemma_hour_crossings_match_elapsed_hours(s, (n - 1) as nat);
        lemma_step_n(s, (n - 1) as nat);
        lemma_year_within(spec_step_n(s, (n - 1) as nat));
        lemma_step(spec_step_n(s, (n - 1) as nat));
    }
}

} // verus!
