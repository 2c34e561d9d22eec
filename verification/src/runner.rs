//! The control-loop core.
//!
//! The surrounding service runs one dedicated task that owns all simulation
//! state. Each of its iterations polls the command channel without blocking,
//! samples the wall clock, and hands both results to [`SimulationRunner::iteration`],
//! which applies the command, drains every step the accumulator can afford,
//! advances the calendar once per step, and reports the notifications to
//! broadcast. The task performs the broadcasts itself; this core never does
//! I/O.

use vstd::prelude::*;

use crate::calendar::batch_ticking;
use crate::calendar::lemma_year_within;
use crate::calendar::real_time_ticking;
use crate::calendar::spec_hour_distance;
use crate::calendar::spec_step_crossings;
use crate::calendar::spec_step_n;
use crate::calendar::update;
use crate::calendar::SimulationState;
use crate::calendar::StepCrossings;
use crate::calendar::DIAGNOSTIC_INTERVAL_HOURS;
use crate::calendar::MAX_SIMULATED_TICKS;
use crate::tick::TickSystem;

verus! {

/// A command delivered to the control loop over its channel.
#[derive(Clone, Copy, Debug, PartialEq, Eq, Structural)]
pub enum ThreadEvent {
    Shutdown,
    ChangeTargetTPS(usize),
}

/// What one non-blocking poll of the command channel yielded.
#[derive(Clone, Copy, Debug, PartialEq, Eq, Structural)]
pub enum CommandPoll {
    Received(ThreadEvent),
    Empty,
    Closed,
}

/// How an iteration left the loop. A requested shutdown is clean; a closed
/// channel without a shutdown command is an unexpected collaborator failure,
/// reported distinctly.
#[derive(Clone, Copy, Debug, PartialEq, Eq, Structural)]
pub enum IterationOutcome {
    Continue,
    ShutdownRequested,
    ChannelClosed,
}

/// The named notification kinds the loop can broadcast.
#[derive(Clone, Copy, Debug, PartialEq, Eq, Structural)]
pub enum SimulationSocketEvent {
    Announcer,
    StateDebug,
    TickDebug,
    BatchTickDebug,
}

/// A boundary-crossing announcement, in the order a step raises them.
#[derive(Clone, Copy, Debug, PartialEq, Eq, Structural)]
pub enum Announcement {
    OpeningHours,
    ClosingHours,
    DayStarting,
    MonthStarting,
    YearStarting,
}

/// Payload of the change-triggered rate diagnostic. It carries the duration
/// of the most recent step; the broadcast layer derives the instantaneous
/// rate as its reciprocal (zero when no step has run yet).
#[derive(Clone, Copy, Debug, PartialEq, Eq, Structural)]
pub struct TickDebug {
    pub last_step_nanos: u128,
    pub target_tps: usize,
}

/// Payload of the throttled full-state diagnostic.
#[derive(Clone, Copy, Debug, PartialEq, Eq, Structural)]
pub struct StateDebug {
    pub state: SimulationState,
    pub total_elapsed_hours: u128,
}

/// Everything one iteration asks the surrounding task to do or record.
pub struct IterationReport {
    pub outcome: IterationOutcome,
    pub steps_taken: u128,
    pub announcements: Vec<Announcement>,
    pub tick_debug: Option<TickDebug>,
    pub state_debug: Option<StateDebug>,
}

/// The announcements a single step with crossing flags `c` raises, in the
/// fixed emission order.
pub open spec fn spec_crossing_announcements(c: StepCrossings) -> Seq<Announcement> {
    (if c.opening {
        seq![Announcement::OpeningHours]
    } else {
        Seq::empty()
    }) + (if c.closing {
        seq![Announcement::ClosingHours]
    } else {
        Seq::empty()
    }) + (if c.day {
        seq![Announcement::DayStarting]
    } else {
        Seq::empty()
    }) + (if c.month {
        seq![Announcement::MonthStarting]
    } else {
        Seq::empty()
    }) + (if c.year {
        seq![Announcement::YearStarting]
    } else {
        Seq::empty()
    })
}

/// All announcements `n` consecutive steps from `s` raise, in order.
pub open spec fn spec_run_announcements(s: SimulationState, n: nat) -> Seq<Announcement>
    decreases n,
{
    if n == 0 {
        Seq::empty()
    } else {
        spec_run_announcements(s, (n - 1) as nat) + spec_crossing_announcements(
            spec_step_crossings(spec_step_n(s, (n - 1) as nat)),
        )
    }
}

/// Appends the announcements for one step's crossings, in the fixed order.
fn push_crossing_announcements(announcements: &mut Vec<Announcement>, c: &StepCrossings)
    ensures
        final(announcements)@ == old(announcements)@ + spec_crossing_announcements(*c),
{
    if c.opening {
        announcements.push(Announcement::OpeningHours);
    }
    if c.closing {
        announcements.push(Announcement::ClosingHours);
    }
    if c.day {
        announcements.push(Announcement::DayStarting);
    }
    if c.month {
        announcements.push(Announcement::MonthStarting);
    }
    if c.year {
        announcements.push(Announcement::YearStarting);
    }
    proof {
        assert(final(announcements)@ =~= old(announcements)@ + spec_crossing_announcements(*c));
    }
}

/// The simulation state one control-loop task owns exclusively.
pub struct SimulationRunner {
    pub tick_system: TickSystem,
    pub previous_state: SimulationState,
    pub state: SimulationState,
    /// Step duration last reported by the rate diagnostic; zero before any
    /// report.
    pub tps_tracker: u128,
}

impl SimulationRunner {
    pub open spec fn wf(self) -> bool {
        &&& self.tick_system.wf()
        &&& self.state.wf()
        &&& self.previous_state.wf()
    }

    /// The accumulator as the ticking phase first sees it: the polled command
    /// (if any) applied, then the sampled delta fed in.
    pub open spec fn spec_ticking_start(self, poll: CommandPoll, delta_nanos: u128) -> TickSystem {
        let retargeted = match poll {
            CommandPoll::Received(ThreadEvent::ChangeTargetTPS(t)) => TickSystem {
                target_tps: t,
                ..self.tick_system
            },
            _ => self.tick_system,
        };
        retargeted.spec_accumulated(delta_nanos)
    }

    /// A fresh runner: a zeroed accumulator at the given rate and a fresh
    /// calendar.
    pub fn new(target_tps: usize) -> (r: SimulationRunner)
        ensures
            r.wf(),
            r.tick_system == (TickSystem {
                target_tps,
                timestep: None,
                delta: 0,
                overstep: 0,
                elapsed: 0,
            }),
            r.state == SimulationState::spec_fresh(),
            r.previous_state == SimulationState::spec_fresh(),
            r.tps_tracker == 0,
            r.state.spec_total_ticks() == 0,
    {
        SimulationRunner {
            tick_system: TickSystem::new(target_tps),
            previous_state: SimulationState::default(),
            state: SimulationState::default(),
            tps_tracker: 0,
        }
    }

    /// One control-loop iteration.
    ///
    /// A polled rate change takes effect before any step of this iteration, so
    /// the very next `expend` already uses the new rate. A polled shutdown, or
    /// a closed channel, ends the loop at once with every piece of state
    /// intact: time already accumulated stays in the accumulator, so nothing
    /// is silently lost — the previous iteration had already drained every
    /// step that was due. Otherwise the sampled delta is fed in, every whole
    /// step the accumulator can afford is expended and the calendar advances
    /// once per step; afterwards the stored remainder is strictly smaller than
    /// one step duration. The rate diagnostic is reported only when the step
    /// duration changed; the full-state diagnostic only when the throttle
    /// distance was reached.
    pub fn iteration(&mut self, poll: CommandPoll, delta_nanos: u128) -> (report: IterationReport)
        requires
            old(self).wf(),
            old(self).tick_system.budget() + delta_nanos <= u128::MAX,
            old(self).state.spec_total_ticks() + old(self).tick_system.overstep + delta_nanos
                <= MAX_SIMULATED_TICKS,
        ensures
            final(self).wf(),
            poll == CommandPoll::Received(ThreadEvent::Shutdown) ==> {
                &&& report.outcome == IterationOutcome::ShutdownRequested
                &&& *final(self) == *old(self)
                &&& report.steps_taken == 0
                &&& report.announcements@ == Seq::<Announcement>::empty()
                &&& report.tick_debug is None
                &&& report.state_debug is None
            },
            poll == CommandPoll::Closed ==> {
                &&& report.outcome == IterationOutcome::ChannelClosed
                &&& *final(self) == *old(self)
                &&& report.steps_taken == 0
                &&& report.announcements@ == Seq::<Announcement>::empty()
                &&& report.tick_debug is None
                &&& report.state_debug is None
            },
            (poll != CommandPoll::Received(ThreadEvent::Shutdown) && poll != CommandPoll::Closed)
                ==> ({
                let ts1 = old(self).spec_ticking_start(poll, delta_nanos);
                let t = ts1.spec_timestep();
                let n = report.steps_taken;
                &&& report.outcome == IterationOutcome::Continue
                &&& final(self).tick_system.target_tps == ts1.target_tps
                &&& final(self).tick_system.timestep == ts1.timestep
                &&& ts1.overstep == n * t + final(self).tick_system.overstep
                &&& final(self).tick_system.overstep < t
                &&& final(self).tick_system.elapsed == ts1.elapsed + n * t
                &&& final(self).tick_system.delta == (if n > 0 {
                    t
                } else {
                    old(self).tick_system.delta
                })
                &&& final(self).state == spec_step_n(old(self).state, n as nat)
                &&& final(self).state.spec_total_ticks() == old(self).state.spec_total_ticks() + n
                &&& report.announcements@ == spec_run_announcements(old(self).state, n as nat)
                &&& report.tick_debug == (if final(self).tick_system.delta != old(self).tps_tracker {
                    Some(
                        TickDebug {
                            last_step_nanos: final(self).tick_system.delta,
                            target_tps: final(self).tick_system.target_tps,
                        },
                    )
                } else {
                    None::<TickDebug>
                })
                &&& final(self).tps_tracker == final(self).tick_system.delta
                &&& ({
                    let fired = spec_hour_distance(
                        final(self).state.spec_total_hours(),
                        old(self).previous_state.spec_total_hours(),
                    ) >= DIAGNOSTIC_INTERVAL_HOURS;
                    &&& fired ==> final(self).previous_state == final(self).state
                    &&& fired ==> report.state_debug == Some(
                        StateDebug {
                            state: final(self).state,
                            total_elapsed_hours: final(self).state.spec_total_hours() as u128,
                        },
                    )
                    &&& !fired ==> final(self).previous_state == old(self).previous_state
                    &&& !fired ==> report.state_debug is None
                })
            }),
    {
        match poll {
            CommandPoll::Received(ThreadEvent::Shutdown) => {
                return IterationReport {
                    outcome: IterationOutcome::ShutdownRequested,
                    steps_taken: 0,
                    announcements: Vec::new(),
                    tick_debug: None,
                    state_debug: None,
                };
            },
            CommandPoll::Closed => {
                return IterationReport {
                    outcome: IterationOutcome::ChannelClosed,
                    steps_taken: 0,
                    announcements: Vec::new(),
                    tick_debug: None,
                    state_debug: None,
                };
            },
            CommandPoll::Received(ThreadEvent::ChangeTargetTPS(new_target)) => {
                self.tick_system.target_tps = new_target;
            },
            CommandPoll::Empty => {},
        }

        self.tick_system.accumulate(delta_nanos);

        let ghost ts1 = self.tick_system;
        let ghost state0 = self.state;

        let mut steps_taken: u128 = 0;
        let mut announcements: Vec<Announcement> = Vec::new();

        loop
            invariant
                self.tick_system.wf(),
                self.state.wf(),
                self.previous_state == old(self).previous_state,
                self.tps_tracker == old(self).tps_tracker,
                self.tick_system.target_tps == ts1.target_tps,
                self.tick_system.timestep == ts1.timestep,
                self.tick_system.spec_timestep() == ts1.spec_timestep(),
                ts1.overstep == steps_taken * ts1.spec_timestep() + self.tick_system.overstep,
                self.tick_system.elapsed == ts1.elapsed + steps_taken * ts1.spec_timestep(),
                self.tick_system.delta == (if steps_taken > 0 {
                    ts1.spec_timestep()
                } else {
                    ts1.delta
                }),
                self.state == spec_step_n(state0, steps_taken as nat),
                self.state.spec_total_ticks() == state0.spec_total_ticks() + steps_taken,
                self.state.spec_total_ticks() + self.tick_system.overstep <= MAX_SIMULATED_TICKS,
                announcements@ == spec_run_announcements(state0, steps_taken as nat),
            ensures
                self.tick_system.wf(),
                self.state.wf(),
                self.previous_state == old(self).previous_state,
                self.tps_tracker == old(self).tps_tracker,
                self.tick_system.target_tps == ts1.target_tps,
                self.tick_system.timestep == ts1.timestep,
                self.tick_system.spec_timestep() == ts1.spec_timestep(),
                ts1.overstep == steps_taken * ts1.spec_timestep() + self.tick_system.overstep,
                self.tick_system.overstep < ts1.spec_timestep(),
                self.tick_system.elapsed == ts1.elapsed + steps_taken * ts1.spec_timestep(),
                self.tick_system.delta == (if steps_taken > 0 {
                    ts1.spec_timestep()
                } else {
                    ts1.delta
                }),
                self.state == spec_step_n(state0, steps_taken as nat),
                self.state.spec_total_ticks() == state0.spec_total_ticks() + steps_taken,
                announcements@ == spec_run_announcements(state0, steps_taken as nat),
            decreases self.tick_system.overstep,
        {
            let ghost ts_before = self.tick_system;
            let stepped = self.tick_system.expend();
            if !stepped {
                break ;
            }
            proof {
                lemma_year_within(self.state);
                assert((steps_taken + 1) * ts1.spec_timestep() == steps_taken
                    * ts1.spec_timestep() + ts1.spec_timestep()) by (nonlinear_arith);
            }
            let crossings = real_time_ticking(&mut self.state);
            push_crossing_announcements(&mut announcements, &crossings);
            steps_taken = steps_taken + 1;
        }

        batch_ticking(&self.previous_state, &self.state, steps_taken);

        let tick_debug: Option<TickDebug> = if self.tick_system.delta != self.tps_tracker {
            let payload = TickDebug {
                last_step_nanos: self.tick_system.delta,
                target_tps: self.tick_system.target_tps,
            };
            self.tps_tracker = self.tick_system.delta;
            Some(payload)
        } else {
            None
        };

        let state_debug: Option<StateDebug> = if update(&mut self.previous_state, &self.state) {
            Some(
                StateDebug { state: self.state, total_elapsed_hours: self.state.get_total_hours() },
            )
        } else {
            None
        };

        IterationReport {
            outcome: IterationOutcome::Continue,
            steps_taken,
            announcements,
            tick_debug,
            state_debug,
        }
    }
}

} // verus!
