//! A fixed-timestep simulation clock.
//!
//! The crate advances a simulated calendar at a configurable rate, decoupled
//! from wall-clock time. A tick accumulator ([`tick::TickSystem`]) converts
//! irregular wall-clock deltas into whole simulation steps; a calendar state
//! machine ([`calendar::SimulationState`]) advances one step at a time and
//! reports boundary crossings; a control-loop core ([`runner::SimulationRunner`])
//! applies commands, drains due steps and produces the notifications that the
//! surrounding service broadcasts.

pub mod calendar;
pub mod runner;
pub mod tick;
