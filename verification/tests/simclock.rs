use simclock::calendar::{real_time_ticking, update, SimulationState};
use simclock::runner::{
    Announcement, CommandPoll, IterationOutcome, SimulationRunner, ThreadEvent,
};
use simclock::tick::TickSystem;

fn fresh() -> SimulationState {
    SimulationState {
        current_day: 0,
        current_hour: 0,
        current_month: 0,
        current_year: 0,
        ticks_until_next_hour: 0,
    }
}

fn state_at_hours(total_hours: u64) -> SimulationState {
    SimulationState {
        current_hour: total_hours % 24,
        current_day: (total_hours / 24) % 30,
        current_month: (total_hours / (24 * 30)) % 12,
        current_year: total_hours / (24 * 30 * 12),
        ticks_until_next_hour: 0,
    }
}

#[test]
fn elapsed_never_exceeds_fed_time() {
    let mut ts = TickSystem::new(100); // step duration: 10_000_000 ns
    let deltas: [u128; 5] = [0, 3_000_000, 7_000_000, 25_000_000, 1];
    let mut fed: u128 = 0;
    for d in deltas {
        ts.accumulate(d);
        fed += d;
        while ts.expend() {}
        assert!(ts.elapsed <= fed);
        assert!(ts.overstep < ts.calculate_timestep());
    }
    assert_eq!(fed, 35_000_001);
    assert_eq!(ts.elapsed, 30_000_000);
    assert_eq!(ts.overstep, 5_000_001);
}

#[test]
fn expend_without_accumulated_time_is_a_no_op() {
    let mut ts = TickSystem::new(100);
    assert!(!ts.expend());
    assert_eq!(ts.elapsed, 0);
    assert_eq!(ts.overstep, 0);
    assert_eq!(ts.delta, 0);
}

#[test]
fn accumulate_accepts_zero_delta() {
    let mut ts = TickSystem::new(100);
    ts.accumulate(0);
    assert_eq!(ts.overstep, 0);
    assert!(!ts.expend());
}

#[test]
fn rate_change_leaves_overstep_alone_and_steers_later_steps() {
    let mut ts = TickSystem::new(100);
    ts.accumulate(30_000_000);
    assert!(ts.expend());
    assert_eq!(ts.delta, 10_000_000);
    assert_eq!(ts.overstep, 20_000_000);

    ts.target_tps = 200; // next step duration: 5_000_000 ns
    assert_eq!(ts.overstep, 20_000_000, "the change itself moves no time");
    assert!(ts.expend());
    assert_eq!(ts.delta, 5_000_000, "the very next expend uses the new rate");
    assert_eq!(ts.overstep, 15_000_000);
}

#[test]
fn zero_rate_falls_back_to_twenty_steps_per_second() {
    let mut ts = TickSystem::new(0);
    assert_eq!(ts.calculate_timestep(), 50_000_000);
    ts.accumulate(100_000_000);
    assert!(ts.expend());
    assert!(ts.expend());
    assert!(!ts.expend());
    assert_eq!(ts.elapsed, 100_000_000);
}

#[test]
fn oversized_rate_falls_back_instead_of_stalling() {
    let ts = TickSystem::new(2_000_000_000); // one step would round to no time
    assert_eq!(ts.calculate_timestep(), 50_000_000);
}

#[test]
fn explicit_timestep_override_wins() {
    let mut ts = TickSystem::new(100);
    ts.timestep = Some(2_000_000);
    assert_eq!(ts.calculate_timestep(), 2_000_000);
}

#[test]
fn advance_by_records_the_step_duration() {
    let mut ts = TickSystem::new(100);
    ts.advance_by(7);
    ts.advance_by(5);
    assert_eq!(ts.delta, 5);
    assert_eq!(ts.elapsed, 12);
}

#[test]
fn two_steps_cross_exactly_one_hour_boundary() {
    let mut state = fresh();
    let mut hours = 0;
    let mut days = 0;
    let mut months = 0;
    let mut years = 0;
    for _ in 0..2 {
        let c = real_time_ticking(&mut state);
        hours += c.hour as u32;
        days += c.day as u32;
        months += c.month as u32;
        years += c.year as u32;
    }
    assert_eq!(hours, 1);
    assert_eq!(days, 0);
    assert_eq!(months, 0);
    assert_eq!(years, 0);
    assert_eq!(state.current_hour, 1);
    assert_eq!(state.ticks_until_next_hour, 0);
}

#[test]
fn a_month_of_steps_crosses_each_boundary_the_right_number_of_times() {
    let mut state = fresh();
    let steps = 2 * 24 * 30;
    let mut hours = 0u64;
    let mut days = 0u64;
    let mut months = 0u64;
    let mut years = 0u64;
    for _ in 0..steps {
        let c = real_time_ticking(&mut state);
        hours += c.hour as u64;
        days += c.day as u64;
        months += c.month as u64;
        years += c.year as u64;
    }
    // hour crossings match elapsed simulated hours
    assert_eq!(hours, state.get_total_hours() as u64);
    assert_eq!(hours, 24 * 30);
    // thirty day boundaries, one of which coincides with the month boundary
    assert_eq!(days, 30);
    assert_eq!(months, 1);
    assert_eq!(years, 0);
    assert_eq!(state.current_month, 1);
    assert_eq!(state.current_day, 0);
    assert_eq!(state.current_hour, 0);
}

#[test]
fn higher_crossings_never_fire_without_their_parent() {
    let mut state = fresh();
    // a year and change, covering every kind of boundary
    for _ in 0..(2 * 24 * 30 * 12 + 77) {
        let c = real_time_ticking(&mut state);
        assert!(!c.day || c.hour);
        assert!(!c.month || c.day);
        assert!(!c.year || c.month);
        assert!(!c.opening || c.hour);
        assert!(!c.closing || c.hour);
    }
    assert_eq!(state.current_year, 1);
}

#[test]
fn a_single_step_resolves_every_carry_at_once() {
    let mut state = SimulationState {
        current_day: 29,
        current_hour: 23,
        current_month: 11,
        current_year: 4,
        ticks_until_next_hour: 1,
    };
    let c = real_time_ticking(&mut state);
    assert!(c.hour && c.day && c.month && c.year);
    assert!(!c.opening && !c.closing);
    assert_eq!(
        state,
        SimulationState {
            current_day: 0,
            current_hour: 0,
            current_month: 0,
            current_year: 5,
            ticks_until_next_hour: 0,
        }
    );
}

#[test]
fn opening_and_closing_hours_are_announced() {
    let mut state = fresh();
    let mut openings = 0;
    let mut closings = 0;
    for _ in 0..(2 * 24) {
        let c = real_time_ticking(&mut state);
        openings += c.opening as u32;
        closings += c.closing as u32;
    }
    assert_eq!(openings, 1, "hour six is reached once a day");
    assert_eq!(closings, 1, "hour eighteen is reached once a day");
}

#[test]
fn total_hours_weights_every_counter() {
    let state = SimulationState {
        current_day: 3,
        current_hour: 4,
        current_month: 2,
        current_year: 1,
        ticks_until_next_hour: 1,
    };
    assert_eq!(
        state.get_total_hours(),
        1 * 12 * 30 * 24 + 2 * 30 * 24 + 3 * 24 + 4
    );
    assert_eq!(fresh().get_total_hours(), 0);
}

#[test]
fn handlers_carry_exactly_one_unit() {
    let mut s = fresh();
    assert!(!s.handle_hours());
    assert!(s.handle_hours());
    assert_eq!(s.current_hour, 1);

    let mut s = SimulationState { current_hour: 24, ..fresh() };
    assert!(s.handle_days());
    assert_eq!((s.current_hour, s.current_day), (0, 1));

    let mut s = SimulationState { current_day: 30, ..fresh() };
    assert!(s.handle_months());
    assert_eq!((s.current_day, s.current_month), (0, 1));

    let mut s = SimulationState { current_month: 12, ..fresh() };
    assert!(s.handle_years());
    assert_eq!((s.current_month, s.current_year), (0, 1));
}

#[test]
fn default_calendar_is_fresh() {
    assert_eq!(SimulationState::default(), fresh());
}

#[test]
fn diagnostic_fires_first_at_240_hours_and_next_at_480() {
    let mut previous = fresh();

    let mut fired_at: Vec<u64> = Vec::new();
    for hours in 0..=480u64 {
        let state = state_at_hours(hours);
        if update(&mut previous, &state) {
            fired_at.push(hours);
            assert_eq!(previous, state, "firing advances the snapshot");
        }
    }
    assert_eq!(fired_at, vec![240, 480]);
}

#[test]
fn diagnostic_measures_distance_in_either_direction() {
    let mut previous = state_at_hours(300);
    let state = state_at_hours(60);
    assert!(update(&mut previous, &state));
    assert_eq!(previous, state);
}

#[test]
fn runner_drains_every_due_step() {
    let mut r = SimulationRunner::new(100);
    let report = r.iteration(CommandPoll::Empty, 25_000_000);
    assert_eq!(report.outcome, IterationOutcome::Continue);
    assert_eq!(report.steps_taken, 2);
    assert_eq!(r.tick_system.overstep, 5_000_000);
    assert_eq!(r.state.ticks_until_next_hour, 0);
    assert_eq!(r.state.current_hour, 1);
}

#[test]
fn rate_command_takes_effect_on_the_very_next_expend() {
    let mut r = SimulationRunner::new(100);
    let report = r.iteration(
        CommandPoll::Received(ThreadEvent::ChangeTargetTPS(200)),
        10_000_000,
    );
    assert_eq!(report.outcome, IterationOutcome::Continue);
    assert_eq!(r.tick_system.target_tps, 200);
    // 10 ms at the new 5 ms step: two steps, not one
    assert_eq!(report.steps_taken, 2);
    assert_eq!(r.tick_system.delta, 5_000_000);
}

#[test]
fn shutdown_loses_no_accumulated_time() {
    let mut r = SimulationRunner::new(100);
    let first = r.iteration(CommandPoll::Empty, 25_000_000);
    assert_eq!(first.steps_taken, 2, "due steps complete before shutdown is seen");

    let report = r.iteration(CommandPoll::Received(ThreadEvent::Shutdown), 99);
    assert_eq!(report.outcome, IterationOutcome::ShutdownRequested);
    assert_eq!(report.steps_taken, 0);
    assert_eq!(r.tick_system.overstep, 5_000_000, "stored time is kept, not dropped");
    assert_eq!(r.state.current_hour, 1, "steps already taken stay taken");
}

#[test]
fn closed_channel_is_reported_distinctly_from_shutdown() {
    let mut r = SimulationRunner::new(100);
    let report = r.iteration(CommandPoll::Closed, 10_000_000);
    assert_eq!(report.outcome, IterationOutcome::ChannelClosed);
    assert_ne!(report.outcome, IterationOutcome::ShutdownRequested);
    assert_eq!(report.steps_taken, 0);
    assert_eq!(r.tick_system.overstep, 0);
}

#[test]
fn tick_debug_is_emitted_only_on_change() {
    let mut r = SimulationRunner::new(100);
    let first = r.iteration(CommandPoll::Empty, 10_000_000);
    let payload = first.tick_debug.expect("first step changes the rate from zero");
    assert_eq!(payload.last_step_nanos, 10_000_000);
    assert_eq!(payload.target_tps, 100);

    let second = r.iteration(CommandPoll::Empty, 10_000_000);
    assert!(second.tick_debug.is_none(), "unchanged rate is not re-reported");
}

#[test]
fn no_steps_means_no_tick_debug() {
    let mut r = SimulationRunner::new(100);
    let report = r.iteration(CommandPoll::Empty, 1_000);
    assert_eq!(report.steps_taken, 0);
    assert!(report.tick_debug.is_none());
}

#[test]
fn state_debug_is_throttled_by_simulated_distance() {
    let mut r = SimulationRunner::new(100);
    // 480 steps of 10 ms: 240 simulated hours in one iteration
    let report = r.iteration(CommandPoll::Empty, 4_800_000_000);
    assert_eq!(report.steps_taken, 480);
    let payload = report.state_debug.expect("ten simulated days have passed");
    assert_eq!(payload.total_elapsed_hours, 240);
    assert_eq!(payload.state, r.state);
    assert_eq!(r.previous_state, r.state);

    let quiet = r.iteration(CommandPoll::Empty, 10_000_000);
    assert!(quiet.state_debug.is_none());
}

#[test]
fn announcements_come_in_step_order() {
    let mut r = SimulationRunner::new(100);
    // six simulated hours: twelve steps
    let report = r.iteration(CommandPoll::Empty, 120_000_000);
    assert_eq!(report.steps_taken, 12);
    assert_eq!(report.announcements, vec![Announcement::OpeningHours]);

    // a runner whose next step crosses day, month and year at once
    let mut r = SimulationRunner::new(100);
    r.state = SimulationState {
        current_day: 29,
        current_hour: 23,
        current_month: 11,
        current_year: 0,
        ticks_until_next_hour: 1,
    };
    let report = r.iteration(CommandPoll::Empty, 10_000_000);
    assert_eq!(report.steps_taken, 1);
    assert_eq!(
        report.announcements,
        vec![
            Announcement::DayStarting,
            Announcement::MonthStarting,
            Announcement::YearStarting,
        ]
    );
}
