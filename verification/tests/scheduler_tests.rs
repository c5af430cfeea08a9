use dmon_worker::cycle::CycleError;
use dmon_worker::scheduler::{
    count_fields, normalize, plan, wait_seconds, RunMode, ScheduledTask, SchedulerAction,
    SchedulerState, MAX_TIMESTAMP, MIN_TIMESTAMP,
};
use dmon_worker::shutdown::CancellationToken;

// 2024-01-01T12:00:30Z and the full hour that follows it.
const HALF_PAST_NOON: i64 = 1_704_110_430;
const ONE_O_CLOCK: i64 = 1_704_114_000;

fn hourly() -> ScheduledTask<fn() -> Result<(), CycleError>> {
    fn nothing() -> Result<(), CycleError> {
        Ok(())
    }
    match ScheduledTask::new("w1", "0 * * * *", nothing as fn() -> Result<(), CycleError>) {
        Ok(task) => task,
        Err(error) => panic!("{}", error.message()),
    }
}

#[test]
fn hourly_expression_fires_at_the_next_full_hour() {
    let task = hourly();
    assert_eq!(task.name, "w1");
    assert_eq!(task.next_fire(HALF_PAST_NOON), Some(ONE_O_CLOCK));
    assert_eq!(task.wait(HALF_PAST_NOON), Some(3570));
}

#[test]
fn the_fire_instant_is_strictly_after_now() {
    let task = hourly();
    assert_eq!(task.next_fire(ONE_O_CLOCK), Some(ONE_O_CLOCK + 3600));
    assert_eq!(task.next_fire(ONE_O_CLOCK - 1), Some(ONE_O_CLOCK));
}

#[test]
fn a_past_fire_instant_is_not_waited_for() {
    assert_eq!(wait_seconds(100, 40), 0);
    assert_eq!(wait_seconds(100, 100), 0);
    assert_eq!(wait_seconds(100, 101), 1);
    assert_eq!(wait_seconds(i64::MIN, i64::MAX), u64::MAX);
    assert_eq!(wait_seconds(i64::MAX, i64::MIN), 0);
    assert_eq!(plan(Some(wait_seconds(100, 40))), SchedulerState::Firing);
}

#[test]
fn expressions_with_seconds_are_handed_on_as_they_are() {
    assert_eq!(normalize("0 * * * *"), "0 0 * * * *");
    assert_eq!(normalize("0 0 * * * *"), "0 0 * * * *");
    assert_eq!(normalize("*/5 * * * * * *"), "*/5 * * * * * *");
    assert_eq!(normalize("@hourly"), "@hourly");
    assert_eq!(normalize(""), "");
    let task = match ScheduledTask::new("w", "30 15 * * * *", || Ok(())) {
        Ok(task) => task,
        Err(error) => panic!("{}", error.message()),
    };
    assert_eq!(task.next_fire(HALF_PAST_NOON), Some(HALF_PAST_NOON - 30 + 15 * 60 + 30));
}

#[test]
fn fields_are_stretches_between_blanks() {
    assert_eq!(count_fields(""), 0);
    assert_eq!(count_fields("   "), 0);
    assert_eq!(count_fields("a"), 1);
    assert_eq!(count_fields(" a  b\tc\nd\re "), 5);
    assert_eq!(count_fields("0 * * * *"), 5);
    assert_eq!(count_fields("0 0 * * * *"), 6);
    assert_eq!(count_fields("a\u{a0}b"), 1);
}

#[test]
fn a_malformed_expression_is_reported_as_it_was_given() {
    match ScheduledTask::new("w", "every hour", || Ok(())) {
        Ok(_) => panic!("the expression was accepted"),
        Err(error) => {
            assert_eq!(error.expression, "every hour");
            assert_eq!(error.message(), "Invalid cron expression: every hour");
        }
    }
    assert!(ScheduledTask::new("w", "61 * * * *", || Ok(())).is_err());
    assert!(ScheduledTask::new("w", "", || Ok(())).is_err());
}

#[test]
fn run_returns_what_the_action_returns() {
    let ok = match ScheduledTask::new("w", "@daily", || Ok(())) {
        Ok(task) => task,
        Err(error) => panic!("{}", error.message()),
    };
    assert!(ok.run().is_ok());
    let failing = ScheduledTask::new("w", "@daily", || Err(CycleError::Delivery("down".to_string())));
    match failing {
        Ok(task) => assert!(matches!(task.run(), Err(CycleError::Delivery(d)) if d == "down")),
        Err(error) => panic!("{}", error.message()),
    }
}

#[test]
fn no_instant_is_computed_from_a_time_out_of_range() {
    let task = hourly();
    assert_eq!(task.next_fire(MIN_TIMESTAMP - 1), None);
    assert_eq!(task.next_fire(MAX_TIMESTAMP + 1), None);
    assert_eq!(task.next_fire(i64::MIN), None);
    assert_eq!(task.next_fire(i64::MAX), None);
    assert_eq!(task.next_fire(MAX_TIMESTAMP), None);
    assert_eq!(task.next_fire(0), Some(3600));
}

#[test]
fn a_schedule_that_is_over_leaves_the_trigger_idle() {
    let task = match ScheduledTask::new("w", "0 0 0 1 1 * 2000", || Ok(())) {
        Ok(task) => task,
        Err(error) => panic!("{}", error.message()),
    };
    assert_eq!(task.next_fire(HALF_PAST_NOON), None);
    assert_eq!(task.advance(SchedulerState::Idle, false, HALF_PAST_NOON), SchedulerState::Idle);
}

#[test]
fn the_trigger_waits_fires_runs_and_waits_again() {
    let task = hourly();
    let mut state = task.advance(SchedulerState::Idle, false, ONE_O_CLOCK - 3);
    assert_eq!(state, SchedulerState::Waiting { remaining: 3 });
    assert_eq!(state.action(), SchedulerAction::Sleep);
    state = task.advance(state, false, ONE_O_CLOCK - 2);
    assert_eq!(state, SchedulerState::Waiting { remaining: 2 });
    state = task.advance(state, false, ONE_O_CLOCK - 1);
    assert_eq!(state, SchedulerState::Waiting { remaining: 1 });
    state = task.advance(state, false, ONE_O_CLOCK);
    assert_eq!(state, SchedulerState::Firing);
    assert_eq!(state.action(), SchedulerAction::Proceed);
    state = task.advance(state, false, ONE_O_CLOCK);
    assert_eq!(state, SchedulerState::Running);
    assert_eq!(state.action(), SchedulerAction::RunCycle);
    state = task.advance(state, false, ONE_O_CLOCK + 7);
    assert_eq!(state, SchedulerState::Waiting { remaining: 3593 });
}

#[test]
fn cancellation_during_a_wait_stops_without_a_cycle() {
    let task = hourly();
    let mut token = CancellationToken::new();
    let mut state = task.advance(SchedulerState::Idle, token.is_cancelled(), ONE_O_CLOCK - 1);
    assert_eq!(state, SchedulerState::Waiting { remaining: 1 });
    assert!(token.cancel());
    state = task.advance(state, token.is_cancelled(), ONE_O_CLOCK);
    assert_eq!(state, SchedulerState::Stopped);
    assert_eq!(state.action(), SchedulerAction::Exit);
    state = task.advance(state, token.is_cancelled(), ONE_O_CLOCK + 1);
    assert_eq!(state, SchedulerState::Stopped);
}

#[test]
fn a_running_cycle_is_not_interrupted() {
    let task = hourly();
    assert_eq!(task.advance(SchedulerState::Firing, true, ONE_O_CLOCK), SchedulerState::Running);
    assert_eq!(task.advance(SchedulerState::Running, true, ONE_O_CLOCK), SchedulerState::Stopped);
}

#[test]
fn the_token_is_set_once() {
    let mut token = CancellationToken::new();
    assert!(!token.is_cancelled());
    assert!(token.cancel());
    assert!(token.is_cancelled());
    assert!(!token.cancel());
    assert!(token.is_cancelled());
}

#[test]
fn one_shot_runs_one_cycle_and_stops() {
    let mut state = SchedulerState::Idle;
    let mut cycles = 0;
    let mut sleeps = 0;
    for _ in 0..10 {
        match state.action() {
            SchedulerAction::RunCycle => cycles += 1,
            SchedulerAction::Sleep => sleeps += 1,
            SchedulerAction::Exit => break,
            SchedulerAction::Proceed => {}
        }
        state = state.step(RunMode::OneShot, false, Some(3600));
    }
    assert_eq!(state, SchedulerState::Stopped);
    assert_eq!(cycles, 1);
    assert_eq!(sleeps, 0);
}

#[test]
fn a_wait_is_planned_only_from_idle_and_running() {
    assert!(SchedulerState::Idle.plans_next(RunMode::Scheduled));
    assert!(SchedulerState::Running.plans_next(RunMode::Scheduled));
    assert!(!SchedulerState::Firing.plans_next(RunMode::Scheduled));
    assert!(!SchedulerState::Waiting { remaining: 2 }.plans_next(RunMode::Scheduled));
    assert!(!SchedulerState::Idle.plans_next(RunMode::OneShot));
    assert_eq!(plan(None), SchedulerState::Idle);
    assert_eq!(plan(Some(0)), SchedulerState::Firing);
    assert_eq!(plan(Some(5)), SchedulerState::Waiting { remaining: 5 });
}
