//! The trigger: when the next cycle is due under a cron expression, how
//! long to wait for it, and the states that the waiting goes through.

use crate::cycle::CycleError;
use vstd::prelude::*;
use vstd::string::*;

verus! {

/// `cron::Schedule`, a cron expression as the cron crate has read it.
#[verifier::external_type_specification]
#[verifier::external_body]
pub struct ExSchedule(cron::Schedule);

/// Whether the cron crate reads `expression` as a schedule.
pub uninterp spec fn cron_accepts(expression: Seq<char>) -> bool;

/// The expression that a schedule was read from.
pub uninterp spec fn schedule_source(schedule: cron::Schedule) -> Seq<char>;

/// The first instant after `now` at which the schedule read from `source`
/// fires, in seconds since the epoch, UTC; nothing where it never fires
/// again.
pub uninterp spec fn cron_next_after(source: Seq<char>, now: i64) -> Option<i64>;

/// The earliest time that a fire instant is computed from: the start of the
/// year 1.
pub const MIN_TIMESTAMP: i64 = -62_135_596_800;

/// The latest time that a fire instant is computed from: the end of the
/// year 9999.
pub const MAX_TIMESTAMP: i64 = 253_402_300_799;

/// Whether `c` separates the fields of a cron expression.
pub open spec fn is_blank(c: char) -> bool {
    c == ' ' || c == '\t' || c == '\n' || c == '\r'
}

/// Whether a field starts at position `i` of `s`.
pub open spec fn starts_field(s: Seq<char>, i: int) -> bool {
    &&& 0 <= i < s.len()
    &&& !is_blank(s[i])
    &&& (i == 0 || is_blank(s[i - 1]))
}

/// The number of fields that start before position `n` of `s`.
pub open spec fn fields_before(s: Seq<char>, n: int) -> nat
    decreases n,
{
    if n <= 0 {
        0
    } else if starts_field(s, n - 1) {
        fields_before(s, n - 1) + 1
    } else {
        fields_before(s, n - 1)
    }
}

/// The number of fields of `s`: its stretches of characters between blanks.
pub open spec fn field_count(s: Seq<char>) -> nat {
    fields_before(s, s.len() as int)
}

/// The expression as it is handed to the cron crate. An expression of five
/// fields is a standard one, which starts with the minutes: it gets a
/// seconds field of `0` in front. Any other is handed on as it is.
pub open spec fn normalized(expression: Seq<char>) -> Seq<char> {
    if field_count(expression) == 5 {
        "0 "@ + expression
    } else {
        expression
    }
}

/// The seconds to wait at `now` for an instant: none for one that has
/// passed.
pub open spec fn wait_between(now: i64, fire: i64) -> int {
    if fire > now {
        fire - now
    } else {
        0
    }
}

/// The first instant after `now` at which the schedule read from `source`
/// fires. Nothing is computed from a time outside the years 1 to 9999.
pub open spec fn fire_after(source: Seq<char>, now: i64) -> Option<i64> {
    if MIN_TIMESTAMP <= now <= MAX_TIMESTAMP {
        cron_next_after(source, now)
    } else {
        None
    }
}

/// The seconds to wait at `now` for the next fire instant of the schedule
/// read from `source`.
pub open spec fn wait_after(source: Seq<char>, now: i64) -> Option<int> {
    match fire_after(source, now) {
        Some(fire) => Some(wait_between(now, fire)),
        None => None,
    }
}

/// Calls `str::parse` for a `cron::Schedule`: the schedule read from the
/// expression, which keeps the expression as its source, or nothing where
/// the expression is rejected.
#[verifier::external_body]
fn parse_schedule(expression: &str) -> (schedule: Option<cron::Schedule>)
    ensures
        match schedule {
            Some(s) => cron_accepts(expression@) && schedule_source(s) == expression@,
            None => !cron_accepts(expression@),
        },
{
    expression.parse::<cron::Schedule>().ok()
}

/// Calls `after` on the schedule with the time `now` in UTC, and takes the
/// first instant that it gives.
#[verifier::external_body]
fn schedule_next_after(schedule: &cron::Schedule, now: i64) -> (fire: Option<i64>)
    requires
        MIN_TIMESTAMP <= now <= MAX_TIMESTAMP,
    ensures
        fire == cron_next_after(schedule_source(*schedule), now),
{
    let start = chrono::DateTime::<chrono::Utc>::from_timestamp(now, 0)?;
    schedule.after(&start).next().map(|instant| instant.timestamp())
}

/// Whether `c` separates the fields of a cron expression.
pub fn char_is_blank(c: char) -> (r: bool)
    ensures
        r == is_blank(c),
{
    c == ' ' || c == '\t' || c == '\n' || c == '\r'
}

/// The number of fields of a cron expression.
pub fn count_fields(expression: &str) -> (count: usize)
    ensures
        count == field_count(expression@),
{
    let mut count: usize = 0;
    let mut i: usize = 0;
    let mut after_blank = true;
    let n: usize = expression.unicode_len();
    let mut it = expression.chars();
    for c in iter: it
        invariant
            iter.seq() == expression@,
            n == expression@.len(),
            i == iter.index(),
            i <= n,
            count <= i,
            count == fields_before(expression@, i as int),
            after_blank == (i == 0 || is_blank(expression@[i - 1])),
    {
        let blank = char_is_blank(c);
        if !blank && after_blank {
            count = count + 1;
        }
        after_blank = blank;
        i = i + 1;
    }
    count
}

/// The expression as it is handed to the cron crate.
pub fn normalize(expression: &str) -> (r: String)
    ensures
        r@ == normalized(expression@),
{
    if count_fields(expression) == 5 {
        let mut r = String::from_str("0 ");
        r.append(expression);
        r
    } else {
        String::from_str(expression)
    }
}

/// The seconds to wait at `now` for an instant: none for one that has
/// passed.
pub fn wait_seconds(now: i64, fire: i64) -> (seconds: u64)
    ensures
        seconds == wait_between(now, fire),
{
    if fire > now {
        (fire as i128 - now as i128) as u64
    } else {
        0
    }
}

/// A cron expression that could not be read.
#[derive(Debug)]
pub struct ScheduleError {
    pub expression: String,
}

impl ScheduleError {
    /// The message that names the expression.
    pub fn message(&self) -> (r: String)
        ensures
            r@ == "Invalid cron expression: "@ + self.expression@,
    {
        let mut r = String::from_str("Invalid cron expression: ");
        r.append(self.expression.as_str());
        r
    }
}

/// A named action with the schedule on which it is due.
pub struct ScheduledTask<F> {
    pub name: String,
    pub schedule: cron::Schedule,
    pub task: F,
}

impl<F: Fn() -> Result<(), CycleError>> ScheduledTask<F> {
    /// Reads the expression and keeps the action for it. An expression that
    /// the cron crate rejects is reported, as it was given.
    pub fn new(name: &str, cron_expression: &str, task: F) -> (r: Result<Self, ScheduleError>)
        ensures
            match r {
                Ok(scheduled) => cron_accepts(normalized(cron_expression@)) && scheduled.name@
                    == name@ && scheduled.source() == normalized(cron_expression@)
                    && scheduled.task == task,
                Err(error) => !cron_accepts(normalized(cron_expression@)) && error.expression@
                    == cron_expression@,
            },
    {
        let expression = normalize(cron_expression);
        match parse_schedule(expression.as_str()) {
            Some(schedule) => Ok(ScheduledTask { name: String::from_str(name), schedule, task }),
            None => Err(ScheduleError { expression: String::from_str(cron_expression) }),
        }
    }

    /// Runs the action once and returns what it returned.
    pub fn run(&self) -> (r: Result<(), CycleError>)
        requires
            call_requires(self.task, ()),
        ensures
            call_ensures(self.task, (), r),
    {
        (self.task)()
    }
}

impl<F> ScheduledTask<F> {
    /// The expression that the schedule was read from.
    pub open spec fn source(&self) -> Seq<char> {
        schedule_source(self.schedule)
    }

    /// The first instant after `now` at which the task is due, in seconds
    /// since the epoch, UTC.
    pub fn next_fire(&self, now: i64) -> (fire: Option<i64>)
        ensures
            fire == fire_after(self.source(), now),
    {
        if now < MIN_TIMESTAMP || now > MAX_TIMESTAMP {
            return None;
        }
        schedule_next_after(&self.schedule, now)
    }

    /// The seconds to wait at `now` until the task is next due: none where
    /// the instant has passed already.
    pub fn wait(&self, now: i64) -> (seconds: Option<u64>)
        ensures
            match seconds {
                Some(s) => wait_after(self.source(), now) == Some(s as int),
                None => wait_after(self.source(), now) is None,
            },
    {
        match self.next_fire(now) {
            Some(fire) => Some(wait_seconds(now, fire)),
            None => None,
        }
    }
}

/// How the worker was asked to run.
#[derive(Debug, Clone, Copy, PartialEq, Eq)]
pub enum RunMode {
    /// Cycle after cycle, each when the schedule says so.
    Scheduled,
    /// One cycle at once, whatever the schedule says.
    OneShot,
}

/// Where the trigger stands.
#[derive(Debug, Clone, Copy, PartialEq, Eq)]
pub enum SchedulerState {
    /// Nothing is planned yet.
    Idle,
    /// A cycle is due after `remaining` more increments of waiting.
    Waiting { remaining: u64 },
    /// The fire instant is reached.
    Firing,
    /// The cycle runs.
    Running,
    /// The worker was told to stop.
    Stopped,
}

/// What the process does while the trigger stands in a state, before it
/// asks for the next state.
#[derive(Debug, Clone, Copy, PartialEq, Eq)]
pub enum SchedulerAction {
    /// Nothing.
    Proceed,
    /// Sleep for one increment, of a second at most.
    Sleep,
    /// Run one cycle to its end and log its error, if any.
    RunCycle,
    /// Leave the loop.
    Exit,
}

/// The state that a wait of the given seconds starts in: `Firing` where
/// there is nothing to wait for, `Idle` where no instant is known.
pub open spec fn planned(wait: Option<int>) -> SchedulerState {
    match wait {
        None => SchedulerState::Idle,
        Some(seconds) => if seconds <= 0 {
            SchedulerState::Firing
        } else {
            SchedulerState::Waiting { remaining: seconds as u64 }
        },
    }
}

/// The state that follows `state`. `cancelled` is what the cancellation
/// token holds now, and `wait` the seconds until the next fire instant as
/// computed now; the wait is looked at only where a new wait is planned.
pub open spec fn next_state(
    mode: RunMode,
    state: SchedulerState,
    cancelled: bool,
    wait: Option<int>,
) -> SchedulerState {
    match state {
        SchedulerState::Stopped => SchedulerState::Stopped,
        SchedulerState::Firing => SchedulerState::Running,
        SchedulerState::Idle => match mode {
            RunMode::OneShot => SchedulerState::Firing,
            RunMode::Scheduled => if cancelled {
                SchedulerState::Stopped
            } else {
                planned(wait)
            },
        },
        SchedulerState::Running => match mode {
            RunMode::OneShot => SchedulerState::Stopped,
            RunMode::Scheduled => if cancelled {
                SchedulerState::Stopped
            } else {
                planned(wait)
            },
        },
        SchedulerState::Waiting { remaining } => if cancelled || mode == RunMode::OneShot {
            SchedulerState::Stopped
        } else if remaining <= 1 {
            SchedulerState::Firing
        } else {
            SchedulerState::Waiting { remaining: (remaining - 1) as u64 }
        },
    }
}

/// The states that a one-shot run goes through from `Idle` after `steps`
/// steps.
pub open spec fn one_shot_state(steps: nat) -> SchedulerState
    decreases steps,
{
    if steps == 0 {
        SchedulerState::Idle
    } else {
        next_state(RunMode::OneShot, one_shot_state((steps - 1) as nat), false, None)
    }
}

impl SchedulerState {
    /// What the process does while the trigger stands in this state.
    pub open spec fn action_of(self) -> SchedulerAction {
        match self {
            SchedulerState::Idle | SchedulerState::Firing => SchedulerAction::Proceed,
            SchedulerState::Waiting { remaining } => SchedulerAction::Sleep,
            SchedulerState::Running => SchedulerAction::RunCycle,
            SchedulerState::Stopped => SchedulerAction::Exit,
        }
    }

    /// What the process does while the trigger stands in this state.
    pub fn action(self) -> (r: SchedulerAction)
        ensures
            r == self.action_of(),
    {
        match self {
            SchedulerState::Idle | SchedulerState::Firing => SchedulerAction::Proceed,
            SchedulerState::Waiting { remaining } => SchedulerAction::Sleep,
            SchedulerState::Running => SchedulerAction::RunCycle,
            SchedulerState::Stopped => SchedulerAction::Exit,
        }
    }

    /// Whether a new wait is planned from this state, so that the time until
    /// the next fire instant is needed for the step.
    pub fn plans_next(self, mode: RunMode) -> (r: bool)
        ensures
            r == (mode == RunMode::Scheduled && (self == SchedulerState::Idle || self
                == SchedulerState::Running)),
    {
        match mode {
            RunMode::OneShot => false,
            RunMode::Scheduled => match self {
                SchedulerState::Idle | SchedulerState::Running => true,
                _ => false,
            },
        }
    }

    /// The state that follows this one.
    pub fn step(self, mode: RunMode, cancelled: bool, wait: Option<u64>) -> (next: SchedulerState)
        ensures
            next == next_state(
                mode,
                self,
                cancelled,
                match wait {
                    Some(seconds) => Some(seconds as int),
                    None => None,
                },
            ),
    {
        let one_shot = match mode {
            RunMode::OneShot => true,
            RunMode::Scheduled => false,
        };
        match self {
            SchedulerState::Stopped => SchedulerState::Stopped,
            SchedulerState::Firing => SchedulerState::Running,
            SchedulerState::Idle => if one_shot {
                SchedulerState::Firing
            } else if cancelled {
                SchedulerState::Stopped
            } else {
                plan(wait)
            },
            SchedulerState::Running => if one_shot || cancelled {
                SchedulerState::Stopped
            } else {
                plan(wait)
            },
            SchedulerState::Waiting { remaining } => if cancelled || one_shot {
                SchedulerState::Stopped
            } else if remaining <= 1 {
                SchedulerState::Firing
            } else {
                SchedulerState::Waiting { remaining: remaining - 1 }
            },
        }
    }
}

/// The state that a wait of the given seconds starts in.
pub fn plan(wait: Option<u64>) -> (state: SchedulerState)
    ensures
        state == planned(
            match wait {
                Some(seconds) => Some(seconds as int),
                None => None,
            },
        ),
{
    match wait {
        None => SchedulerState::Idle,
        Some(seconds) => if seconds == 0 {
            SchedulerState::Firing
        } else {
            SchedulerState::Waiting { remaining: seconds }
        },
    }
}

impl<F> ScheduledTask<F> {
    /// The state that follows `state` at the time `now`, with `cancelled`
    /// as the cancellation token holds it: the next fire instant is taken
    /// from the task's schedule.
    pub fn advance(&self, state: SchedulerState, cancelled: bool, now: i64) -> (next:
        SchedulerState)
        ensures
            next == next_state(
                RunMode::Scheduled,
                state,
                cancelled,
                wait_after(self.source(), now),
            ),
    {
        if state.plans_next(RunMode::Scheduled) && !cancelled {
            state.step(RunMode::Scheduled, cancelled, self.wait(now))
        } else {
            state.step(RunMode::Scheduled, cancelled, None)
        }
    }
}

/// An instant that has passed is not waited for: the cycle fires at once.
pub proof fn lemma_past_instant_fires_at_once(now: i64, fire: i64)
    requires
        fire <= now,
    ensures
        wait_between(now, fire) == 0,
        planned(Some(wait_between(now, fire))) == SchedulerState::Firing,
{
}

/// A wait is never negative, and it ends at the instant waited for.
pub proof fn lemma_wait_reaches_instant(now: i64, fire: i64)
    ensures
        wait_between(now, fire) >= 0,
        fire >= now ==> now + wait_between(now, fire) == fire,
{
}

/// Cancellation during a wait stops the trigger at the next increment, and
/// a stopped trigger stays stopped: the pending cycle is never run.
pub proof fn lemma_cancellation_stops_wait(
    mode: RunMode,
    remaining: u64,
    wait: Option<int>,
    later_cancelled: bool,
    later_wait: Option<int>,
)
    ensures
        next_state(mode, SchedulerState::Waiting { remaining }, true, wait)
            == SchedulerState::Stopped,
        next_state(mode, SchedulerState::Stopped, later_cancelled, later_wait)
            == SchedulerState::Stopped,
        SchedulerState::Stopped.action_of() == SchedulerAction::Exit,
{
}

/// A cycle runs only from `Firing`: no state but `Firing` is followed by
/// `Running`, whatever the token and the clock say.
pub proof fn lemma_running_follows_firing(
    mode: RunMode,
    state: SchedulerState,
    cancelled: bool,
    wait: Option<int>,
)
    ensures
        next_state(mode, state, cancelled, wait) == SchedulerState::Running <==> state
            == SchedulerState::Firing,
        next_state(mode, state, cancelled, wait).action_of() == SchedulerAction::RunCycle
            <==> state == SchedulerState::Firing,
{
}

/// A cycle that was started is not interrupted, and what follows it does
/// not depend on how it ended: the trigger plans the next wait from the
/// time at which the cycle returned, or stops.
pub proof fn lemma_after_a_cycle(cancelled: bool, wait: Option<int>)
    ensures
        next_state(RunMode::Scheduled, SchedulerState::Firing, cancelled, wait)
            == SchedulerState::Running,
        next_state(RunMode::Scheduled, SchedulerState::Running, true, wait)
            == SchedulerState::Stopped,
        next_state(RunMode::Scheduled, SchedulerState::Running, false, wait) == planned(wait),
{
}

/// A one-shot run fires at once, runs one cycle and stops: it goes from
/// `Idle` through `Firing` and `Running` to `Stopped`, stays there, and
/// never waits.
pub proof fn lemma_one_shot_runs_once(steps: nat)
    ensures
        one_shot_state(0) == SchedulerState::Idle,
        one_shot_state(1) == SchedulerState::Firing,
        one_shot_state(2) == SchedulerState::Running,
        steps >= 3 ==> one_shot_state(steps) == SchedulerState::Stopped,
        !(one_shot_state(steps) is Waiting),
    decreases steps,
{
    reveal_with_fuel(one_shot_state, 4);
    if steps > 3 {
        lemma_one_shot_runs_once((steps - 1) as nat);
    }
}

/// In a one-shot run neither the token nor the clock is looked at.
pub proof fn lemma_one_shot_ignores_token_and_clock(
    state: SchedulerState,
    cancelled: bool,
    wait: Option<int>,
)
    ensures
        next_state(RunMode::OneShot, state, cancelled, wait) == next_state(
            RunMode::OneShot,
            state,
            false,
            None,
        ),
{
}

} // verus!
