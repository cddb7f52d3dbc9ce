//! The decisions of the in-memory cron scheduler: which registered jobs get
//! a schedule, what each loop step does, and what a run is handed.

use vstd::prelude::*;

verus! {

broadcast use vstd::string::group_string_axioms;

/// `cron::Schedule`, a parsed cron expression; carried through as an
/// opaque value.
#[verifier::external_type_specification]
#[verifier::external_body]
pub struct ExCronSchedule(cron::Schedule);

/// The text of the error that parsing `expr` as a cron expression gives, or
/// `None` where it parses.
pub uninterp spec fn cron_parse_error(expr: Seq<char>) -> Option<Seq<char>>;

/// The schedule that parsing `expr` as a cron expression gives, where it
/// parses.
pub uninterp spec fn cron_schedule_of(expr: Seq<char>) -> cron::Schedule;

/// `Schedule::from_str` of `cron`, the error turned into its text. Claimed:
/// it fails exactly where `expr` does not parse, and then with the error's
/// text; otherwise it gives the schedule parsed from `expr`. All three are
/// named, not stated.
#[verifier::external_body]
fn parse_schedule(expr: &str) -> (r: Result<cron::Schedule, String>)
    ensures
        match r {
            Ok(s) => cron_parse_error(expr@) is None && s == cron_schedule_of(expr@),
            Err(e) => cron_parse_error(expr@) == Some(e@),
        },
{
    expr.parse::<cron::Schedule>().map_err(|e| e.to_string())
}

/// What becomes of a registered job at start-up.
#[derive(Debug)]
pub enum CronRegistration {
    /// The job has no cron expression: it is not scheduled.
    Skip,
    /// The job runs on this schedule.
    Schedule(cron::Schedule),
    /// The expression does not parse: start-up fails with this message.
    Invalid(String),
}

/// The message of a start-up failure on an invalid cron expression.
pub open spec fn invalid_cron_message(expr: Seq<char>, name: Seq<char>, error: Seq<char>) -> Seq<
    char,
> {
    "Invalid cron expression '"@ + expr + "' for job '"@ + name + "': "@ + error
}

/// The start-up decision for the job `name` with cron expression
/// `cron_expr`: skipped without an expression, scheduled where it parses,
/// and invalid otherwise.
pub fn cron_registration(name: &str, cron_expr: Option<&str>) -> (r: CronRegistration)
    ensures
        match cron_expr {
            None => r is Skip,
            Some(e) => match cron_parse_error(e@) {
                None => r matches CronRegistration::Schedule(sch) && sch == cron_schedule_of(e@),
                Some(msg) => r matches CronRegistration::Invalid(m) && m@ == invalid_cron_message(
                    e@,
                    name@,
                    msg,
                ),
            },
        },
{
    match cron_expr {
        None => CronRegistration::Skip,
        Some(e) => match parse_schedule(e) {
            Ok(s) => CronRegistration::Schedule(s),
            Err(msg) => {
                let m = String::from_str("Invalid cron expression '").concat(e).concat(
                    "' for job '",
                ).concat(name).concat("': ").concat(msg.as_str());
                CronRegistration::Invalid(m)
            },
        },
    }
}

/// What a cron run is handed: its job's name, the queue `cron`, the first
/// attempt, and no payload (`null`).
#[derive(Debug, Clone)]
pub struct CronRunContext {
    pub name: String,
    pub queue: String,
    pub attempt: u32,
    pub payload_json: String,
}

/// The context of one run of the cron job `name`.
pub fn cron_run_context(name: &str) -> (r: CronRunContext)
    ensures
        r.name@ == name@,
        r.queue@ == "cron"@,
        r.attempt == 1,
        r.payload_json@ == "null"@,
{
    CronRunContext {
        name: String::from_str(name),
        queue: String::from_str("cron"),
        attempt: 1,
        payload_json: String::from_str("null"),
    }
}

/// What ended a wait of the cron loop.
#[derive(Debug, Clone, Copy, PartialEq, Eq, Structural)]
pub enum CronEvent {
    /// Shutdown was requested.
    Cancelled,
    /// The fire time came.
    Fired,
}

/// What the cron loop does after a wait.
#[derive(Debug, Clone, Copy, PartialEq, Eq, Structural)]
pub enum CronAction {
    /// Leave the loop.
    Stop,
    /// Run the job once, then go on.
    RunJob,
}

/// The cron loop's answer to what ended its wait: the job runs only when its
/// fire time came; after a shutdown request it never runs again.
pub fn cron_on_event(event: CronEvent) -> (r: CronAction)
    ensures
        event == CronEvent::Cancelled <==> r == CronAction::Stop,
        event == CronEvent::Fired <==> r == CronAction::RunJob,
{
    match event {
        CronEvent::Cancelled => CronAction::Stop,
        CronEvent::Fired => CronAction::RunJob,
    }
}

/// What the cron loop does next.
#[derive(Debug, Clone, Copy, PartialEq, Eq, Structural)]
pub enum CronStep {
    /// The schedule has no further fire time: the loop ends.
    Stop,
    /// Sleep this many milliseconds, then run the job (unless cancelled).
    Wait(u64),
}

/// The wait until a fire time: zero when it has already passed.
pub open spec fn wait_millis(now_ms: i64, next_ms: i64) -> int {
    if next_ms > now_ms {
        next_ms - now_ms
    } else {
        0
    }
}

/// The step of the cron loop at time `now_ms` when the schedule's next fire
/// time (Unix milliseconds) is `next_ms`: stop when there is none, else wait
/// until it.
pub open spec fn cron_step(now_ms: i64, next_ms: Option<i64>) -> CronStep {
    match next_ms {
        None => CronStep::Stop,
        Some(n) => CronStep::Wait(wait_millis(now_ms, n) as u64),
    }
}

/// Waiting the computed time from `now_ms` reaches the fire time exactly
/// when it lies ahead; a fire time already passed is run at once. The wait
/// is never negative and never later than the fire time.
pub proof fn lemma_wait_reaches_fire_time(now_ms: i64, next_ms: i64)
    ensures
        wait_millis(now_ms, next_ms) >= 0,
        next_ms > now_ms ==> now_ms + wait_millis(now_ms, next_ms) == next_ms,
        next_ms <= now_ms ==> wait_millis(now_ms, next_ms) == 0,
        cron_step(now_ms, Some(next_ms)) == CronStep::Wait(wait_millis(now_ms, next_ms) as u64),
        wait_millis(now_ms, next_ms) <= u64::MAX,
{
}

/// The next step of the cron loop at time `now_ms`, given the schedule's
/// next fire time (Unix milliseconds), if any.
pub fn next_cron_step(now_ms: i64, next_ms: Option<i64>) -> (r: CronStep)
    ensures
        r == cron_step(now_ms, next_ms),
        next_ms is None ==> r == CronStep::Stop,
{
    match next_ms {
        None => CronStep::Stop,
        Some(n) => {
            if n > now_ms {
                let d: i128 = (n as i128) - (now_ms as i128);
                CronStep::Wait(d as u64)
            } else {
                CronStep::Wait(0)
            }
        },
    }
}

/// How a cron run ended.
#[derive(Debug, Clone, Copy, PartialEq, Eq, Structural)]
pub enum CronOutcome {
    Completed,
    Failed,
    TimedOut,
}

/// The outcome of a run: timed out when the time limit passed first, else
/// completed or failed by the handler's result.
pub fn cron_outcome(finished_in_time: bool, succeeded: bool) -> (r: CronOutcome)
    ensures
        !finished_in_time ==> r == CronOutcome::TimedOut,
        finished_in_time && succeeded ==> r == CronOutcome::Completed,
        finished_in_time && !succeeded ==> r == CronOutcome::Failed,
{
    if !finished_in_time {
        CronOutcome::TimedOut
    } else if succeeded {
        CronOutcome::Completed
    } else {
        CronOutcome::Failed
    }
}

/// The cron loop's step after a run of its job, at time `now_ms` with the
/// schedule's next fire time `next_ms`. Whatever the run's outcome
/// (completed, failed or timed out), the loop goes on as at its start: only
/// the schedule can end it.
pub fn cron_step_after_run(_outcome: CronOutcome, now_ms: i64, next_ms: Option<i64>) -> (r:
    CronStep)
    ensures
        r == cron_step(now_ms, next_ms),
        next_ms is Some ==> r is Wait,
{
    next_cron_step(now_ms, next_ms)
}

} // verus!
