use modo::jobs::cron::{
    cron_on_event, cron_outcome, cron_registration, cron_run_context, cron_step_after_run,
    next_cron_step, CronAction,
    CronEvent, CronOutcome, CronRegistration, CronStep,
};

#[test]
fn cron_waits_until_next_fire() {
    assert_eq!(next_cron_step(1_000, Some(61_000)), CronStep::Wait(60_000));
    assert_eq!(next_cron_step(1_000, Some(500)), CronStep::Wait(0));
    assert_eq!(next_cron_step(1_000, None), CronStep::Stop);
    assert_eq!(next_cron_step(i64::MIN, Some(i64::MAX)), CronStep::Wait(u64::MAX));
}

#[test]
fn cron_outcomes() {
    assert_eq!(cron_outcome(false, true), CronOutcome::TimedOut);
    assert_eq!(cron_outcome(true, true), CronOutcome::Completed);
    assert_eq!(cron_outcome(true, false), CronOutcome::Failed);
}

#[test]
fn job_without_cron_expression_is_skipped() {
    assert!(matches!(cron_registration("cleanup", None), CronRegistration::Skip));
}

#[test]
fn valid_cron_expression_is_scheduled() {
    match cron_registration("cleanup", Some("0 */5 * * * *")) {
        CronRegistration::Schedule(s) => {
            assert_eq!(s.source(), "0 */5 * * * *");
            assert_eq!(s, "0 */5 * * * *".parse::<cron::Schedule>().unwrap());
        }
        _ => panic!("expected a schedule"),
    }
}

#[test]
fn invalid_cron_expression_is_rejected_with_message() {
    match cron_registration("cleanup", Some("not a cron")) {
        CronRegistration::Invalid(m) => {
            assert!(m.starts_with("Invalid cron expression 'not a cron' for job 'cleanup': "));
            assert!(m.len() > "Invalid cron expression 'not a cron' for job 'cleanup': ".len());
        }
        _ => panic!("expected an invalid registration"),
    }
}

#[test]
fn cron_run_context_is_first_attempt_on_cron_queue() {
    let ctx = cron_run_context("report");
    assert_eq!(ctx.name, "report");
    assert_eq!(ctx.queue, "cron");
    assert_eq!(ctx.attempt, 1);
    assert_eq!(ctx.payload_json, "null");
}

#[test]
fn cancellation_stops_the_loop_and_firing_runs_the_job() {
    assert_eq!(cron_on_event(CronEvent::Cancelled), CronAction::Stop);
    assert_eq!(cron_on_event(CronEvent::Fired), CronAction::RunJob);
}

#[test]
fn loop_goes_on_after_any_run_outcome() {
    for outcome in [CronOutcome::Completed, CronOutcome::Failed, CronOutcome::TimedOut] {
        assert_eq!(cron_step_after_run(outcome, 1_000, Some(3_000)), CronStep::Wait(2_000));
        assert_eq!(cron_step_after_run(outcome, 5_000, Some(3_000)), CronStep::Wait(0));
        assert_eq!(cron_step_after_run(outcome, 1_000, None), CronStep::Stop);
    }
}
