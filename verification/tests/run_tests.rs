use assistant_relay::run::{
    drive_polling, is_settled_status, outcome_notice, outcome_of_status, RunOutcome, RunPoller,
    RunStatus, MAX_STATUS_CHECKS, POLL_INTERVAL_SECS,
};

#[test]
fn polling_budget_is_five_checks_two_seconds_apart() {
    assert_eq!(MAX_STATUS_CHECKS, 5);
    assert_eq!(POLL_INTERVAL_SECS, 2);
}

#[test]
fn moving_statuses_keep_polling() {
    assert!(!is_settled_status(RunStatus::Queued));
    assert!(!is_settled_status(RunStatus::InProgress));
    assert!(!is_settled_status(RunStatus::Cancelling));
    assert!(is_settled_status(RunStatus::RequiresAction));
    assert!(is_settled_status(RunStatus::Cancelled));
    assert!(is_settled_status(RunStatus::Failed));
    assert!(is_settled_status(RunStatus::Expired));
    assert!(is_settled_status(RunStatus::Completed));
}

#[test]
fn run_stuck_in_progress_times_out_after_five_checks() {
    let statuses = vec![RunStatus::InProgress; 5];
    let (outcome, checks) = drive_polling(&statuses);
    assert_eq!(outcome, RunOutcome::TimedOut);
    assert_eq!(checks, 5);
}

#[test]
fn first_settled_status_ends_polling() {
    let statuses = vec![
        RunStatus::Queued,
        RunStatus::InProgress,
        RunStatus::Completed,
        RunStatus::InProgress,
        RunStatus::InProgress,
    ];
    let (outcome, checks) = drive_polling(&statuses);
    assert_eq!(outcome, RunOutcome::Completed);
    assert_eq!(checks, 3);
}

#[test]
fn immediate_failure_spends_one_check() {
    let statuses = vec![
        RunStatus::Failed,
        RunStatus::InProgress,
        RunStatus::InProgress,
        RunStatus::InProgress,
        RunStatus::InProgress,
    ];
    let (outcome, checks) = drive_polling(&statuses);
    assert_eq!(outcome, RunOutcome::Failed);
    assert_eq!(checks, 1);
}

#[test]
fn cancelling_is_not_terminal_but_cancelled_is() {
    let statuses = vec![
        RunStatus::Cancelling,
        RunStatus::Cancelling,
        RunStatus::Cancelled,
        RunStatus::InProgress,
        RunStatus::InProgress,
    ];
    let (outcome, checks) = drive_polling(&statuses);
    assert_eq!(outcome, RunOutcome::Cancelled);
    assert_eq!(checks, 3);
}

#[test]
fn each_settled_status_maps_to_its_outcome() {
    assert_eq!(
        outcome_of_status(RunStatus::RequiresAction),
        RunOutcome::RequiresAction
    );
    assert_eq!(outcome_of_status(RunStatus::Cancelled), RunOutcome::Cancelled);
    assert_eq!(outcome_of_status(RunStatus::Failed), RunOutcome::Failed);
    assert_eq!(outcome_of_status(RunStatus::Expired), RunOutcome::Expired);
    assert_eq!(outcome_of_status(RunStatus::Completed), RunOutcome::Completed);
}

#[test]
fn poller_counts_checks_and_times_out() {
    let mut p = RunPoller::new();
    for _ in 0..4 {
        assert_eq!(p.observe(RunStatus::InProgress), None);
    }
    assert_eq!(p.observe(RunStatus::InProgress), Some(RunOutcome::TimedOut));
}

#[test]
fn poller_settles_at_once_on_terminal_status() {
    let mut p = RunPoller::new();
    assert_eq!(p.observe(RunStatus::Queued), None);
    assert_eq!(p.observe(RunStatus::Expired), Some(RunOutcome::Expired));
}

#[test]
fn notices_are_fixed_nonempty_and_distinct() {
    let outcomes = [
        RunOutcome::RequiresAction,
        RunOutcome::Cancelled,
        RunOutcome::Failed,
        RunOutcome::Expired,
        RunOutcome::TimedOut,
    ];
    let texts: Vec<&str> = outcomes.iter().map(|o| outcome_notice(*o).unwrap()).collect();
    assert_eq!(texts[0], "Action required for OpenAI assistant");
    assert_eq!(texts[1], "Run is cancelled");
    assert_eq!(texts[2], "Run is failed");
    assert_eq!(texts[3], "Run is expired");
    assert_eq!(texts[4], "Timeout");
    for t in &texts {
        assert!(!t.is_empty());
    }
    for i in 0..texts.len() {
        for j in 0..texts.len() {
            if i != j {
                assert_ne!(texts[i], texts[j]);
            }
        }
    }
}

#[test]
fn completed_run_has_no_notice() {
    assert_eq!(outcome_notice(RunOutcome::Completed), None);
}
