use backend_host::prober::{
    is_success_status, outcome_is_ok, wait_for_ready, ProbeOutcome, ProbeStep, Prober,
};

#[test]
fn ready_on_first_attempt_with_zero_delays() {
    // HTTP 200 on attempt 1: success after one attempt, no delay elapsed.
    let outcomes = vec![
        ProbeOutcome::Status(200),
        ProbeOutcome::Status(200),
        ProbeOutcome::Status(200),
    ];
    let r = wait_for_ready(&outcomes, 3);
    assert!(r.ready);
    assert_eq!(r.attempts, 1);
    assert_eq!(r.delays, 0);
}

#[test]
fn persistent_503_exhausts_three_attempts_with_two_delays() {
    // HTTP 503 on every attempt: exactly 3 requests, 2 delays, failure.
    let outcomes = vec![
        ProbeOutcome::Status(503),
        ProbeOutcome::Status(503),
        ProbeOutcome::Status(503),
    ];
    let r = wait_for_ready(&outcomes, 3);
    assert!(!r.ready);
    assert_eq!(r.attempts, 3);
    assert_eq!(r.delays, 2);
}

#[test]
fn stops_at_first_success_and_makes_no_more_attempts() {
    let outcomes = vec![
        ProbeOutcome::NoResponse,
        ProbeOutcome::Status(500),
        ProbeOutcome::Status(204),
        ProbeOutcome::Status(200),
        ProbeOutcome::Status(200),
    ];
    let r = wait_for_ready(&outcomes, 5);
    assert!(r.ready);
    assert_eq!(r.attempts, 3);
    assert_eq!(r.delays, 2);
}

#[test]
fn mixed_failures_exhaust_the_whole_budget() {
    let outcomes = vec![
        ProbeOutcome::NoResponse,
        ProbeOutcome::Status(500),
        ProbeOutcome::NoResponse,
        ProbeOutcome::Status(404),
    ];
    let r = wait_for_ready(&outcomes, 4);
    assert!(!r.ready);
    assert_eq!(r.attempts, 4);
    assert_eq!(r.delays, 3);
}

#[test]
fn single_attempt_budget_never_delays() {
    let ok = vec![ProbeOutcome::Status(200)];
    let r = wait_for_ready(&ok, 1);
    assert!(r.ready);
    assert_eq!(r.attempts, 1);
    assert_eq!(r.delays, 0);

    let bad = vec![ProbeOutcome::Status(503)];
    let r = wait_for_ready(&bad, 1);
    assert!(!r.ready);
    assert_eq!(r.attempts, 1);
    assert_eq!(r.delays, 0);
}

#[test]
fn success_statuses_are_exactly_the_2xx_range() {
    assert!(!is_success_status(199));
    assert!(is_success_status(200));
    assert!(is_success_status(204));
    assert!(is_success_status(299));
    assert!(!is_success_status(300));
    assert!(!is_success_status(404));
    assert!(!is_success_status(503));
}

#[test]
fn outcome_succeeds_only_on_2xx_responses() {
    assert!(outcome_is_ok(&ProbeOutcome::Status(200)));
    assert!(!outcome_is_ok(&ProbeOutcome::Status(503)));
    assert!(!outcome_is_ok(&ProbeOutcome::NoResponse));
}

#[test]
fn prober_steps_retry_then_stop_on_success() {
    let mut p = Prober::new(3);
    assert_eq!(
        p.record_outcome(&ProbeOutcome::NoResponse),
        ProbeStep::RetryAfterDelay
    );
    assert_eq!(
        p.record_outcome(&ProbeOutcome::Status(200)),
        ProbeStep::Ready
    );
}

#[test]
fn prober_gives_up_once_the_budget_is_spent() {
    let mut p = Prober::new(2);
    assert_eq!(
        p.record_outcome(&ProbeOutcome::Status(503)),
        ProbeStep::RetryAfterDelay
    );
    assert_eq!(
        p.record_outcome(&ProbeOutcome::Status(503)),
        ProbeStep::GiveUp
    );
}
