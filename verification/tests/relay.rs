use backend_host::relay::{classify_event, relay_events, BackendEvent, RelayAction};

#[test]
fn three_events_are_processed_in_order_then_the_relay_exits() {
    // One stdout line, one stderr line, termination with exit code 0:
    // exactly three events processed, then the loop ends without error.
    let events = vec![
        BackendEvent::Stdout(b"listening".to_vec()),
        BackendEvent::Stderr(b"warming up".to_vec()),
        BackendEvent::Terminated(Some(0)),
    ];
    let r = relay_events(&events);
    assert_eq!(r.processed, 3);
    assert_eq!(r.stdout_lines, 1);
    assert_eq!(r.stderr_lines, 1);
    assert_eq!(r.failures, 0);
    assert!(r.terminated);
    assert_eq!(r.exit_code, Some(0));
}

#[test]
fn termination_is_terminal_and_later_events_are_not_processed() {
    let events = vec![
        BackendEvent::Stdout(b"one".to_vec()),
        BackendEvent::Terminated(Some(1)),
        BackendEvent::Stdout(b"late".to_vec()),
        BackendEvent::Stderr(b"late".to_vec()),
    ];
    let r = relay_events(&events);
    assert_eq!(r.processed, 2);
    assert_eq!(r.stdout_lines, 1);
    assert_eq!(r.stderr_lines, 0);
    assert!(r.terminated);
    assert_eq!(r.exit_code, Some(1));
}

#[test]
fn stream_without_termination_is_fully_consumed() {
    let events = vec![
        BackendEvent::Stdout(b"a".to_vec()),
        BackendEvent::Stdout(b"b".to_vec()),
        BackendEvent::Failure(String::from("pipe hiccup")),
    ];
    let r = relay_events(&events);
    assert_eq!(r.processed, 3);
    assert_eq!(r.stdout_lines, 2);
    assert_eq!(r.failures, 1);
    assert!(!r.terminated);
    assert_eq!(r.exit_code, None);
}

#[test]
fn failure_events_do_not_stop_the_relay() {
    let events = vec![
        BackendEvent::Failure(String::from("io error")),
        BackendEvent::Stdout(b"recovered".to_vec()),
        BackendEvent::Terminated(None),
    ];
    let r = relay_events(&events);
    assert_eq!(r.processed, 3);
    assert_eq!(r.failures, 1);
    assert_eq!(r.stdout_lines, 1);
    assert!(r.terminated);
    assert_eq!(r.exit_code, None);
}

#[test]
fn unknown_events_are_skipped_but_still_consumed() {
    let events = vec![
        BackendEvent::Other,
        BackendEvent::Stdout(b"x".to_vec()),
        BackendEvent::Terminated(Some(0)),
    ];
    let r = relay_events(&events);
    assert_eq!(r.processed, 3);
    assert_eq!(r.stdout_lines, 1);
    assert!(r.terminated);
}

#[test]
fn empty_stream_yields_an_empty_report() {
    let events: Vec<BackendEvent> = Vec::new();
    let r = relay_events(&events);
    assert_eq!(r.processed, 0);
    assert_eq!(r.stdout_lines, 0);
    assert_eq!(r.stderr_lines, 0);
    assert_eq!(r.failures, 0);
    assert!(!r.terminated);
    assert_eq!(r.exit_code, None);
}

#[test]
fn each_event_kind_maps_to_its_action() {
    assert_eq!(
        classify_event(&BackendEvent::Stdout(b"s".to_vec())),
        RelayAction::LogStdout
    );
    assert_eq!(
        classify_event(&BackendEvent::Stderr(b"e".to_vec())),
        RelayAction::LogStderr
    );
    assert_eq!(
        classify_event(&BackendEvent::Failure(String::from("f"))),
        RelayAction::LogFailure
    );
    assert_eq!(
        classify_event(&BackendEvent::Terminated(Some(0))),
        RelayAction::LogExitAndStop
    );
    assert_eq!(classify_event(&BackendEvent::Other), RelayAction::Skip);
}
