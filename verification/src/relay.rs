//! Output relay: the decision logic of the loop that consumes the backend
//! subprocess's event stream and surfaces each event until the process
//! terminates.
//!
//! The caller reads events from the child's output channel and hands each one
//! in as a [`BackendEvent`]; [`classify_event`] says what to do with it, and
//! [`relay_events`] runs the whole loop over a recorded stream.

use vstd::prelude::*;

verus! {

/// One event from the backend subprocess's output channel.
pub enum BackendEvent {
    /// A line the child wrote to its standard output.
    Stdout(Vec<u8>),
    /// A line the child wrote to its standard error.
    Stderr(Vec<u8>),
    /// A spawn or I/O failure reported on the channel; not terminal.
    Failure(String),
    /// The child exited, with its exit code when one is known; terminal.
    Terminated(Option<i32>),
    /// An event kind the relay does not act on.
    Other,
}

/// What the relay does with one event.
#[derive(Clone, Copy, Debug, PartialEq, Eq, Structural)]
pub enum RelayAction {
    /// Log the line at info level, prefixed as backend output.
    LogStdout,
    /// Log the line at error level, prefixed as backend output.
    LogStderr,
    /// Log the failure at error level; the relay keeps running.
    LogFailure,
    /// Log the exit code and stop: termination ends the relay.
    LogExitAndStop,
    /// Nothing to do.
    Skip,
}

/// The action the relay takes on one event.
pub open spec fn spec_classify(e: BackendEvent) -> RelayAction {
    match e {
        BackendEvent::Stdout(_) => RelayAction::LogStdout,
        BackendEvent::Stderr(_) => RelayAction::LogStderr,
        BackendEvent::Failure(_) => RelayAction::LogFailure,
        BackendEvent::Terminated(_) => RelayAction::LogExitAndStop,
        BackendEvent::Other => RelayAction::Skip,
    }
}

/// Whether an event ends the relay loop.
pub open spec fn is_terminal(e: BackendEvent) -> bool {
    e is Terminated
}

/// Decide what to do with one event from the child's output channel.
pub fn classify_event(e: &BackendEvent) -> (a: RelayAction)
    ensures
        a == spec_classify(*e),
{
    match e {
        BackendEvent::Stdout(_) => RelayAction::LogStdout,
        BackendEvent::Stderr(_) => RelayAction::LogStderr,
        BackendEvent::Failure(_) => RelayAction::LogFailure,
        BackendEvent::Terminated(_) => RelayAction::LogExitAndStop,
        BackendEvent::Other => RelayAction::Skip,
    }
}

/// Number of events the relay consumes when `events[i..]` remain: everything
/// up to and including the first termination notice, or the whole stream when
/// none arrives.
pub open spec fn relay_len_from(events: Seq<BackendEvent>, i: int) -> int
    decreases events.len() - i,
{
    if i >= events.len() {
        0
    } else if is_terminal(events[i]) {
        1
    } else {
        1 + relay_len_from(events, i + 1)
    }
}

/// Whether a termination notice stops the relay.
pub open spec fn relay_terminates_from(events: Seq<BackendEvent>, i: int) -> bool
    decreases events.len() - i,
{
    i < events.len() && (is_terminal(events[i]) || relay_terminates_from(events, i + 1))
}

/// Exit code carried by the termination notice that stops the relay, if any.
pub open spec fn relay_exit_code_from(events: Seq<BackendEvent>, i: int) -> Option<i32>
    decreases events.len() - i,
{
    if i >= events.len() {
        None
    } else {
        match events[i] {
            BackendEvent::Terminated(code) => code,
            _ => relay_exit_code_from(events, i + 1),
        }
    }
}

/// Standard-output lines among the first `n` events.
pub open spec fn stdout_count(events: Seq<BackendEvent>, n: int) -> int
    decreases n,
{
    if n <= 0 {
        0
    } else {
        stdout_count(events, n - 1) + if events[n - 1] is Stdout {
            1int
        } else {
            0int
        }
    }
}

/// Standard-error lines among the first `n` events.
pub open spec fn stderr_count(events: Seq<BackendEvent>, n: int) -> int
    decreases n,
{
    if n <= 0 {
        0
    } else {
        stderr_count(events, n - 1) + if events[n - 1] is Stderr {
            1int
        } else {
            0int
        }
    }
}

/// Failure events among the first `n` events.
pub open spec fn failure_count(events: Seq<BackendEvent>, n: int) -> int
    decreases n,
{
    if n <= 0 {
        0
    } else {
        failure_count(events, n - 1) + if events[n - 1] is Failure {
            1int
        } else {
            0int
        }
    }
}

/// Summary of one relay run.
#[derive(Clone, Copy, Debug, PartialEq, Eq)]
pub struct RelayReport {
    /// Events consumed, the termination notice included.
    pub processed: usize,
    /// Standard-output lines logged.
    pub stdout_lines: usize,
    /// Standard-error lines logged.
    pub stderr_lines: usize,
    /// Failure events logged; none of them stopped the relay.
    pub failures: usize,
    /// Whether a termination notice ended the run.
    pub terminated: bool,
    /// The exit code that notice carried, when one was known.
    pub exit_code: Option<i32>,
}

/// Consume events in order, counting what the relay logs, and stop at the
/// first termination notice; events after it are not processed. Without a
/// termination notice the whole stream is consumed.
pub fn relay_events(events: &Vec<BackendEvent>) -> (r: RelayReport)
    ensures
        r.processed == relay_len_from(events@, 0),
        r.terminated == relay_terminates_from(events@, 0),
        r.exit_code == relay_exit_code_from(events@, 0),
        r.stdout_lines == stdout_count(events@, r.processed as int),
        r.stderr_lines == stderr_count(events@, r.processed as int),
        r.failures == failure_count(events@, r.processed as int),
        r.processed <= events@.len(),
{
    let n = events.len();
    let mut i: usize = 0;
    let mut stdout_lines: usize = 0;
    let mut stderr_lines: usize = 0;
    let mut failures: usize = 0;
    while i < n
        invariant
            i <= n,
            n == events@.len(),
            stdout_lines <= i,
            stderr_lines <= i,
            failures <= i,
            relay_len_from(events@, 0) == i + relay_len_from(events@, i as int),
            relay_terminates_from(events@, 0) == relay_terminates_from(events@, i as int),
            relay_exit_code_from(events@, 0) == relay_exit_code_from(events@, i as int),
            stdout_lines == stdout_count(events@, i as int),
            stderr_lines == stderr_count(events@, i as int),
            failures == failure_count(events@, i as int),
        decreases n - i,
    {
        let action = classify_event(&events[i]);
        match action {
            RelayAction::LogStdout => {
                stdout_lines = stdout_lines + 1;
            },
            RelayAction::LogStderr => {
                stderr_lines = stderr_lines + 1;
            },
            RelayAction::LogFailure => {
                failures = failures + 1;
            },
            RelayAction::LogExitAndStop => {
                let code = match &events[i] {
                    BackendEvent::Terminated(c) => *c,
                    _ => None,
                };
                return RelayReport {
                    processed: i + 1,
                    stdout_lines,
                    stderr_lines,
                    failures,
                    terminated: true,
                    exit_code: code,
                };
            },
            RelayAction::Skip => {},
        }
        i = i + 1;
    }
    RelayReport {
        processed: i,
        stdout_lines,
        stderr_lines,
        failures,
        terminated: false,
        exit_code: None,
    }
}

} // verus!
