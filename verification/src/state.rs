//! The one piece of shared state: the record of the backend child process.

use vstd::prelude::*;

verus! {

/// Record of the spawned backend process. At most one process id is tracked
/// at a time; absence means the backend was not started yet or is not
/// tracked, the two being indistinguishable. The id is written once, on a
/// successful spawn, and never cleared.
pub struct BackendState {
    pid: Option<u32>,
}

impl BackendState {
    /// The tracked process id, if any.
    pub closed spec fn pid_spec(self) -> Option<u32> {
        self.pid
    }

    /// A fresh state that tracks no process.
    pub fn new() -> (r: BackendState)
        ensures
            r.pid_spec() is None,
    {
        BackendState { pid: None }
    }

    /// Record the id of the newly spawned backend. The id is written exactly
    /// once, so no process may be tracked yet.
    pub fn record_spawn(&mut self, pid: u32)
        requires
            old(self).pid_spec() is None,
        ensures
            final(self).pid_spec() == Some(pid),
    {
        self.pid = Some(pid);
    }

    /// Read the tracked process id.
    pub fn current_pid(&self) -> (r: Option<u32>)
        ensures
            r == self.pid_spec(),
    {
        self.pid
    }
}

} // verus!
