//! Window-lifecycle and fatal-setup rules: when the close handler announces
//! the coming shutdown, and the messages of the errors that abort application
//! setup.

use vstd::prelude::*;

verus! {

/// A window lifecycle notification, reduced to what the close handler reads.
pub enum WindowNotice {
    /// The user asked to close the main window.
    CloseRequested,
    /// Any other window event.
    Other,
}

/// The close handler reacts exactly to a close request.
pub open spec fn spec_announces_shutdown(e: WindowNotice) -> bool {
    e is CloseRequested
}

/// Decide whether a window notification makes the handler log the shutdown
/// notice. The handler logs only; it performs no termination itself, the host
/// runtime tears the child down when the parent exits.
pub fn announces_shutdown(e: &WindowNotice) -> (r: bool)
    ensures
        r == spec_announces_shutdown(*e),
{
    match e {
        WindowNotice::CloseRequested => true,
        WindowNotice::Other => false,
    }
}

/// The notice logged when the main window is closing.
pub fn closing_message() -> (r: &'static str)
    ensures
        r@ == "Closing application, backend will be shut down"@,
{
    "Closing application, backend will be shut down"
}

/// A failure that aborts application setup with a fatal error, before any
/// window is shown: the application does not start.
pub enum SetupError {
    /// The HTTP client for the readiness probe could not be built.
    HttpClient,
    /// The bundled backend executable could not be located.
    SidecarCommand,
    /// The backend process could not be spawned.
    Spawn,
}

impl SetupError {
    /// Descriptive prefix of the fatal setup message; the caller appends the
    /// underlying cause.
    pub fn message_prefix(&self) -> (r: &'static str)
        ensures
            *self is HttpClient ==> r@ == "Failed to create HTTP client: "@,
            *self is SidecarCommand ==> r@ == "Failed to create sidecar command: "@,
            *self is Spawn ==> r@ == "Failed to spawn backend: "@,
    {
        match self {
            SetupError::HttpClient => "Failed to create HTTP client: ",
            SetupError::SidecarCommand => "Failed to create sidecar command: ",
            SetupError::Spawn => "Failed to spawn backend: ",
        }
    }
}

/// Message logged when the probe gives up: the failure is reported, not
/// fatal, and the probe is not retried.
pub fn probe_failure_message() -> (r: &'static str)
    ensures
        r@ == "Backend failed to start within timeout period"@,
{
    "Backend failed to start within timeout period"
}

} // verus!
