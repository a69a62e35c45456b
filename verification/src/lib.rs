//! Host-side logic for supervising a bundled backend service: a bounded
//! readiness probe against the backend's health endpoint, a relay that
//! classifies the backend's output events until termination, the record of
//! the spawned process id, and the window-lifecycle and setup-error rules.
//!
//! The library holds the decisions; the surrounding application performs the
//! I/O (spawning the process, sending HTTP requests, sleeping, logging) and
//! feeds the observed outcomes back in as plain values.

pub mod config;
pub mod lifecycle;
pub mod prober;
pub mod relay;
pub mod state;
