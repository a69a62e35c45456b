//! Fixed endpoints and timing constants of the backend supervisor.

use vstd::prelude::*;

verus! {

/// TCP port on which the bundled backend serves HTTP.
pub const BACKEND_PORT: u16 = 5333;

/// Per-request timeout of one health probe, in milliseconds.
pub const PROBE_TIMEOUT_MS: u64 = 2000;

/// Pause between two consecutive probe attempts, in milliseconds.
pub const PROBE_DELAY_MS: u64 = 500;

/// Number of probe attempts the application makes at startup.
pub const DEFAULT_MAX_ATTEMPTS: u32 = 40;

/// Base URL under which the backend listens.
pub fn backend_url() -> (r: &'static str)
    ensures
        r@ == "http://localhost:5333"@,
{
    "http://localhost:5333"
}

/// Health-check route polled by the readiness prober; any 2xx answer counts
/// as ready, the body is ignored.
pub fn health_url() -> (r: &'static str)
    ensures
        r@ == "http://localhost:5333/api/health"@,
{
    "http://localhost:5333/api/health"
}

/// Upper bound, in milliseconds, on the time the probe loop can spend: every
/// attempt may run to its timeout, and a delay follows each attempt but the
/// last.
pub fn worst_case_wait_ms(max_attempts: u32) -> (r: u64)
    ensures
        max_attempts == 0 ==> r == 0,
        max_attempts >= 1 ==> r as int == (max_attempts as int) * (PROBE_TIMEOUT_MS + PROBE_DELAY_MS)
            - PROBE_DELAY_MS,
{
    if max_attempts == 0 {
        0
    } else {
        proof {
            assert(PROBE_TIMEOUT_MS + PROBE_DELAY_MS == 2500);
        }
        (max_attempts as u64) * 2500 - 500
    }
}

} // verus!
