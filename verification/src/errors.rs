//! The typed failures an operation can return. Every failure is an expected,
//! recoverable outcome surfaced verbatim to the caller; none is process-fatal.

use vstd::prelude::*;

verus! {

/// Why an operation was refused. Checks are made in a fixed order per
/// operation, so each refusal names the first condition that failed.
#[derive(Clone, Copy, Debug, PartialEq, Eq, Structural)]
pub enum RateLimiterError {
    /// The sustained per-window quota (`max_requests`) is spent.
    RateLimitExceeded,
    /// The burst ceiling (`burst_limit`) is spent.
    BurstLimitExceeded,
    /// The administrator has blocked this client.
    ClientBlocked,
    /// The global pause flag is set.
    ProgramPaused,
    /// The caller is neither the required administrator nor the bucket owner.
    Unauthorized,
    /// The configuration violates `max_requests > 0`, `window_seconds > 0`,
    /// or `burst_limit >= max_requests`.
    InvalidConfig,
}

} // verus!
