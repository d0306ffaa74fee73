//! The two persistent records of the rate limiter: the singleton global
//! policy and the per-client counter bucket, with their well-formedness
//! conditions.

use vstd::prelude::*;

verus! {

/// A 32-byte caller identity, as attested by the authentication collaborator.
/// Held as two 128-bit halves so that equality is a plain field comparison.
#[derive(Clone, Copy, Debug, PartialEq, Eq, Hash, Structural)]
pub struct Identity {
    pub hi: u128,
    pub lo: u128,
}

/// The configurable limits of the policy, as supplied by the administrator.
#[derive(Clone, Copy, Debug, PartialEq, Eq, Structural)]
pub struct RateLimiterConfig {
    /// Sustained quota: requests allowed per window. Must be positive.
    pub max_requests: u64,
    /// Duration of one tumbling window, in seconds. Must be positive.
    pub window_seconds: i64,
    /// Burst ceiling, checked independently. Must be at least `max_requests`.
    pub burst_limit: u64,
}

impl RateLimiterConfig {
    /// The configuration invariant, enforced on every create and update.
    pub open spec fn valid(self) -> bool {
        &&& self.max_requests > 0
        &&& self.window_seconds > 0
        &&& self.burst_limit >= self.max_requests
    }
}

/// The singleton policy record: one instance per deployment, mutable only by
/// its administrator.
#[derive(Clone, Copy, Debug, PartialEq, Eq, Structural)]
pub struct GlobalConfig {
    /// The sole identity authorized to mutate this record and to override
    /// any client bucket.
    pub admin: Identity,
    /// Sustained quota: requests allowed per window.
    pub max_requests: u64,
    /// Duration of one tumbling window, in seconds.
    pub window_seconds: i64,
    /// Burst ceiling, checked independently of the sustained quota.
    pub burst_limit: u64,
    /// When set, no client may register or consume.
    pub is_paused: bool,
}

impl GlobalConfig {
    /// The limits of this record, seen as a configuration value.
    pub open spec fn limits(self) -> RateLimiterConfig {
        RateLimiterConfig {
            max_requests: self.max_requests,
            window_seconds: self.window_seconds,
            burst_limit: self.burst_limit,
        }
    }

    /// A policy record is well formed when its limits satisfy the
    /// configuration invariant. Creation and update enforce this, so every
    /// stored record satisfies it.
    pub open spec fn wf(self) -> bool {
        self.limits().valid()
    }
}

/// The per-client counter record: one instance per registered identity.
#[derive(Clone, Copy, Debug, PartialEq, Eq, Structural)]
pub struct ClientBucket {
    /// The client this bucket belongs to; immutable after registration.
    pub owner: Identity,
    /// Requests consumed in the current window.
    pub request_count: u64,
    /// Timestamp at which the current window started.
    pub window_start: i64,
    /// Lifetime request counter; never reset, never decreasing.
    pub total_requests: u64,
    /// When set by the administrator, all consumption is rejected.
    pub is_blocked: bool,
}

} // verus!
