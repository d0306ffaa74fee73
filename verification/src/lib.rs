//! A multi-tenant request-rate limiter: a global policy record, per-client
//! counter buckets, and the transition logic that decides admission under a
//! tumbling time window, a sustained quota, and a burst ceiling, with
//! administrative pause, reset, and block overrides.
//!
//! The caller-facing environment (authentication, durable storage, the clock)
//! is a collaborator: operations here take the authenticated caller identity
//! and the current time as plain values and return the new record state or a
//! typed error.

pub mod errors;
pub mod state;
pub mod ops;
pub mod laws;

pub use errors::RateLimiterError;
pub use state::ClientBucket;
pub use state::GlobalConfig;
pub use state::Identity;
pub use state::RateLimiterConfig;
pub use ops::block_client;
pub use ops::consume_request;
pub use ops::initialize;
pub use ops::register_client;
pub use ops::reset_client;
pub use ops::toggle_pause;
pub use ops::update_config;
