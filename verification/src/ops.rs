//! The operations of the rate limiter. Each executable operation is specified
//! against a spec-level transition function of the same name, so that its
//! entire effect — the result and the new record state — is pinned down.

use vstd::prelude::*;
use crate::errors::RateLimiterError;
use crate::state::ClientBucket;
use crate::state::GlobalConfig;
use crate::state::Identity;
use crate::state::RateLimiterConfig;

verus! {

/// What `initialize` produces: the policy record for a valid configuration,
/// `InvalidConfig` otherwise. The pause flag always starts cleared.
pub open spec fn spec_initialize(admin: Identity, config: RateLimiterConfig) -> Result<
    GlobalConfig,
    RateLimiterError,
> {
    if config.valid() {
        Ok(
            GlobalConfig {
                admin,
                max_requests: config.max_requests,
                window_seconds: config.window_seconds,
                burst_limit: config.burst_limit,
                is_paused: false,
            },
        )
    } else {
        Err(RateLimiterError::InvalidConfig)
    }
}

/// Creates the singleton policy record for a deployment. The storage
/// collaborator guarantees this runs at most once per deployment.
pub fn initialize(admin: Identity, config: &RateLimiterConfig) -> (r: Result<
    GlobalConfig,
    RateLimiterError,
>)
    ensures
        r == spec_initialize(admin, *config),
{
    if config.max_requests == 0 {
        return Err(RateLimiterError::InvalidConfig);
    }
    if config.window_seconds <= 0 {
        return Err(RateLimiterError::InvalidConfig);
    }
    if config.burst_limit < config.max_requests {
        return Err(RateLimiterError::InvalidConfig);
    }
    Ok(
        GlobalConfig {
            admin,
            max_requests: config.max_requests,
            window_seconds: config.window_seconds,
            burst_limit: config.burst_limit,
            is_paused: false,
        },
    )
}

/// What `register_client` produces: a fresh bucket for the owner, unless the
/// deployment is paused.
pub open spec fn spec_register_client(config: GlobalConfig, owner: Identity, now: i64) -> Result<
    ClientBucket,
    RateLimiterError,
> {
    if config.is_paused {
        Err(RateLimiterError::ProgramPaused)
    } else {
        Ok(
            ClientBucket {
                owner,
                request_count: 0,
                window_start: now,
                total_requests: 0,
                is_blocked: false,
            },
        )
    }
}

/// Creates the bucket for a newly registered client, with its window starting
/// now. The storage collaborator guarantees at most one bucket per identity.
pub fn register_client(config: &GlobalConfig, owner: Identity, now: i64) -> (r: Result<
    ClientBucket,
    RateLimiterError,
>)
    ensures
        r == spec_register_client(*config, owner, now),
{
    if config.is_paused {
        return Err(RateLimiterError::ProgramPaused);
    }
    Ok(
        ClientBucket {
            owner,
            request_count: 0,
            window_start: now,
            total_requests: 0,
            is_blocked: false,
        },
    )
}

/// Whether the bucket's window has elapsed at `now`, so that the next
/// consumption attempt first resets it.
pub open spec fn spec_window_elapsed(config: GlobalConfig, bucket: ClientBucket, now: i64) -> bool {
    now >= bucket.window_start + config.window_seconds
}

/// What `consume_request` does to a bucket: the bucket afterwards, paired
/// with the result handed to the caller.
///
/// Checks run in a fixed order — ownership, pause, block — then the window
/// rollover is applied, then the quota checks run against the rolled-over
/// count. A quota rejection therefore still keeps the rollover: that is the
/// one observable mutation a failed call may leave.
pub open spec fn spec_consume_request(
    config: GlobalConfig,
    bucket: ClientBucket,
    caller: Identity,
    now: i64,
) -> (ClientBucket, Result<(), RateLimiterError>) {
    if caller != bucket.owner {
        (bucket, Err(RateLimiterError::Unauthorized))
    } else if config.is_paused {
        (bucket, Err(RateLimiterError::ProgramPaused))
    } else if bucket.is_blocked {
        (bucket, Err(RateLimiterError::ClientBlocked))
    } else {
        let rolled = spec_window_elapsed(config, bucket, now);
        let count: u64 = if rolled { 0u64 } else { bucket.request_count };
        let start: i64 = if rolled { now } else { bucket.window_start };
        let after_roll = ClientBucket {
            owner: bucket.owner,
            request_count: count,
            window_start: start,
            total_requests: bucket.total_requests,
            is_blocked: false,
        };
        if count >= config.max_requests {
            (after_roll, Err(RateLimiterError::RateLimitExceeded))
        } else if count >= config.burst_limit {
            (after_roll, Err(RateLimiterError::BurstLimitExceeded))
        } else {
            (
                ClientBucket {
                    owner: bucket.owner,
                    request_count: (count + 1) as u64,
                    window_start: start,
                    total_requests: (bucket.total_requests + 1) as u64,
                    is_blocked: false,
                },
                Ok(()),
            )
        }
    }
}

/// The central admission transition: under the current policy, decides
/// whether the owner of `bucket` may consume one request at time `now`, and
/// applies the effect.
///
/// The two arithmetic bounds in the requirements are machine limits: the
/// window-end computation and the lifetime counter must fit their types.
pub fn consume_request(
    config: &GlobalConfig,
    bucket: &mut ClientBucket,
    caller: Identity,
    now: i64,
) -> (r: Result<(), RateLimiterError>)
    requires
        old(bucket).window_start + config.window_seconds <= i64::MAX,
        old(bucket).window_start + config.window_seconds >= i64::MIN,
        old(bucket).total_requests < u64::MAX,
    ensures
        *final(bucket) == spec_consume_request(*config, *old(bucket), caller, now).0,
        r == spec_consume_request(*config, *old(bucket), caller, now).1,
{
    if caller != bucket.owner {
        return Err(RateLimiterError::Unauthorized);
    }
    if config.is_paused {
        return Err(RateLimiterError::ProgramPaused);
    }
    if bucket.is_blocked {
        return Err(RateLimiterError::ClientBlocked);
    }
    if now >= bucket.window_start + config.window_seconds {
        bucket.request_count = 0;
        bucket.window_start = now;
    }
    if bucket.request_count >= config.max_requests {
        return Err(RateLimiterError::RateLimitExceeded);
    }
    if bucket.request_count >= config.burst_limit {
        return Err(RateLimiterError::BurstLimitExceeded);
    }
    bucket.request_count = bucket.request_count + 1;
    bucket.total_requests = bucket.total_requests + 1;
    Ok(())
}

/// What `reset_client` does: an administrator unconditionally returns the
/// bucket to a fresh window — counter cleared, window restarted, block
/// lifted. The lifetime counter is kept.
pub open spec fn spec_reset_client(
    config: GlobalConfig,
    bucket: ClientBucket,
    caller: Identity,
    now: i64,
) -> (ClientBucket, Result<(), RateLimiterError>) {
    if caller != config.admin {
        (bucket, Err(RateLimiterError::Unauthorized))
    } else {
        (
            ClientBucket {
                owner: bucket.owner,
                request_count: 0,
                window_start: now,
                total_requests: bucket.total_requests,
                is_blocked: false,
            },
            Ok(()),
        )
    }
}

/// Administrative override: resets a client's window and lifts any block.
/// This is the only path back to `active` for a blocked client.
pub fn reset_client(
    config: &GlobalConfig,
    bucket: &mut ClientBucket,
    caller: Identity,
    now: i64,
) -> (r: Result<(), RateLimiterError>)
    ensures
        *final(bucket) == spec_reset_client(*config, *old(bucket), caller, now).0,
        r == spec_reset_client(*config, *old(bucket), caller, now).1,
{
    if caller != config.admin {
        return Err(RateLimiterError::Unauthorized);
    }
    bucket.request_count = 0;
    bucket.window_start = now;
    bucket.is_blocked = false;
    Ok(())
}

/// What `update_config` does: after the authorization and validity checks,
/// the three limits are replaced atomically; a failed check leaves the prior
/// record untouched. The administrator and the pause flag never change here.
pub open spec fn spec_update_config(
    config: GlobalConfig,
    caller: Identity,
    new_config: RateLimiterConfig,
) -> (GlobalConfig, Result<(), RateLimiterError>) {
    if caller != config.admin {
        (config, Err(RateLimiterError::Unauthorized))
    } else if !new_config.valid() {
        (config, Err(RateLimiterError::InvalidConfig))
    } else {
        (
            GlobalConfig {
                admin: config.admin,
                max_requests: new_config.max_requests,
                window_seconds: new_config.window_seconds,
                burst_limit: new_config.burst_limit,
                is_paused: config.is_paused,
            },
            Ok(()),
        )
    }
}

/// Replaces the policy limits, administrator only, with the same validation
/// as `initialize`.
pub fn update_config(
    config: &mut GlobalConfig,
    caller: Identity,
    new_config: &RateLimiterConfig,
) -> (r: Result<(), RateLimiterError>)
    ensures
        *final(config) == spec_update_config(*old(config), caller, *new_config).0,
        r == spec_update_config(*old(config), caller, *new_config).1,
{
    if caller != config.admin {
        return Err(RateLimiterError::Unauthorized);
    }
    if new_config.max_requests == 0 {
        return Err(RateLimiterError::InvalidConfig);
    }
    if new_config.window_seconds <= 0 {
        return Err(RateLimiterError::InvalidConfig);
    }
    if new_config.burst_limit < new_config.max_requests {
        return Err(RateLimiterError::InvalidConfig);
    }
    config.max_requests = new_config.max_requests;
    config.window_seconds = new_config.window_seconds;
    config.burst_limit = new_config.burst_limit;
    Ok(())
}

/// What `toggle_pause` does: the administrator flips the pause flag; nothing
/// else on the record changes.
pub open spec fn spec_toggle_pause(config: GlobalConfig, caller: Identity) -> (
    GlobalConfig,
    Result<(), RateLimiterError>,
) {
    if caller != config.admin {
        (config, Err(RateLimiterError::Unauthorized))
    } else {
        (
            GlobalConfig {
                admin: config.admin,
                max_requests: config.max_requests,
                window_seconds: config.window_seconds,
                burst_limit: config.burst_limit,
                is_paused: !config.is_paused,
            },
            Ok(()),
        )
    }
}

/// Flips the emergency pause flag, administrator only.
pub fn toggle_pause(config: &mut GlobalConfig, caller: Identity) -> (r: Result<
    (),
    RateLimiterError,
>)
    ensures
        *final(config) == spec_toggle_pause(*old(config), caller).0,
        r == spec_toggle_pause(*old(config), caller).1,
{
    if caller != config.admin {
        return Err(RateLimiterError::Unauthorized);
    }
    config.is_paused = !config.is_paused;
    Ok(())
}

/// What `block_client` does: the administrator marks the bucket blocked;
/// the counters are untouched. No separate unblock exists — only
/// `reset_client` lifts the mark.
pub open spec fn spec_block_client(config: GlobalConfig, bucket: ClientBucket, caller: Identity) -> (
    ClientBucket,
    Result<(), RateLimiterError>,
) {
    if caller != config.admin {
        (bucket, Err(RateLimiterError::Unauthorized))
    } else {
        (
            ClientBucket {
                owner: bucket.owner,
                request_count: bucket.request_count,
                window_start: bucket.window_start,
                total_requests: bucket.total_requests,
                is_blocked: true,
            },
            Ok(()),
        )
    }
}

/// Administrative override: blocks a client from all further consumption.
pub fn block_client(config: &GlobalConfig, bucket: &mut ClientBucket, caller: Identity) -> (r:
    Result<(), RateLimiterError>)
    ensures
        *final(bucket) == spec_block_client(*config, *old(bucket), caller).0,
        r == spec_block_client(*config, *old(bucket), caller).1,
{
    if caller != config.admin {
        return Err(RateLimiterError::Unauthorized);
    }
    bucket.is_blocked = true;
    Ok(())
}

} // verus!
