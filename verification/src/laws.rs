//! The guarantees of the rate limiter, stated and proved over the spec-level
//! transitions that the executable operations are specified against.
//!
//! The lemmas here speak of one deployment: a policy record together with one
//! client's bucket, driven by an arbitrary sequence of operations.

use vstd::prelude::*;
use crate::errors::RateLimiterError;
use crate::ops::spec_block_client;
use crate::ops::spec_consume_request;
use crate::ops::spec_initialize;
use crate::ops::spec_register_client;
use crate::ops::spec_reset_client;
use crate::ops::spec_toggle_pause;
use crate::ops::spec_update_config;
use crate::state::ClientBucket;
use crate::state::GlobalConfig;
use crate::state::Identity;
use crate::state::RateLimiterConfig;

verus! {

/// One deployment as the laws see it: the policy record and one client's
/// bucket.
pub struct Deployment {
    pub config: GlobalConfig,
    pub bucket: ClientBucket,
}

/// One invocation of a mutating operation, with the identity the caller
/// presented and, where the operation reads the clock, the current time.
pub enum Op {
    Consume { caller: Identity, now: i64 },
    Reset { caller: Identity, now: i64 },
    Block { caller: Identity },
    Update { caller: Identity, new_config: RateLimiterConfig },
    Toggle { caller: Identity },
}

/// The deployment after one operation, whatever the operation returned.
pub open spec fn step(s: Deployment, op: Op) -> Deployment {
    match op {
        Op::Consume { caller, now } => Deployment {
            config: s.config,
            bucket: spec_consume_request(s.config, s.bucket, caller, now).0,
        },
        Op::Reset { caller, now } => Deployment {
            config: s.config,
            bucket: spec_reset_client(s.config, s.bucket, caller, now).0,
        },
        Op::Block { caller } => Deployment {
            config: s.config,
            bucket: spec_block_client(s.config, s.bucket, caller).0,
        },
        Op::Update { caller, new_config } => Deployment {
            config: spec_update_config(s.config, caller, new_config).0,
            bucket: s.bucket,
        },
        Op::Toggle { caller } => Deployment {
            config: spec_toggle_pause(s.config, caller).0,
            bucket: s.bucket,
        },
    }
}

/// The deployment after a sequence of operations, applied left to right.
pub open spec fn run(s: Deployment, ops: Seq<Op>) -> Deployment
    decreases ops.len(),
{
    if ops.len() == 0 {
        s
    } else {
        step(run(s, ops.drop_last()), ops.last())
    }
}

/// No operation ever changes who the administrator is.
pub proof fn lemma_admin_never_changes(s: Deployment, ops: Seq<Op>)
    ensures
        run(s, ops).config.admin == s.config.admin,
    decreases ops.len(),
{
    if ops.len() > 0 {
        lemma_admin_never_changes(s, ops.drop_last());
    }
}

/// A bucket's owner is fixed at registration: no operation ever changes it.
pub proof fn lemma_owner_never_changes(s: Deployment, ops: Seq<Op>)
    ensures
        run(s, ops).bucket.owner == s.bucket.owner,
    decreases ops.len(),
{
    if ops.len() > 0 {
        lemma_owner_never_changes(s, ops.drop_last());
    }
}

/// Under a well-formed policy, a consumption attempt keeps the per-window
/// counter within the burst ceiling: admission is refused before the
/// increment that would break the bound.
pub proof fn lemma_count_stays_within_burst(
    config: GlobalConfig,
    bucket: ClientBucket,
    caller: Identity,
    now: i64,
)
    requires
        config.wf(),
        bucket.request_count <= config.burst_limit,
    ensures
        spec_consume_request(config, bucket, caller, now).0.request_count <= config.burst_limit,
{
}

/// A valid configuration is accepted by `initialize`, and the stored policy
/// equals the input, with the pause flag cleared.
pub proof fn lemma_initialize_accepts_valid(admin: Identity, config: RateLimiterConfig)
    requires
        config.valid(),
    ensures
        spec_initialize(admin, config) matches Ok(gc) && gc.admin == admin && gc.limits() == config
            && !gc.is_paused && gc.wf(),
{
}

/// An invalid configuration is rejected with `InvalidConfig`, both at
/// `initialize` and at `update_config`, and an update so rejected leaves the
/// prior policy record exactly as it was.
pub proof fn lemma_invalid_config_rejected(
    admin: Identity,
    prior: GlobalConfig,
    config: RateLimiterConfig,
)
    requires
        !config.valid(),
    ensures
        spec_initialize(admin, config) == Err::<GlobalConfig, RateLimiterError>(
            RateLimiterError::InvalidConfig,
        ),
        spec_update_config(prior, admin, config).0 == prior,
        admin == prior.admin ==> spec_update_config(prior, admin, config).1 == Err::<
            (),
            RateLimiterError,
        >(RateLimiterError::InvalidConfig),
{
}

/// A caller who is not the administrator is turned away from every
/// administrative operation with `Unauthorized`, and nothing changes.
pub proof fn lemma_non_admin_rejected(
    config: GlobalConfig,
    bucket: ClientBucket,
    caller: Identity,
    new_config: RateLimiterConfig,
    now: i64,
)
    requires
        caller != config.admin,
    ensures
        spec_update_config(config, caller, new_config) == (
            config,
            Err::<(), RateLimiterError>(RateLimiterError::Unauthorized),
        ),
        spec_toggle_pause(config, caller) == (
            config,
            Err::<(), RateLimiterError>(RateLimiterError::Unauthorized),
        ),
        spec_reset_client(config, bucket, caller, now) == (
            bucket,
            Err::<(), RateLimiterError>(RateLimiterError::Unauthorized),
        ),
        spec_block_client(config, bucket, caller) == (
            bucket,
            Err::<(), RateLimiterError>(RateLimiterError::Unauthorized),
        ),
{
}

/// While the deployment is paused, registration and consumption are both
/// refused with `ProgramPaused`, and a refused consumption leaves the bucket
/// untouched — whoever the client is.
pub proof fn lemma_paused_refuses_all(
    config: GlobalConfig,
    bucket: ClientBucket,
    owner: Identity,
    now: i64,
)
    requires
        config.is_paused,
    ensures
        spec_register_client(config, owner, now) == Err::<ClientBucket, RateLimiterError>(
            RateLimiterError::ProgramPaused,
        ),
        spec_consume_request(config, bucket, bucket.owner, now) == (
            bucket,
            Err::<(), RateLimiterError>(RateLimiterError::ProgramPaused),
        ),
{
}

/// Toggling the pause flag twice restores the deployment exactly, and a
/// toggle never touches any bucket.
pub proof fn lemma_toggle_pause_roundtrip(s: Deployment, caller: Identity)
    ensures
        step(s, Op::Toggle { caller }).bucket == s.bucket,
        step(step(s, Op::Toggle { caller: s.config.admin }), Op::Toggle { caller: s.config.admin })
            == s,
{
}

/// The lifetime counter never decreases, across any sequence of operations —
/// consumptions, resets, blocks, policy updates and pause toggles alike — and
/// grows by at most one per operation. The bound on the starting counter is a
/// machine limit: the counter is held in 64 bits.
pub proof fn lemma_total_requests_monotone(s: Deployment, ops: Seq<Op>)
    requires
        s.bucket.total_requests + ops.len() <= u64::MAX,
    ensures
        run(s, ops).bucket.total_requests >= s.bucket.total_requests,
        run(s, ops).bucket.total_requests <= s.bucket.total_requests + ops.len(),
    decreases ops.len(),
{
    if ops.len() > 0 {
        lemma_total_requests_monotone(s, ops.drop_last());
    }
}

/// Whether this operation is a reset presented by the given administrator —
/// the one operation that lifts a block.
pub open spec fn is_admin_reset(op: Op, admin: Identity) -> bool {
    match op {
        Op::Reset { caller, .. } => caller == admin,
        _ => false,
    }
}

/// Once the administrator has blocked a client, the client stays blocked
/// through every sequence of operations that contains no reset by the
/// administrator: no consumption, repeated block, policy update or pause
/// toggle lifts the mark.
pub proof fn lemma_blocked_until_admin_reset(s: Deployment, ops: Seq<Op>)
    requires
        s.bucket.is_blocked,
        forall|i: int| 0 <= i < ops.len() ==> !is_admin_reset(ops[i], s.config.admin),
    ensures
        run(s, ops).bucket.is_blocked,
    decreases ops.len(),
{
    if ops.len() > 0 {
        assert(forall|i: int|
            0 <= i < ops.drop_last().len() ==> !is_admin_reset(ops.drop_last()[i], s.config.admin));
        lemma_blocked_until_admin_reset(s, ops.drop_last());
        lemma_admin_never_changes(s, ops.drop_last());
        assert(!is_admin_reset(ops.last(), s.config.admin));
    }
}

/// A blocked client's consumption is refused with `ClientBlocked`, whatever
/// its counters hold, and the bucket is untouched.
pub proof fn lemma_blocked_consume_rejected(config: GlobalConfig, bucket: ClientBucket, now: i64)
    requires
        !config.is_paused,
        bucket.is_blocked,
    ensures
        spec_consume_request(config, bucket, bucket.owner, now) == (
            bucket,
            Err::<(), RateLimiterError>(RateLimiterError::ClientBlocked),
        ),
{
}

/// The bucket after its owner has attempted one consumption at each time in
/// `times`, in order, keeping the bucket of every attempt whether it was
/// admitted or refused.
pub open spec fn consume_repeatedly(
    config: GlobalConfig,
    bucket: ClientBucket,
    times: Seq<i64>,
) -> ClientBucket
    decreases times.len(),
{
    if times.len() == 0 {
        bucket
    } else {
        spec_consume_request(
            config,
            consume_repeatedly(config, bucket, times.drop_last()),
            bucket.owner,
            times.last(),
        ).0
    }
}

/// On a bucket at the start of a window, as registration or a rollover
/// leaves it, every consumption up to the sustained quota is admitted: after
/// at most `max_requests` attempts that all fall before the window's end,
/// the per-window and lifetime counters have each grown by exactly one per
/// attempt, and the window never rolled over.
pub proof fn lemma_fresh_window_admits_quota(
    config: GlobalConfig,
    bucket: ClientBucket,
    times: Seq<i64>,
)
    requires
        config.wf(),
        !config.is_paused,
        !bucket.is_blocked,
        bucket.request_count == 0,
        times.len() <= config.max_requests,
        bucket.total_requests + times.len() <= u64::MAX,
        forall|i: int| 0 <= i < times.len() ==> times[i] < bucket.window_start
            + config.window_seconds,
    ensures
        consume_repeatedly(config, bucket, times) == (ClientBucket {
            owner: bucket.owner,
            request_count: times.len() as u64,
            window_start: bucket.window_start,
            total_requests: (bucket.total_requests + times.len()) as u64,
            is_blocked: false,
        }),
    decreases times.len(),
{
    if times.len() > 0 {
        lemma_fresh_window_admits_quota(config, bucket, times.drop_last());
    }
}

/// Each attempt in such a run is itself admitted: the state just before the
/// attempt at `times[i]` holds `i` requests, below both limits, so the
/// attempt returns success.
pub proof fn lemma_quota_run_each_succeeds(
    config: GlobalConfig,
    bucket: ClientBucket,
    times: Seq<i64>,
)
    requires
        config.wf(),
        !config.is_paused,
        !bucket.is_blocked,
        bucket.request_count == 0,
        times.len() <= config.max_requests,
        bucket.total_requests + times.len() <= u64::MAX,
        forall|i: int| 0 <= i < times.len() ==> times[i] < bucket.window_start
            + config.window_seconds,
    ensures
        forall|i: int| 0 <= i < times.len() ==> spec_consume_request(
            config,
            consume_repeatedly(config, bucket, times.take(i)),
            bucket.owner,
            times[i],
        ).1 == Ok::<(), RateLimiterError>(()),
{
    assert forall|i: int| 0 <= i < times.len() implies spec_consume_request(
        config,
        consume_repeatedly(config, bucket, times.take(i)),
        bucket.owner,
        times[i],
    ).1 == Ok::<(), RateLimiterError>(()) by {
        lemma_fresh_window_admits_quota(config, bucket, times.take(i));
    }
}

/// Once the sustained quota of the current window is spent, a further
/// consumption before the window's end is refused with `RateLimitExceeded` —
/// and with that error, not `BurstLimitExceeded`, even when the burst
/// ceiling is strictly larger — and the bucket is untouched.
pub proof fn lemma_exhausted_window_rejects(config: GlobalConfig, bucket: ClientBucket, now: i64)
    requires
        config.wf(),
        !config.is_paused,
        !bucket.is_blocked,
        bucket.request_count >= config.max_requests,
        now < bucket.window_start + config.window_seconds,
    ensures
        spec_consume_request(config, bucket, bucket.owner, now) == (
            bucket,
            Err::<(), RateLimiterError>(RateLimiterError::RateLimitExceeded),
        ),
{
}

/// Once the window has elapsed, the next consumption first resets the
/// counter and restarts the window at `now`, and is then admitted even if
/// the old window was exhausted: the counter lands at one and the lifetime
/// counter still grows.
pub proof fn lemma_window_rollover_admits(config: GlobalConfig, bucket: ClientBucket, now: i64)
    requires
        config.wf(),
        !config.is_paused,
        !bucket.is_blocked,
        now >= bucket.window_start + config.window_seconds,
        bucket.total_requests < u64::MAX,
    ensures
        spec_consume_request(config, bucket, bucket.owner, now) == (
            ClientBucket {
                owner: bucket.owner,
                request_count: 1,
                window_start: now,
                total_requests: (bucket.total_requests + 1) as u64,
                is_blocked: false,
            },
            Ok::<(), RateLimiterError>(()),
        ),
{
}

} // verus!
