use rate_limiter::ClientBucket;
use rate_limiter::GlobalConfig;
use rate_limiter::Identity;
use rate_limiter::RateLimiterConfig;
use rate_limiter::RateLimiterError;
use rate_limiter::block_client;
use rate_limiter::consume_request;
use rate_limiter::initialize;
use rate_limiter::register_client;
use rate_limiter::reset_client;
use rate_limiter::toggle_pause;
use rate_limiter::update_config;

fn admin() -> Identity {
    Identity { hi: 0xa, lo: 0x1 }
}

fn client() -> Identity {
    Identity { hi: 0xc, lo: 0x2 }
}

fn stranger() -> Identity {
    Identity { hi: 0x5, lo: 0x7 }
}

fn config_5_60_5() -> RateLimiterConfig {
    RateLimiterConfig { max_requests: 5, window_seconds: 60, burst_limit: 5 }
}

fn policy(config: RateLimiterConfig) -> GlobalConfig {
    initialize(admin(), &config).expect("valid config must be accepted")
}

#[test]
fn initialize_accepts_valid_config() {
    let gc = initialize(admin(), &config_5_60_5()).unwrap();
    assert_eq!(gc.admin, admin());
    assert_eq!(gc.max_requests, 5);
    assert_eq!(gc.window_seconds, 60);
    assert_eq!(gc.burst_limit, 5);
    assert!(!gc.is_paused);
}

#[test]
fn initialize_rejects_zero_max_requests() {
    let cfg = RateLimiterConfig { max_requests: 0, window_seconds: 60, burst_limit: 5 };
    assert_eq!(initialize(admin(), &cfg), Err(RateLimiterError::InvalidConfig));
}

#[test]
fn initialize_rejects_nonpositive_window() {
    let zero = RateLimiterConfig { max_requests: 5, window_seconds: 0, burst_limit: 5 };
    assert_eq!(initialize(admin(), &zero), Err(RateLimiterError::InvalidConfig));
    let negative = RateLimiterConfig { max_requests: 5, window_seconds: -60, burst_limit: 5 };
    assert_eq!(initialize(admin(), &negative), Err(RateLimiterError::InvalidConfig));
}

#[test]
fn initialize_rejects_burst_below_max() {
    let cfg = RateLimiterConfig { max_requests: 5, window_seconds: 60, burst_limit: 4 };
    assert_eq!(initialize(admin(), &cfg), Err(RateLimiterError::InvalidConfig));
}

#[test]
fn update_config_replaces_limits() {
    let mut gc = policy(config_5_60_5());
    let new_cfg = RateLimiterConfig { max_requests: 10, window_seconds: 30, burst_limit: 12 };
    assert_eq!(update_config(&mut gc, admin(), &new_cfg), Ok(()));
    assert_eq!(gc.max_requests, 10);
    assert_eq!(gc.window_seconds, 30);
    assert_eq!(gc.burst_limit, 12);
    assert_eq!(gc.admin, admin());
    assert!(!gc.is_paused);
}

#[test]
fn update_config_rejects_invalid_and_keeps_prior() {
    let mut gc = policy(config_5_60_5());
    let prior = gc;
    let bad = RateLimiterConfig { max_requests: 10, window_seconds: 30, burst_limit: 9 };
    assert_eq!(update_config(&mut gc, admin(), &bad), Err(RateLimiterError::InvalidConfig));
    assert_eq!(gc, prior);
}

#[test]
fn update_config_rejects_non_admin() {
    let mut gc = policy(config_5_60_5());
    let prior = gc;
    let new_cfg = RateLimiterConfig { max_requests: 10, window_seconds: 30, burst_limit: 12 };
    assert_eq!(update_config(&mut gc, stranger(), &new_cfg), Err(RateLimiterError::Unauthorized));
    assert_eq!(gc, prior);
}

#[test]
fn toggle_pause_flips_and_toggling_again_restores() {
    let mut gc = policy(config_5_60_5());
    let prior = gc;
    assert_eq!(toggle_pause(&mut gc, admin()), Ok(()));
    assert!(gc.is_paused);
    assert_eq!(toggle_pause(&mut gc, admin()), Ok(()));
    assert_eq!(gc, prior);
}

#[test]
fn toggle_pause_rejects_non_admin() {
    let mut gc = policy(config_5_60_5());
    let prior = gc;
    assert_eq!(toggle_pause(&mut gc, client()), Err(RateLimiterError::Unauthorized));
    assert_eq!(gc, prior);
}

#[test]
fn register_creates_fresh_bucket() {
    let gc = policy(config_5_60_5());
    let bucket = register_client(&gc, client(), 1_000).unwrap();
    assert_eq!(bucket.owner, client());
    assert_eq!(bucket.request_count, 0);
    assert_eq!(bucket.window_start, 1_000);
    assert_eq!(bucket.total_requests, 0);
    assert!(!bucket.is_blocked);
}

#[test]
fn register_rejects_when_paused() {
    let mut gc = policy(config_5_60_5());
    toggle_pause(&mut gc, admin()).unwrap();
    assert_eq!(register_client(&gc, client(), 0), Err(RateLimiterError::ProgramPaused));
}

#[test]
fn quota_scenario_five_per_minute() {
    let gc = policy(config_5_60_5());
    let mut bucket = register_client(&gc, client(), 0).unwrap();
    for t in 0..5 {
        assert_eq!(consume_request(&gc, &mut bucket, client(), t), Ok(()));
        assert_eq!(bucket.request_count, (t + 1) as u64);
        assert_eq!(bucket.total_requests, (t + 1) as u64);
        assert_eq!(bucket.window_start, 0);
    }
    assert_eq!(
        consume_request(&gc, &mut bucket, client(), 5),
        Err(RateLimiterError::RateLimitExceeded)
    );
    assert_eq!(bucket.request_count, 5);
    assert_eq!(bucket.total_requests, 5);
    assert_eq!(consume_request(&gc, &mut bucket, client(), 61), Ok(()));
    assert_eq!(bucket.request_count, 1);
    assert_eq!(bucket.window_start, 61);
    assert_eq!(bucket.total_requests, 6);
}

#[test]
fn sixth_in_window_reports_rate_limit_not_burst() {
    let cfg = RateLimiterConfig { max_requests: 5, window_seconds: 60, burst_limit: 7 };
    let gc = policy(cfg);
    let mut bucket = register_client(&gc, client(), 0).unwrap();
    for t in 0..5 {
        assert_eq!(consume_request(&gc, &mut bucket, client(), t), Ok(()));
    }
    // request_count (5) is below burst_limit (7) but has reached max_requests,
    // so the sustained-quota check fires first.
    assert_eq!(
        consume_request(&gc, &mut bucket, client(), 5),
        Err(RateLimiterError::RateLimitExceeded)
    );
}

#[test]
fn burst_check_fires_only_under_a_config_validation_refuses() {
    // With burst_limit >= max_requests (the invariant every stored policy
    // satisfies), the sustained-quota check always fires first, so
    // BurstLimitExceeded is reachable only under a policy record that
    // validation would have refused.
    let gc = GlobalConfig {
        admin: admin(),
        max_requests: 5,
        window_seconds: 60,
        burst_limit: 3,
        is_paused: false,
    };
    let mut bucket = ClientBucket {
        owner: client(),
        request_count: 3,
        window_start: 0,
        total_requests: 3,
        is_blocked: false,
    };
    assert_eq!(
        consume_request(&gc, &mut bucket, client(), 1),
        Err(RateLimiterError::BurstLimitExceeded)
    );
    assert_eq!(bucket.request_count, 3);
}

#[test]
fn consume_rejects_wrong_caller() {
    let gc = policy(config_5_60_5());
    let mut bucket = register_client(&gc, client(), 0).unwrap();
    let prior = bucket;
    assert_eq!(
        consume_request(&gc, &mut bucket, stranger(), 1),
        Err(RateLimiterError::Unauthorized)
    );
    assert_eq!(bucket, prior);
}

#[test]
fn consume_rejects_when_paused_and_resumes_after_second_toggle() {
    let mut gc = policy(config_5_60_5());
    let mut bucket = register_client(&gc, client(), 0).unwrap();
    consume_request(&gc, &mut bucket, client(), 0).unwrap();
    let before_pause = bucket;
    toggle_pause(&mut gc, admin()).unwrap();
    assert_eq!(
        consume_request(&gc, &mut bucket, client(), 1),
        Err(RateLimiterError::ProgramPaused)
    );
    assert_eq!(bucket, before_pause);
    toggle_pause(&mut gc, admin()).unwrap();
    assert_eq!(bucket, before_pause);
    assert_eq!(consume_request(&gc, &mut bucket, client(), 1), Ok(()));
    assert_eq!(bucket.request_count, 2);
}

#[test]
fn blocked_client_rejected_until_reset() {
    let gc = policy(config_5_60_5());
    let mut bucket = register_client(&gc, client(), 0).unwrap();
    consume_request(&gc, &mut bucket, client(), 0).unwrap();
    assert_eq!(block_client(&gc, &mut bucket, admin()), Ok(()));
    assert!(bucket.is_blocked);
    let blocked = bucket;
    // Rejected regardless of counter state, in or out of the window.
    assert_eq!(
        consume_request(&gc, &mut bucket, client(), 1),
        Err(RateLimiterError::ClientBlocked)
    );
    assert_eq!(bucket, blocked);
    assert_eq!(
        consume_request(&gc, &mut bucket, client(), 120),
        Err(RateLimiterError::ClientBlocked)
    );
    assert_eq!(bucket, blocked);
    // A repeated block keeps it blocked; only an administrator reset lifts it.
    assert_eq!(block_client(&gc, &mut bucket, admin()), Ok(()));
    assert!(bucket.is_blocked);
    assert_eq!(reset_client(&gc, &mut bucket, admin(), 130), Ok(()));
    assert!(!bucket.is_blocked);
    assert_eq!(bucket.request_count, 0);
    assert_eq!(bucket.window_start, 130);
    assert_eq!(consume_request(&gc, &mut bucket, client(), 131), Ok(()));
}

#[test]
fn block_rejects_non_admin() {
    let gc = policy(config_5_60_5());
    let mut bucket = register_client(&gc, client(), 0).unwrap();
    let prior = bucket;
    assert_eq!(block_client(&gc, &mut bucket, client()), Err(RateLimiterError::Unauthorized));
    assert_eq!(bucket, prior);
}

#[test]
fn reset_rejects_non_admin() {
    let gc = policy(config_5_60_5());
    let mut bucket = register_client(&gc, client(), 0).unwrap();
    let prior = bucket;
    assert_eq!(reset_client(&gc, &mut bucket, client(), 99), Err(RateLimiterError::Unauthorized));
    assert_eq!(bucket, prior);
}

#[test]
fn reset_clears_counters_and_keeps_total() {
    let gc = policy(config_5_60_5());
    let mut bucket = register_client(&gc, client(), 0).unwrap();
    for t in 0..3 {
        consume_request(&gc, &mut bucket, client(), t).unwrap();
    }
    assert_eq!(reset_client(&gc, &mut bucket, admin(), 40), Ok(()));
    assert_eq!(bucket.owner, client());
    assert_eq!(bucket.request_count, 0);
    assert_eq!(bucket.window_start, 40);
    assert_eq!(bucket.total_requests, 3);
    assert!(!bucket.is_blocked);
}

#[test]
fn rollover_admits_after_exhausted_window() {
    let gc = policy(config_5_60_5());
    let mut bucket = register_client(&gc, client(), 0).unwrap();
    for t in 0..5 {
        consume_request(&gc, &mut bucket, client(), t).unwrap();
    }
    assert_eq!(
        consume_request(&gc, &mut bucket, client(), 59),
        Err(RateLimiterError::RateLimitExceeded)
    );
    // One second past the boundary the window has elapsed; at the boundary
    // itself (now == window_start + window_seconds) it has too.
    assert_eq!(consume_request(&gc, &mut bucket, client(), 60), Ok(()));
    assert_eq!(bucket.request_count, 1);
    assert_eq!(bucket.window_start, 60);
    assert_eq!(bucket.total_requests, 6);
}

#[test]
fn window_boundary_is_exact() {
    let gc = policy(config_5_60_5());
    let mut bucket = register_client(&gc, client(), 0).unwrap();
    consume_request(&gc, &mut bucket, client(), 0).unwrap();
    // At 59 the window has not elapsed: the counter keeps accumulating.
    consume_request(&gc, &mut bucket, client(), 59).unwrap();
    assert_eq!(bucket.request_count, 2);
    assert_eq!(bucket.window_start, 0);
    // At exactly 60 it has: the counter restarts.
    consume_request(&gc, &mut bucket, client(), 60).unwrap();
    assert_eq!(bucket.request_count, 1);
    assert_eq!(bucket.window_start, 60);
}

#[test]
fn total_requests_never_decreases_across_operations() {
    let mut gc = policy(config_5_60_5());
    let mut bucket = register_client(&gc, client(), 0).unwrap();
    let mut last_total: u64 = bucket.total_requests;
    let mut check = |b: &ClientBucket, last: &mut u64| {
        assert!(b.total_requests >= *last);
        *last = b.total_requests;
    };
    for t in 0..5 {
        consume_request(&gc, &mut bucket, client(), t).unwrap();
        check(&bucket, &mut last_total);
    }
    let _ = consume_request(&gc, &mut bucket, client(), 5);
    check(&bucket, &mut last_total);
    reset_client(&gc, &mut bucket, admin(), 10).unwrap();
    check(&bucket, &mut last_total);
    block_client(&gc, &mut bucket, admin()).unwrap();
    check(&bucket, &mut last_total);
    let _ = consume_request(&gc, &mut bucket, client(), 11);
    check(&bucket, &mut last_total);
    reset_client(&gc, &mut bucket, admin(), 12).unwrap();
    check(&bucket, &mut last_total);
    let new_cfg = RateLimiterConfig { max_requests: 2, window_seconds: 10, burst_limit: 2 };
    update_config(&mut gc, admin(), &new_cfg).unwrap();
    consume_request(&gc, &mut bucket, client(), 13).unwrap();
    check(&bucket, &mut last_total);
    assert_eq!(bucket.total_requests, 6);
}
