use frameforge_server::rate_limit::{limit_for_path, RateLimiter};

#[test]
fn test_limit_for_path() {
    assert_eq!(limit_for_path("/api/edit"), 100);
    assert_eq!(limit_for_path("/api/edit/variant"), 100);
    assert_eq!(limit_for_path("/api/health"), 1000);
    assert_eq!(limit_for_path("/"), 1000);
}

#[test]
fn test_rate_limiter_admits_up_to_limit() {
    let mut limiter = RateLimiter::new();
    for i in 0..100u64 {
        assert!(
            limiter.check_rate_limit("10.0.0.1", "/api/edit", i * 30).is_ok(),
            "request {} should be admitted",
            i
        );
    }
}

#[test]
fn test_rate_limiter_rejects_101st_within_window() {
    // The edit endpoint admits 100 requests per hour; the 101st within the
    // hour is rejected with a retry hint of at most the window.
    let mut limiter = RateLimiter::new();
    for i in 0..100u64 {
        assert!(limiter.check_rate_limit("10.0.0.1", "/api/edit", i * 30).is_ok());
    }
    let retry_after = limiter
        .check_rate_limit("10.0.0.1", "/api/edit", 3000)
        .unwrap_err();
    assert!(retry_after <= 3600);
}

#[test]
fn test_rate_limiter_window_reset_admits_and_restarts() {
    let mut limiter = RateLimiter::new();
    for _ in 0..100u64 {
        assert!(limiter.check_rate_limit("10.0.0.2", "/api/edit", 10).is_ok());
    }
    assert!(limiter.check_rate_limit("10.0.0.2", "/api/edit", 20).is_err());
    // One second past the window: admitted again, counter restarted.
    assert!(limiter.check_rate_limit("10.0.0.2", "/api/edit", 10 + 3601).is_ok());
    // The counter restarted at one, so plenty of room remains.
    assert!(limiter.check_rate_limit("10.0.0.2", "/api/edit", 10 + 3602).is_ok());
}

#[test]
fn test_rate_limiter_keys_are_independent() {
    let mut limiter = RateLimiter::new();
    for _ in 0..100u64 {
        assert!(limiter.check_rate_limit("10.0.0.3", "/api/edit", 0).is_ok());
    }
    assert!(limiter.check_rate_limit("10.0.0.3", "/api/edit", 1).is_err());
    assert!(limiter.check_rate_limit("10.0.0.4", "/api/edit", 1).is_ok());
}

#[test]
fn test_rate_limiter_general_limit_is_looser() {
    let mut limiter = RateLimiter::new();
    for _ in 0..150u64 {
        assert!(limiter.check_rate_limit("10.0.0.5", "/api/health", 0).is_ok());
    }
}

#[test]
fn test_cleanup_removes_expired_entries() {
    let mut limiter = RateLimiter::new();
    assert!(limiter.check_rate_limit("10.0.0.6", "/api/edit", 0).is_ok());
    assert!(limiter.check_rate_limit("10.0.0.7", "/api/edit", 3000).is_ok());
    // At t=4000 the first window (start 0) has expired, the second has not.
    limiter.cleanup(4000);
    // The swept key starts fresh; the kept key carries its count onward.
    for _ in 0..99u64 {
        assert!(limiter.check_rate_limit("10.0.0.7", "/api/edit", 3500).is_ok());
    }
    assert!(limiter.check_rate_limit("10.0.0.7", "/api/edit", 3500).is_err());
    assert!(limiter.check_rate_limit("10.0.0.6", "/api/edit", 4000).is_ok());
}
