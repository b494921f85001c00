use rs_api::rate_limiter::{rate_limit_decide, RateLimitEntry, RateLimiter};

#[test]
fn quota_admits_then_rejects_within_window() {
    let mut limiter = RateLimiter::new(1000, 5, 3600);
    let id = String::from("203.0.113.5");
    for i in 0..5u64 {
        assert!(limiter.check(&id, 10 + i), "request {} should be admitted", i);
    }
    // the sixth request in the same window is rejected
    assert!(!limiter.check(&id, 100));
    // and stays rejected within the window
    assert!(!limiter.check(&id, 3600));
}

#[test]
fn elapsed_window_admits_again() {
    let mut limiter = RateLimiter::new(1000, 5, 3600);
    let id = String::from("203.0.113.5");
    for i in 0..5u64 {
        assert!(limiter.check(&id, 10 + i));
    }
    assert!(!limiter.check(&id, 200));
    // strictly more than `window` ticks after the window began
    assert!(limiter.check(&id, 10 + 3601));
    // the fresh window counts from the admitting request
    for _ in 0..4 {
        assert!(limiter.check(&id, 10 + 3602));
    }
    assert!(!limiter.check(&id, 10 + 3602));
}

#[test]
fn two_requests_at_quota_boundary_admit_exactly_one() {
    // counter sits at quota - 1; two requests land at the same instant,
    // serialized by the cache's critical section
    let mut limiter = RateLimiter::new(1000, 5, 3600);
    let id = String::from("198.51.100.9");
    for i in 0..4u64 {
        assert!(limiter.check(&id, i));
    }
    let first = limiter.check(&id, 50);
    let second = limiter.check(&id, 50);
    assert!(first);
    assert!(!second);
}

#[test]
fn identities_are_limited_independently() {
    let mut limiter = RateLimiter::new(1000, 2, 60);
    let a = String::from("a");
    let b = String::from("b");
    assert!(limiter.check(&a, 0));
    assert!(limiter.check(&a, 1));
    assert!(!limiter.check(&a, 2));
    assert!(limiter.check(&b, 2));
    assert!(limiter.check(&b, 2));
    assert!(!limiter.check(&b, 3));
}

#[test]
fn rejection_does_not_extend_the_window() {
    let mut limiter = RateLimiter::new(1000, 1, 10);
    let id = String::from("c");
    assert!(limiter.check(&id, 0));
    assert!(!limiter.check(&id, 5));
    // rejected requests store nothing, so the window still starts at 0
    assert!(limiter.check(&id, 11));
}

#[test]
fn decide_admits_missing_entry() {
    let (admitted, stored) = rate_limit_decide(None, 42, 5, 3600);
    assert!(admitted);
    assert_eq!(stored, Some(RateLimitEntry { count: 1, window_start: 42 }));
}

#[test]
fn decide_rejects_spent_quota_and_stores_nothing() {
    let e = RateLimitEntry { count: 5, window_start: 100 };
    let (admitted, stored) = rate_limit_decide(Some(e), 200, 5, 3600);
    assert!(!admitted);
    assert_eq!(stored, None);
}

#[test]
fn decide_resets_elapsed_window() {
    let e = RateLimitEntry { count: 5, window_start: 100 };
    let (admitted, stored) = rate_limit_decide(Some(e), 3701, 5, 3600);
    assert!(admitted);
    assert_eq!(stored, Some(RateLimitEntry { count: 1, window_start: 3701 }));
}

#[test]
fn decide_boundary_is_a_hard_fixed_window() {
    // exactly `window` ticks after the start the window has not yet elapsed
    let e = RateLimitEntry { count: 5, window_start: 0 };
    let (admitted, _) = rate_limit_decide(Some(e), 3600, 5, 3600);
    assert!(!admitted);
    let (admitted, _) = rate_limit_decide(Some(e), 3601, 5, 3600);
    assert!(admitted);
}

#[test]
fn middleware_charges_the_forwarded_identity() {
    let mut mw = RateLimiter::new(1000, 1, 60).new_transform();
    let (admitted, identity) = mw.call(Some("203.0.113.5, 10.0.0.1"), Some("peer"), 0);
    assert!(admitted);
    assert_eq!(identity, "203.0.113.5");
    // same forwarded client, now over quota
    let (admitted, _) = mw.call(Some("203.0.113.5, 172.16.0.9"), Some("other-peer"), 1);
    assert!(!admitted);
    // a different forwarded client is unaffected
    let (admitted, identity) = mw.call(Some("203.0.113.77"), Some("peer"), 1);
    assert!(admitted);
    assert_eq!(identity, "203.0.113.77");
}
