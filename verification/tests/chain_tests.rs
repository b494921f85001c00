use rs_api::chain::{chain_run, standard_chain, ChainEvent, StageKind, TOO_MANY_REQUESTS_STATUS};
use rs_api::rate_limiter::RateLimiter;

#[test]
fn standard_chain_order_is_explicit() {
    let stages = standard_chain();
    assert_eq!(
        stages,
        vec![
            StageKind::Logging,
            StageKind::Cors,
            StageKind::PrePostHook,
            StageKind::IdentityStamp,
            StageKind::RateLimit,
        ]
    );
}

#[test]
fn admitted_request_runs_every_stage_and_the_handler() {
    let stages = standard_chain();
    let mut mw = RateLimiter::new(1000, 5, 3600).new_transform();
    let run = chain_run(&stages, &mut mw, Some("203.0.113.5"), None, 0);
    assert_eq!(run.halted_at, None);
    assert_eq!(
        run.trace,
        vec![
            ChainEvent::Pre(0),
            ChainEvent::Pre(1),
            ChainEvent::Pre(2),
            ChainEvent::Pre(3),
            ChainEvent::Pre(4),
            ChainEvent::Handler,
            ChainEvent::Post(4),
            ChainEvent::Post(3),
            ChainEvent::Post(2),
            ChainEvent::Post(1),
            ChainEvent::Post(0),
        ]
    );
}

#[test]
fn rejecting_limiter_short_circuits_but_unwinds_earlier_stages() {
    let stages = standard_chain();
    // a quota of zero rejects the very first request
    let mut mw = RateLimiter::new(1000, 0, 3600).new_transform();
    let run = chain_run(&stages, &mut mw, Some("203.0.113.5"), None, 0);
    assert_eq!(run.halted_at, Some(4));
    // the terminal handler (and with it the provider dispatch) never ran
    assert!(!run.trace.contains(&ChainEvent::Handler));
    // the earlier stages ran their pre halves in order and their post halves
    // in reverse order after the halt
    assert_eq!(
        run.trace,
        vec![
            ChainEvent::Pre(0),
            ChainEvent::Pre(1),
            ChainEvent::Pre(2),
            ChainEvent::Pre(3),
            ChainEvent::Halted(4),
            ChainEvent::Post(3),
            ChainEvent::Post(2),
            ChainEvent::Post(1),
            ChainEvent::Post(0),
        ]
    );
}

#[test]
fn quota_exhaustion_halts_the_following_request() {
    let stages = standard_chain();
    let mut mw = RateLimiter::new(1000, 2, 3600).new_transform();
    let first = chain_run(&stages, &mut mw, None, Some("198.51.100.9"), 0);
    let second = chain_run(&stages, &mut mw, None, Some("198.51.100.9"), 1);
    let third = chain_run(&stages, &mut mw, None, Some("198.51.100.9"), 2);
    assert_eq!(first.halted_at, None);
    assert_eq!(second.halted_at, None);
    assert_eq!(third.halted_at, Some(4));
}

#[test]
fn chain_without_limiter_never_halts() {
    let stages = vec![StageKind::Logging, StageKind::Cors, StageKind::PrePostHook];
    let mut mw = RateLimiter::new(1000, 0, 3600).new_transform();
    let run = chain_run(&stages, &mut mw, None, None, 0);
    assert_eq!(run.halted_at, None);
    assert_eq!(
        run.trace,
        vec![
            ChainEvent::Pre(0),
            ChainEvent::Pre(1),
            ChainEvent::Pre(2),
            ChainEvent::Handler,
            ChainEvent::Post(2),
            ChainEvent::Post(1),
            ChainEvent::Post(0),
        ]
    );
}

#[test]
fn rejection_status_is_too_many_requests() {
    assert_eq!(TOO_MANY_REQUESTS_STATUS, 429);
}
