use referral_points::constants::REQUESTS_AMOUNT_LIMIT;
use referral_points::middlewares::{
    rate_limit, rate_limit_decision, RateLimitDecision, RateLimitInfo, RateLimiter,
    RateLimiterConfig,
};

#[test]
fn test_new_rate_limiter_config() {
    let limiter_config = RateLimiterConfig::new(10, 60);
    assert_eq!(limiter_config.requests_amount, 10);
    assert_eq!(limiter_config.time_frame, 60);
}

#[test]
fn test_set_requests_amount() {
    let mut limiter_config = RateLimiterConfig::new(10, 60);
    limiter_config.set_requests_amount(5);
    assert_eq!(limiter_config.requests_amount, 5);
}

#[test]
fn test_set_limit() {
    let mut limiter_config = RateLimiterConfig::new(10, 60);
    limiter_config.set_limit(30);
    assert_eq!(limiter_config.time_frame, 30);
}

#[test]
fn first_request_stores_a_full_window() {
    let d = rate_limit_decision(None, REQUESTS_AMOUNT_LIMIT, 1000, 1060);
    assert_eq!(
        d,
        RateLimitDecision::Allow { store: RateLimitInfo { limit: REQUESTS_AMOUNT_LIMIT, next_reset: 1060 } }
    );
}

#[test]
fn each_request_spends_one_and_keeps_the_reset() {
    let d = rate_limit_decision(
        Some(RateLimitInfo { limit: 3, next_reset: 1060 }),
        10,
        1000,
        1070,
    );
    assert_eq!(
        d,
        RateLimitDecision::Allow { store: RateLimitInfo { limit: 2, next_reset: 1060 } }
    );
}

#[test]
fn an_exhausted_client_is_denied() {
    let d = rate_limit_decision(
        Some(RateLimitInfo { limit: 0, next_reset: 2000 }),
        10,
        1000,
        1060,
    );
    assert_eq!(d, RateLimitDecision::Deny { store: None });
}

#[test]
fn a_passed_window_is_refilled_but_the_request_still_denied() {
    let d = rate_limit_decision(
        Some(RateLimitInfo { limit: 0, next_reset: 500 }),
        10,
        1000,
        1060,
    );
    assert_eq!(
        d,
        RateLimitDecision::Deny { store: Some(RateLimitInfo { limit: 10, next_reset: 1060 }) }
    );
}

#[test]
fn clocked_decision_decrements_like_the_rule() {
    let config = RateLimiterConfig { requests_amount: 10, time_frame: 60 };
    let d = rate_limit(Some(RateLimitInfo { limit: 4, next_reset: 99 }), &config);
    assert_eq!(
        d,
        RateLimitDecision::Allow { store: RateLimitInfo { limit: 3, next_reset: 99 } }
    );
    let fresh = rate_limit(None, &config);
    assert!(matches!(fresh, RateLimitDecision::Allow { .. }));
}
