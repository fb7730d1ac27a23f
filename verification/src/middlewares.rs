pub mod rate_limiter;

pub use rate_limiter::{
    rate_limit, rate_limit_decision, rate_limit_decision_m, Error, RateLimitDecision,
    RateLimitInfo, RateLimiter, RateLimiterConfig,
};
