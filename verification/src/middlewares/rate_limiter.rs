use vstd::prelude::*;

use crate::clock::now_local_timestamp;

verus! {

/// Failure while talking to the rate-limit counter store; carries the
/// driver's message.
#[derive(Debug)]
pub enum Error {
    Redis { error: String },
}

impl Error {
    /// A readable rendering of the failure.
    pub fn message(&self) -> (r: String)
        ensures
            ({
                match self {
                    Error::Redis { error } => r@ == error@,
                }
            }),
    {
        match self {
            Error::Redis { error } => error.clone(),
        }
    }
}

/// The counter kept per client address: how many requests remain in the
/// window, and when the window resets.
#[derive(PartialEq, Eq, Structural, Debug, Clone, Copy)]
pub struct RateLimitInfo {
    pub limit: u8,
    pub next_reset: i64,
}

/// Configuration of the limiter: requests allowed per window, and the
/// window's length in seconds.
pub trait RateLimiter: Sized {
    fn new(requests_amount: u8, limit: u32) -> Self;

    fn set_requests_amount(&mut self, requests_amount: u8);

    fn set_limit(&mut self, limit: u32);
}

#[derive(Clone)]
pub struct RateLimiterConfig {
    pub requests_amount: u8,
    pub time_frame: u32,
}

impl RateLimiter for RateLimiterConfig {
    fn new(requests_amount: u8, limit: u32) -> Self {
        Self { requests_amount, time_frame: limit }
    }

    fn set_requests_amount(&mut self, requests_amount: u8) {
        self.requests_amount = requests_amount;
    }

    fn set_limit(&mut self, limit: u32) {
        self.time_frame = limit;
    }
}

/// What the limiter decides for one request: let it through or turn it
/// away, each with the counter value to store, if any.
#[derive(PartialEq, Eq, Debug, Clone, Copy)]
pub enum RateLimitDecision {
    Allow { store: RateLimitInfo },
    Deny { store: Option<RateLimitInfo> },
}

/// The limiter's rule. A client never seen gets a full window. A client
/// out of requests is turned away; once its window has passed, a full
/// window is stored for the next request, which is still turned away.
/// Anyone else spends one request and keeps their reset time.
pub open spec fn rate_limit_decision_m(
    ip_data: Option<RateLimitInfo>,
    requests_amount: u8,
    now: i64,
    next_reset: i64,
) -> RateLimitDecision {
    match ip_data {
        None => RateLimitDecision::Allow {
            store: RateLimitInfo { limit: requests_amount, next_reset },
        },
        Some(info) => {
            if info.limit == 0 {
                RateLimitDecision::Deny {
                    store: if info.next_reset < now {
                        Some(RateLimitInfo { limit: requests_amount, next_reset })
                    } else {
                        None
                    },
                }
            } else {
                RateLimitDecision::Allow {
                    store: RateLimitInfo {
                        limit: (info.limit - 1) as u8,
                        next_reset: info.next_reset,
                    },
                }
            }
        },
    }
}

/// The limiter's rule on explicit times, exactly as specified.
pub fn rate_limit_decision(
    ip_data: Option<RateLimitInfo>,
    requests_amount: u8,
    now: i64,
    next_reset: i64,
) -> (d: RateLimitDecision)
    ensures
        d == rate_limit_decision_m(ip_data, requests_amount, now, next_reset),
{
    match ip_data {
        None => RateLimitDecision::Allow {
            store: RateLimitInfo { limit: requests_amount, next_reset },
        },
        Some(info) => {
            if info.limit == 0 {
                RateLimitDecision::Deny {
                    store: if info.next_reset < now {
                        Some(RateLimitInfo { limit: requests_amount, next_reset })
                    } else {
                        None
                    },
                }
            } else {
                RateLimitDecision::Allow {
                    store: RateLimitInfo { limit: info.limit - 1, next_reset: info.next_reset },
                }
            }
        },
    }
}

/// Decides one request against the stored counter, reading the clock for
/// the current time and the next window boundary.
pub fn rate_limit(ip_data: Option<RateLimitInfo>, config: &RateLimiterConfig) -> (d:
    RateLimitDecision)
    ensures
        exists|now: i64, next_reset: i64|
            d == rate_limit_decision_m(ip_data, config.requests_amount, now, next_reset),
        (ip_data matches Some(info) && info.limit > 0) ==> d == (RateLimitDecision::Allow {
            store: RateLimitInfo {
                limit: (ip_data->Some_0.limit - 1) as u8,
                next_reset: ip_data->Some_0.next_reset,
            },
        }),
        ip_data is None ==> d is Allow,
        (ip_data matches Some(info) && info.limit == 0) ==> d is Deny,
{
    let now = now_local_timestamp();
    let next_reset: i64 = if now <= i64::MAX - (config.time_frame as i64) {
        now + (config.time_frame as i64)
    } else {
        i64::MAX
    };
    let d = rate_limit_decision(ip_data, config.requests_amount, now, next_reset);
    proof {
        assert(d == rate_limit_decision_m(ip_data, config.requests_amount, now, next_reset));
    }
    d
}

} // verus!
