use vstd::prelude::*;

verus! {

/// Percentage of a task's point value credited to the referrer when a
/// referred user finishes that task. The bonus is `points * percent / 100`,
/// truncated toward zero.
pub const REFERRAL_BONUS_PERCENT: i32 = 10;

/// Default number of requests a client may make within one rate-limit window.
pub const REQUESTS_AMOUNT_LIMIT: u8 = 10;

/// Length of the rate-limit window, in seconds.
pub const REQUESTS_AMOUNT_TIME_FRAME: u32 = 60;

} // verus!
