use vstd::prelude::*;

use crate::clock::now_utc_timestamp;

verus! {

/// The expiry instant for a session issued now: ten minutes ahead, clamped
/// at the largest representable timestamp.
fn generate_expiration_date() -> i64 {
    let now = now_utc_timestamp();
    if now <= i64::MAX - 600 {
        now + 600
    } else {
        i64::MAX
    }
}

/// The payload of a session token: the user's aggregate at issuance time,
/// plus a short expiry window.
#[derive(Debug)]
pub struct Claims {
    pub id: i32,
    pub exp: i64,
    pub username: String,
    pub wallet: String,
    pub total_points: i32,
    pub referrals_points: i32,
    pub referrals_count: u32,
    pub referral_code: String,
    pub finished_tasks: Vec<i32>,
    pub multiplier: i32,
}

impl Claims {
    /// Builds the claims for a freshly loaded user aggregate; the expiry is
    /// read from the clock.
    pub fn new(
        id: i32,
        username: String,
        wallet: String,
        total_points: i32,
        referrals_count: u32,
        referrals_points: i32,
        referral_code: String,
        finished_tasks: Vec<i32>,
        multiplier: i32,
    ) -> (r: Self)
        ensures
            r.id == id,
            r.username == username,
            r.wallet == wallet,
            r.total_points == total_points,
            r.referrals_count == referrals_count,
            r.referrals_points == referrals_points,
            r.referral_code == referral_code,
            r.finished_tasks == finished_tasks,
            r.multiplier == multiplier,
    {
        Self {
            id,
            username,
            wallet,
            exp: generate_expiration_date(),
            total_points,
            referrals_count,
            referrals_points,
            referral_code,
            finished_tasks,
            multiplier,
        }
    }
}

} // verus!
