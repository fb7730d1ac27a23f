use vstd::prelude::*;

verus! {

/// Relies on chrono::Utc::now: the current unix timestamp in seconds;
/// nothing is assumed of the value.
#[verifier::external_body]
pub(crate) fn now_utc_timestamp() -> i64 {
    chrono::Utc::now().timestamp()
}

/// Relies on chrono::Local::now: the current unix timestamp in seconds;
/// nothing is assumed of the value.
#[verifier::external_body]
pub(crate) fn now_local_timestamp() -> i64 {
    chrono::Local::now().timestamp()
}

} // verus!
