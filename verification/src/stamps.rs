//! What the library takes from the machine: fresh ids and the time of day.
//!
//! Nothing can be said in advance of what these return; the functions that
//! use them take the value as it comes.

use vstd::prelude::*;

verus! {

/// A fresh random id, as text.
///
/// Trusted: calls `uuid::Uuid::new_v4` and writes the id in its hyphenated
/// form. The id comes from the system's random source, so nothing is claimed
/// of it. The call fails only where that source does.
#[verifier::external_body]
pub(crate) fn fresh_id() -> (id: String) {
    uuid::Uuid::new_v4().to_string()
}

/// The current time as an RFC 3339 timestamp in UTC.
///
/// Trusted: calls `chrono::Utc::now` and `DateTime::to_rfc3339`. The text
/// depends on the clock, so nothing is claimed of it. The call fails only
/// where the clock stands before 1970.
#[verifier::external_body]
pub(crate) fn now_rfc3339() -> (stamp: String) {
    chrono::Utc::now().to_rfc3339()
}

/// The bound below which every time of the clock lies: 2^31 days, in
/// seconds.
pub const CLOCK_LIMIT: i64 = 185_542_587_187_200;

/// The current time in whole seconds since the start of 1970.
///
/// Trusted: calls `chrono::Utc::now` and `DateTime::timestamp`. The number
/// depends on the clock; what is claimed of it is its range. It is not
/// negative: `Utc::now` takes the time that has passed since the start of
/// 1970 and fails where the clock stands before that. It is below
/// [`CLOCK_LIMIT`]: `Utc::now` makes its value with
/// `DateTime::from_timestamp`, which refuses a time whose number of days
/// does not fit 32 bits, and fails where that refuses.
#[verifier::external_body]
pub(crate) fn now_unix() -> (seconds: i64)
    ensures
        0 <= seconds < CLOCK_LIMIT,
{
    chrono::Utc::now().timestamp()
}

} // verus!
