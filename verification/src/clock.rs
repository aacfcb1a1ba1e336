//! The wall clock, read where a record is stamped.
use vstd::prelude::*;

verus! {

/// The current time as seconds since the Unix epoch (`chrono::Utc::now().timestamp()`).
/// The value depends on the machine's clock; what is stated is its range:
/// `Utc::now` reads the system time since the epoch (and stops on a clock set
/// before it), and chrono's dates end in the year 262142, so the value lies
/// between 0 and 10^13.
#[verifier::external_body]
pub(crate) fn now_timestamp() -> (t: i64)
    ensures
        0 <= t <= 10_000_000_000_000,
{
    chrono::Utc::now().timestamp()
}

/// Today's date in UTC as `YYYY-MM-DD` (`chrono::Utc::now().format("%Y-%m-%d")`).
/// Nothing is stated of the value: it depends on the machine's clock.
#[verifier::external_body]
pub(crate) fn today_date() -> (d: String) {
    chrono::Utc::now().format("%Y-%m-%d").to_string()
}

/// The current time as unsigned seconds since the Unix epoch.
pub(crate) fn now_seconds() -> (t: u64)
    ensures
        t <= 10_000_000_000_000,
{
    now_timestamp() as u64
}

} // verus!
