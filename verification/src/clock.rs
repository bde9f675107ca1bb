//! Access to the wall clock.
//!
//! Every time-dependent rule in the crate is written against an explicit
//! `now` argument (seconds since the Unix epoch), so the rules themselves
//! are verified for every possible clock reading.  The convenience
//! methods that consult the real clock sample it through [`now_secs`]
//! and then call the explicit variant.

use vstd::prelude::*;

verus! {

/// Seconds in one calendar day; used to turn an epoch-seconds reading
/// into an epoch-day number for calendar-day rollover checks.
pub const SECS_PER_DAY: u64 = 86400;

/// The UTC calendar day that an epoch-seconds reading falls in.
pub open spec fn spec_epoch_day(now_secs: u64) -> u64 {
    (now_secs / SECS_PER_DAY) as u64
}

/// Exec counterpart of [`spec_epoch_day`].
pub fn epoch_day(now_secs: u64) -> (day: u64)
    ensures
        day == spec_epoch_day(now_secs),
{
    now_secs / SECS_PER_DAY
}

/// Relies on `std::time::SystemTime::now` and
/// `SystemTime::duration_since`: the current system clock, read as whole
/// seconds since the Unix epoch, or 0 if the clock is set before the
/// epoch.  Nothing can be promised of a clock reading, so the contract
/// is empty; callers state what holds of every possible reading.
#[verifier::external_body]
pub fn now_secs() -> u64 {
    std::time::SystemTime::now()
        .duration_since(std::time::UNIX_EPOCH)
        .map(|d| d.as_secs())
        .unwrap_or(0)
}

} // verus!
