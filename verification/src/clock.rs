//! The wall clock.

use vstd::prelude::*;

verus! {

/// The last second that the clock can show: the end of the year 262142.
pub const CLOCK_MAX: i64 = 8_210_266_876_799;

/// A reading that the clock can give, in seconds since the Unix epoch.
pub open spec fn clock_reading(now: i64) -> bool {
    0 <= now <= CLOCK_MAX
}

/// `chrono::Utc::now` and `DateTime::timestamp`: the current time in seconds
/// since the Unix epoch. It is not negative, and it lies within the range of
/// years that a date can hold. The call does not return where the system
/// clock is set outside that range.
#[verifier::external_body]
pub(crate) fn now_timestamp() -> (now: i64)
    ensures
        clock_reading(now),
{
    chrono::Utc::now().timestamp()
}

} // verus!
