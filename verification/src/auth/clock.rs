//! The wall clock, in whole seconds since the Unix epoch.

use vstd::prelude::*;

verus! {

/// The seconds that the clock can show: from the epoch up to the end of the
/// dates that `chrono` can hold, which is less than 2^48 seconds away.
pub open spec fn on_the_clock(now: i64) -> bool {
    0 <= now < 0x1_0000_0000_0000
}

/// The current time as `chrono::Utc::now().timestamp()` reports it. `Utc::now`
/// takes the system's time since the epoch and makes a date of it, which it
/// can do only for fewer than 2^31 days; so the value is never negative and
/// stays below 2^48. Nothing else is claimed of it: two readings may differ in
/// either direction. (The call gives up on a clock that is set before 1970.)
#[verifier::external_body]
pub(crate) fn unix_now() -> (now: i64)
    ensures
        on_the_clock(now),
{
    chrono::Utc::now().timestamp()
}

} // verus!
