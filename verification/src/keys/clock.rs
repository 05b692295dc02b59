//! Readings of the system clock. A `ClockReading` is made here, by reading
//! the clock, and nowhere else: holding one shows that the clock gave it.

use vstd::prelude::*;

use super::UnixTime;

verus! {

/// A moment that the system clock gave.
#[derive(Debug, Clone, Copy, PartialEq, Eq)]
pub struct ClockReading(UnixTime);

impl View for ClockReading {
    type V = UnixTime;

    closed spec fn view(&self) -> UnixTime {
        self.0
    }
}

impl ClockReading {
    /// The moment read.
    pub fn time(&self) -> (r: UnixTime)
        ensures
            r == self@,
    {
        self.0
    }
}

/// The current time (`chrono::Utc::now()`), read back through its
/// `timestamp()` and `timestamp_subsec_nanos()`. `Utc::now` panics on a clock
/// before the Unix epoch, builds the value from a `SystemTime` whose
/// sub-second part is below one second, and keeps dates within chrono's year
/// range (below 262 144); so the seconds are non-negative and below ten
/// trillion and the nanoseconds below 10^9. Which moment comes back depends on
/// the clock.
#[verifier::external_body]
pub(crate) fn unix_now() -> (r: ClockReading)
    ensures
        0 <= r@.secs < 10_000_000_000_000,
        r@.nanos < 1_000_000_000,
{
    let now = chrono::Utc::now();
    ClockReading(UnixTime { secs: now.timestamp(), nanos: now.timestamp_subsec_nanos() })
}

} // verus!
