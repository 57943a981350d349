//! A monotonic clock that counts nanoseconds from the moment it was started.

use vstd::prelude::*;

verus! {

#[verifier::external_type_specification]
#[verifier::external_body]
pub struct ExInstant(std::time::Instant);

/// The largest number of nanoseconds a `Duration` holds: `u64::MAX` seconds
/// and 999,999,999 nanoseconds.
pub open spec fn max_duration_nanos() -> int {
    u64::MAX * 1_000_000_000 + 999_999_999
}

/// A clock started at an `Instant`, with its latest reading as ghost state.
/// Only this module makes or reads such a clock.
pub struct MonotonicClock {
    start: std::time::Instant,
    last: Ghost<u128>,
}

impl MonotonicClock {
    /// The latest reading, in nanoseconds since the start; zero before the
    /// first reading.
    pub closed spec fn last(self) -> u128 {
        self.last@
    }

    /// Calls `std::time::Instant::now` and starts the clock there.
    #[verifier::external_body]
    pub fn start() -> (c: Self)
        ensures
            c.last() == 0,
    {
        MonotonicClock { start: std::time::Instant::now(), last: Ghost(0) }
    }

    /// Calls `std::time::Instant::elapsed` on the start and gives the
    /// duration in nanoseconds. The value depends on the time of the call;
    /// what is stated is what std documents: an `Instant` is never earlier
    /// than one measured before it, so readings never decrease, and a
    /// `Duration` holds at most `u64::MAX` seconds and 999,999,999 ns.
    #[verifier::external_body]
    pub fn read(&mut self) -> (r: u128)
        ensures
            old(self).last() <= r <= max_duration_nanos(),
            final(self).last() == r,
    {
        let r = self.start.elapsed().as_nanos();
        self.last = Ghost(r as u128);
        r
    }
}

} // verus!
