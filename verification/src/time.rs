//! Lengths of time and points on the monotonic clock.

use vstd::prelude::*;

verus! {

/// The longest time that the standard library's own durations hold, in nanoseconds.
pub const MAX_NANOS: u128 = 18_446_744_073_709_551_615_999_999_999;

/// A length of time, or the time since the clock was started.
#[derive(Clone, Copy, Debug, PartialEq, Eq, Structural)]
pub struct Duration {
    pub nanos: u128,
}

/// A length of `millis` milliseconds.
pub open spec fn millis(millis: int) -> int {
    millis * 1_000_000
}

impl Duration {
    pub fn zero() -> (r: Self)
        ensures
            r.nanos == 0,
    {
        Duration { nanos: 0 }
    }

    pub fn from_nanos(nanos: u64) -> (r: Self)
        ensures
            r.nanos == nanos,
    {
        Duration { nanos: nanos as u128 }
    }

    pub fn from_millis(length: u64) -> (r: Self)
        ensures
            r.nanos == millis(length as int),
    {
        Duration { nanos: length as u128 * 1_000_000 }
    }

    pub fn from_secs(length: u64) -> (r: Self)
        ensures
            r.nanos == length * 1_000_000_000,
    {
        Duration { nanos: length as u128 * 1_000_000_000 }
    }

    /// The time from `earlier` to this, or none where that is not earlier.
    pub fn saturating_sub(self, earlier: Duration) -> (r: Duration)
        ensures
            r.nanos == (if self.nanos >= earlier.nanos {
                self.nanos - earlier.nanos
            } else {
                0
            }),
    {
        if self.nanos >= earlier.nanos {
            Duration { nanos: self.nanos - earlier.nanos }
        } else {
            Duration { nanos: 0 }
        }
    }

    /// This time and then another.
    pub fn plus(self, length: Duration) -> (r: Duration)
        requires
            self.nanos + length.nanos <= MAX_NANOS,
        ensures
            r.nanos == self.nanos + length.nanos,
    {
        Duration { nanos: self.nanos + length.nanos }
    }
}

} // verus!
