//! Readings of the wall clock, and the time between two of them. The
//! readings are handed in by the caller: nothing in here reads a clock.

use vstd::prelude::*;

verus! {

/// A reading of the wall clock: whole seconds since the start of 1970 (UTC),
/// and the nanoseconds past that second.
#[derive(Clone, Copy, Debug, PartialEq, Eq, Structural)]
pub struct ClockReading {
    pub seconds: i64,
    pub nanos: u32,
}

impl ClockReading {
    /// The reading in nanoseconds since the start of 1970.
    pub open spec fn as_nanos(self) -> int {
        self.seconds * 1_000_000_000 + self.nanos
    }

    /// The nanoseconds from `earlier` to this reading, and zero where the
    /// clock was set back in between.
    pub open spec fn since(self, earlier: ClockReading) -> nat {
        if self.as_nanos() >= earlier.as_nanos() {
            (self.as_nanos() - earlier.as_nanos()) as nat
        } else {
            0
        }
    }

    /// Computes the nanoseconds that passed from `earlier` to this reading.
    pub fn nanos_since(&self, earlier: &ClockReading) -> (elapsed: u128)
        ensures
            elapsed == self.since(*earlier),
    {
        let later_nanos: i128 = (self.seconds as i128) * 1_000_000_000 + (self.nanos as i128);
        let earlier_nanos: i128 = (earlier.seconds as i128) * 1_000_000_000 + (
        earlier.nanos as i128);
        if later_nanos >= earlier_nanos {
            (later_nanos - earlier_nanos) as u128
        } else {
            0
        }
    }
}

} // verus!
