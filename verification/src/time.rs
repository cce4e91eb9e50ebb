//! Points in time and spans of time, counted in ticks of the system clock.

use vstd::prelude::*;

verus! {

/// A point in time: ticks of the system clock since it started.
#[derive(Debug, Clone, Copy, PartialEq, Eq, PartialOrd, Ord, Structural)]
pub struct Instant {
    pub ticks: u64,
}

/// A span of time in ticks of the system clock.
#[derive(Debug, Clone, Copy, PartialEq, Eq, PartialOrd, Ord, Structural)]
pub struct Duration {
    pub ticks: u64,
}

impl Instant {
    /// The instant `ticks` ticks after the clock started.
    pub fn from_ticks(ticks: u64) -> (instant: Self)
        ensures
            instant.ticks == ticks,
    {
        Self { ticks }
    }

    /// Ticks since the clock started.
    pub fn as_ticks(&self) -> (ticks: u64)
        ensures
            ticks == self.ticks,
    {
        self.ticks
    }

    /// Reads the system clock, by `embassy_time::Instant::now`, and keeps the
    /// tick count that it returns. Nothing is claimed of the value: the clock
    /// belongs to the platform.
    #[verifier::external_body]
    pub(crate) fn now() -> (now: Self) {
        Self { ticks: embassy_time::Instant::now().as_ticks() }
    }

    /// The time from `earlier` to this instant, if `earlier` is not later.
    pub fn checked_duration_since(&self, earlier: Instant) -> (elapsed: Option<Duration>)
        ensures
            earlier.ticks <= self.ticks ==> elapsed is Some && elapsed->Some_0.ticks == self.ticks
                - earlier.ticks,
            earlier.ticks > self.ticks ==> elapsed is None,
    {
        if self.ticks < earlier.ticks {
            None
        } else {
            Some(Duration { ticks: self.ticks - earlier.ticks })
        }
    }

    /// The time from `earlier` to this instant.
    pub fn duration_since(&self, earlier: Instant) -> (elapsed: Duration)
        requires
            earlier.ticks <= self.ticks,
        ensures
            elapsed.ticks == self.ticks - earlier.ticks,
    {
        Duration { ticks: self.ticks - earlier.ticks }
    }
}

impl Duration {
    /// The span of `ticks` ticks.
    pub fn from_ticks(ticks: u64) -> (duration: Self)
        ensures
            duration.ticks == ticks,
    {
        Self { ticks }
    }

    /// Length of the span in ticks.
    pub fn as_ticks(&self) -> (ticks: u64)
        ensures
            ticks == self.ticks,
    {
        self.ticks
    }
}

} // verus!
