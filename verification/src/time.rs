//! Points in time and spans of time as plain microsecond counts.
//!
//! The state machines never read a clock. Whoever drives them reads it and hands the reading in,
//! so every decision that depends on time is a function of its arguments. Readings are taken
//! in microseconds, so that nothing is rounded away before two of them are subtracted.

use vstd::prelude::*;

verus! {

/// The number of microseconds in a millisecond.
pub const MICROS_PER_MILLI: u64 = 1000;

/// A span of time, in whole microseconds.
#[derive(Clone, Copy, Debug, PartialEq, Eq, Structural, Hash, PartialOrd, Ord)]
pub struct Duration {
    micros: u64,
}

impl View for Duration {
    type V = nat;

    /// The span as a number of microseconds.
    closed spec fn view(&self) -> nat {
        self.micros as nat
    }
}

impl Duration {
    /// The span of `micros` microseconds.
    pub fn from_micros(micros: u64) -> (duration: Duration)
        ensures
            duration@ == micros,
    {
        Duration { micros }
    }

    /// The span of `millis` milliseconds.
    pub fn from_millis(millis: u64) -> (duration: Duration)
        requires
            millis * MICROS_PER_MILLI <= u64::MAX,
        ensures
            duration@ == millis * MICROS_PER_MILLI,
    {
        Duration { micros: millis * MICROS_PER_MILLI }
    }

    /// The span in microseconds.
    pub fn as_micros(&self) -> (micros: u64)
        ensures
            micros == self@,
    {
        self.micros
    }

    /// The span in milliseconds, rounded down.
    pub fn as_millis(&self) -> (millis: u64)
        ensures
            millis == self@ / (MICROS_PER_MILLI as nat),
    {
        self.micros / MICROS_PER_MILLI
    }
}

/// A reading of a monotonic clock, in whole microseconds since the clock started.
#[derive(Clone, Copy, Debug, PartialEq, Eq, Structural, Hash, PartialOrd, Ord)]
pub struct Instant {
    micros: u64,
}

impl View for Instant {
    type V = nat;

    /// The reading as a number of microseconds.
    closed spec fn view(&self) -> nat {
        self.micros as nat
    }
}

impl Instant {
    /// The reading `micros` microseconds after the clock started.
    pub fn from_micros(micros: u64) -> (instant: Instant)
        ensures
            instant@ == micros,
    {
        Instant { micros }
    }

    /// The reading in microseconds.
    pub fn as_micros(&self) -> (micros: u64)
        ensures
            micros == self@,
    {
        self.micros
    }

    /// The time that passed from `earlier` to `self`, or `None` where `earlier` is the later
    /// of the two.
    pub fn checked_duration_since(&self, earlier: Instant) -> (elapsed: Option<Duration>)
        ensures
            earlier@ <= self@ ==> elapsed.is_some() && elapsed.unwrap()@ == self@ - earlier@,
            earlier@ > self@ ==> elapsed.is_none(),
    {
        if self.micros < earlier.micros {
            None
        } else {
            Some(Duration { micros: self.micros - earlier.micros })
        }
    }

    /// The time that passed from `earlier` to `self`.
    pub fn duration_since(&self, earlier: Instant) -> (elapsed: Duration)
        requires
            earlier@ <= self@,
        ensures
            elapsed@ == self@ - earlier@,
    {
        Duration { micros: self.micros - earlier.micros }
    }
}

} // verus!
