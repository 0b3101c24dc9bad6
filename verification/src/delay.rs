//! A span of time, held as a whole number of nanoseconds.

use vstd::prelude::*;

verus! {

/// A span of time in nanoseconds.
///
/// Sleeps and backoff caps are expressed in this type so that the backoff
/// arithmetic is exact.
#[derive(Debug, Clone, Copy, PartialEq, Eq, Structural)]
pub struct Delay {
    /// Length of the span in nanoseconds.
    pub nanos: u128,
}

/// Nanoseconds in one second.
pub const NANOS_PER_SEC: u128 = 1_000_000_000;

/// Nanoseconds in one millisecond.
pub const NANOS_PER_MILLI: u128 = 1_000_000;

/// Nanoseconds in one microsecond.
pub const NANOS_PER_MICRO: u128 = 1_000;

impl Delay {
    /// A span of `secs` whole seconds.
    pub fn from_secs(secs: u64) -> (d: Delay)
        ensures
            d.nanos == secs * NANOS_PER_SEC,
    {
        Delay { nanos: secs as u128 * NANOS_PER_SEC }
    }

    /// A span of `millis` milliseconds.
    pub fn from_millis(millis: u64) -> (d: Delay)
        ensures
            d.nanos == millis * NANOS_PER_MILLI,
    {
        Delay { nanos: millis as u128 * NANOS_PER_MILLI }
    }

    /// A span of `micros` microseconds.
    pub fn from_micros(micros: u64) -> (d: Delay)
        ensures
            d.nanos == micros * NANOS_PER_MICRO,
    {
        Delay { nanos: micros as u128 * NANOS_PER_MICRO }
    }

    /// A span of `nanos` nanoseconds.
    pub fn from_nanos(nanos: u128) -> (d: Delay)
        ensures
            d.nanos == nanos,
    {
        Delay { nanos }
    }

    /// Length of the span in nanoseconds.
    pub fn as_nanos(&self) -> (n: u128)
        ensures
            n == self.nanos,
    {
        self.nanos
    }

    /// True for the empty span.
    pub fn is_zero(&self) -> (z: bool)
        ensures
            z == (self.nanos == 0),
    {
        self.nanos == 0
    }
}

} // verus!
