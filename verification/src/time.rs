//! Spans of media time, held exactly as a count of nanoseconds.

use vstd::prelude::*;

verus! {

/// Nanoseconds in one second.
pub const NANOS_PER_SEC: u128 = 1_000_000_000;

/// One more than the largest nanosecond count a [`Duration`] can hold: `(u64::MAX + 1)` whole
/// seconds.
pub const NANOS_LIMIT: u128 = 18_446_744_073_709_551_616_000_000_000;

/// A span of time: whole seconds (as many as fit in a `u64`) plus a sub-second number of
/// nanoseconds. Its view is the total number of nanoseconds.
#[derive(Clone, Copy, Debug, PartialEq, Eq)]
pub struct Duration {
    nanos: u128,
}

impl View for Duration {
    type V = nat;

    closed spec fn view(&self) -> nat {
        self.nanos as nat
    }
}

impl Duration {
    #[verifier::type_invariant]
    spec fn within_limit(self) -> bool {
        self.nanos < NANOS_LIMIT
    }

    /// The zero-length span.
    pub fn zero() -> (d: Duration)
        ensures
            d@ == 0,
    {
        Duration { nanos: 0 }
    }

    /// `secs` whole seconds.
    pub fn from_secs(secs: u64) -> (d: Duration)
        ensures
            d@ == secs * 1_000_000_000,
    {
        Duration { nanos: secs as u128 * NANOS_PER_SEC }
    }

    /// `millis` milliseconds.
    pub fn from_millis(millis: u64) -> (d: Duration)
        ensures
            d@ == millis * 1_000_000,
    {
        Duration { nanos: millis as u128 * 1_000_000 }
    }

    /// `micros` microseconds.
    pub fn from_micros(micros: u64) -> (d: Duration)
        ensures
            d@ == micros * 1_000,
    {
        Duration { nanos: micros as u128 * 1_000 }
    }

    /// `nanos` nanoseconds.
    pub fn from_nanos(nanos: u64) -> (d: Duration)
        ensures
            d@ == nanos,
    {
        Duration { nanos: nanos as u128 }
    }

    /// `secs` seconds plus `nanos` nanoseconds; nanoseconds beyond one second carry over into
    /// the seconds. The total must stay within `u64::MAX` whole seconds.
    pub fn new(secs: u64, nanos: u32) -> (d: Duration)
        requires
            secs + nanos / 1_000_000_000 <= u64::MAX,
        ensures
            d@ == secs * 1_000_000_000 + nanos,
    {
        Duration { nanos: secs as u128 * NANOS_PER_SEC + nanos as u128 }
    }

    /// `nanos` nanoseconds, given as a 128-bit count within the representable range.
    pub fn from_total_nanos(nanos: u128) -> (d: Duration)
        requires
            nanos < NANOS_LIMIT,
        ensures
            d@ == nanos,
    {
        Duration { nanos }
    }

    /// The number of whole seconds.
    pub fn as_secs(&self) -> (s: u64)
        ensures
            s == self@ / 1_000_000_000,
    {
        proof {
            use_type_invariant(self);
        }
        (self.nanos / NANOS_PER_SEC) as u64
    }

    /// The fractional part, in nanoseconds (always below one second).
    pub fn subsec_nanos(&self) -> (n: u32)
        ensures
            n == self@ % 1_000_000_000,
    {
        (self.nanos % NANOS_PER_SEC) as u32
    }

    /// The total number of nanoseconds.
    pub fn as_nanos(&self) -> (n: u128)
        ensures
            n == self@,
            n < NANOS_LIMIT,
    {
        proof {
            use_type_invariant(self);
        }
        self.nanos
    }

    /// The total number of whole milliseconds.
    pub fn as_millis(&self) -> (n: u128)
        ensures
            n == self@ / 1_000_000,
    {
        self.nanos / 1_000_000
    }
}

} // verus!
