//! Clock readings and spans of time, both counted in nanoseconds.

use vstd::prelude::*;

verus! {

/// Nanoseconds in one second.
pub const NANOS_PER_SEC: u128 = 1_000_000_000;

/// A length of time, in nanoseconds.
#[derive(Clone, Copy, Debug, PartialEq, Eq, Structural)]
pub struct TimeSpan {
    pub nanos: u128,
}

/// A reading of a clock: the nanoseconds that have passed since the clock's
/// origin. Only readings of the same clock can be compared.
#[derive(Clone, Copy, Debug, PartialEq, Eq, Structural)]
pub struct Timestamp {
    pub nanos: u128,
}

impl TimeSpan {
    /// The span of `secs` whole seconds.
    pub open spec fn spec_from_secs(secs: u64) -> TimeSpan {
        TimeSpan { nanos: (secs * NANOS_PER_SEC) as u128 }
    }

    /// The span of `nanos` nanoseconds.
    pub fn from_nanos(nanos: u128) -> (span: TimeSpan)
        ensures
            span.nanos == nanos,
    {
        TimeSpan { nanos }
    }

    /// The span of `secs` whole seconds.
    pub fn from_secs(secs: u64) -> (span: TimeSpan)
        ensures
            span == Self::spec_from_secs(secs),
            span.nanos == secs * NANOS_PER_SEC,
    {
        let wide: u128 = secs as u128;
        assert(wide * NANOS_PER_SEC <= u128::MAX) by (nonlinear_arith)
            requires
                wide <= u64::MAX,
                NANOS_PER_SEC == 1_000_000_000,
        ;
        TimeSpan { nanos: wide * NANOS_PER_SEC }
    }

    /// The span in nanoseconds.
    pub fn as_nanos(&self) -> (nanos: u128)
        ensures
            nanos == self.nanos,
    {
        self.nanos
    }

    /// The whole seconds in the span; a started second does not count.
    pub fn as_secs(&self) -> (secs: u128)
        ensures
            secs == self.nanos / NANOS_PER_SEC,
    {
        self.nanos / NANOS_PER_SEC
    }
}

impl Timestamp {
    /// The time from `earlier` to `self`, and nothing where `earlier` is the
    /// later of the two.
    pub open spec fn spec_since(self, earlier: Timestamp) -> TimeSpan {
        if self.nanos >= earlier.nanos {
            TimeSpan { nanos: (self.nanos - earlier.nanos) as u128 }
        } else {
            TimeSpan { nanos: 0 }
        }
    }

    /// The reading `nanos` nanoseconds after the clock's origin.
    pub fn from_nanos(nanos: u128) -> (at: Timestamp)
        ensures
            at.nanos == nanos,
    {
        Timestamp { nanos }
    }

    /// The nanoseconds between the clock's origin and this reading.
    pub fn as_nanos(&self) -> (nanos: u128)
        ensures
            nanos == self.nanos,
    {
        self.nanos
    }

    /// The time that passed from `earlier` to `self`. A clock that was set
    /// back between the two readings gives no time at all.
    pub fn since(&self, earlier: Timestamp) -> (span: TimeSpan)
        ensures
            span == self.spec_since(earlier),
    {
        if self.nanos >= earlier.nanos {
            TimeSpan { nanos: self.nanos - earlier.nanos }
        } else {
            TimeSpan { nanos: 0 }
        }
    }
}

} // verus!
