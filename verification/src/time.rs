//! Wall-clock instants and the lengths of time between them.
//!
//! Both are whole numbers of nanoseconds, so every computation on them is
//! exact integer arithmetic.

use std::time::{SystemTime, UNIX_EPOCH};
use vstd::prelude::*;

verus! {

/// Nanoseconds in one second.
pub const NANOS_PER_SEC: u128 = 1_000_000_000;

/// A wall-clock instant: nanoseconds elapsed since the UNIX epoch.
#[derive(Clone, Copy, Debug, PartialEq, Eq, Structural)]
pub struct Timestamp {
    pub nanos: u128,
}

/// A non-negative length of time, in nanoseconds.
#[derive(Clone, Copy, Debug, PartialEq, Eq, Structural)]
pub struct Duration {
    pub nanos: u128,
}

/// The length of time from `earlier` to `later`, or zero where `later` lies
/// before `earlier`.
pub open spec fn spec_elapsed(earlier: Timestamp, later: Timestamp) -> Duration {
    if later.nanos >= earlier.nanos {
        Duration { nanos: (later.nanos - earlier.nanos) as u128 }
    } else {
        Duration { nanos: 0 }
    }
}

/// The sum of two lengths of time, held at the largest representable length
/// where the exact sum does not fit.
pub open spec fn spec_accumulate(total: Duration, extra: Duration) -> Duration {
    if total.nanos + extra.nanos <= u128::MAX {
        Duration { nanos: (total.nanos + extra.nanos) as u128 }
    } else {
        Duration { nanos: u128::MAX }
    }
}

impl Timestamp {
    /// The instant `nanos` nanoseconds after the epoch.
    pub fn from_nanos(nanos: u128) -> (t: Timestamp)
        ensures
            t.nanos == nanos,
    {
        Timestamp { nanos }
    }

    /// The instant `secs` whole seconds after the epoch.
    pub fn from_secs(secs: u64) -> (t: Timestamp)
        ensures
            t.nanos == secs * NANOS_PER_SEC,
    {
        Timestamp { nanos: secs as u128 * NANOS_PER_SEC }
    }

    /// Whether this instant is not later than `other`.
    pub fn is_at_or_before(&self, other: &Timestamp) -> (b: bool)
        ensures
            b == (self.nanos <= other.nanos),
    {
        self.nanos <= other.nanos
    }

    /// The time elapsed since `earlier`. A clock that ran backwards yields
    /// zero rather than a negative length.
    pub fn saturating_since(&self, earlier: &Timestamp) -> (d: Duration)
        ensures
            d == spec_elapsed(*earlier, *self),
            self.nanos >= earlier.nanos ==> d.nanos == self.nanos - earlier.nanos,
            self.nanos < earlier.nanos ==> d.nanos == 0,
    {
        if self.nanos >= earlier.nanos {
            Duration { nanos: self.nanos - earlier.nanos }
        } else {
            Duration { nanos: 0 }
        }
    }
}

impl Duration {
    /// The empty length of time.
    pub fn zero() -> (d: Duration)
        ensures
            d.nanos == 0,
    {
        Duration { nanos: 0 }
    }

    /// A length of `nanos` nanoseconds.
    pub fn from_nanos(nanos: u128) -> (d: Duration)
        ensures
            d.nanos == nanos,
    {
        Duration { nanos }
    }

    /// A length of `secs` whole seconds.
    pub fn from_secs(secs: u64) -> (d: Duration)
        ensures
            d.nanos == secs * NANOS_PER_SEC,
    {
        Duration { nanos: secs as u128 * NANOS_PER_SEC }
    }

    /// The whole seconds in this length, held at the largest `u64` where
    /// there are more.
    pub fn whole_secs(&self) -> (secs: u64)
        ensures
            secs == (if self.nanos / NANOS_PER_SEC <= u64::MAX {
                self.nanos / NANOS_PER_SEC
            } else {
                u64::MAX as u128
            }),
    {
        let secs: u128 = self.nanos / NANOS_PER_SEC;
        if secs <= u64::MAX as u128 {
            secs as u64
        } else {
            u64::MAX
        }
    }

    /// The nanoseconds beyond the whole seconds: always below a billion.
    pub fn subsec_nanos(&self) -> (nanos: u32)
        ensures
            nanos == self.nanos % NANOS_PER_SEC,
            nanos < NANOS_PER_SEC,
    {
        (self.nanos % NANOS_PER_SEC) as u32
    }

    /// Adds `extra` to this length, stopping at the largest representable
    /// length instead of overflowing.
    pub fn saturating_add(&self, extra: &Duration) -> (sum: Duration)
        ensures
            sum == spec_accumulate(*self, *extra),
            sum.nanos >= self.nanos,
            self.nanos + extra.nanos <= u128::MAX ==> sum.nanos == self.nanos + extra.nanos,
    {
        if extra.nanos <= u128::MAX - self.nanos {
            Duration { nanos: self.nanos + extra.nanos }
        } else {
            Duration { nanos: u128::MAX }
        }
    }
}

/// Reads the system clock through `std::time::SystemTime::now` and counts the
/// nanoseconds since `UNIX_EPOCH`. Nothing is claimed of the value: it is
/// whatever the clock says, and a clock set before the epoch reads as the
/// epoch itself.
#[verifier::external_body]
pub(crate) fn now() -> (t: Timestamp) {
    Timestamp { nanos: SystemTime::now().duration_since(UNIX_EPOCH).unwrap_or_default().as_nanos() }
}

} // verus!
