//! The time model: the units a VCD `$timescale` declaration can name, and
//! rational durations measured as a count of equal fractions of a second.

use crate::text::bytes_eq;
use crate::VcdError;
use vstd::prelude::*;
use vstd::string::StringSliceAdditionalSpecFns;

verus! {

/// A unit a VCD `$timescale` declaration can name.
#[derive(Clone, Copy, Debug, PartialEq, Eq, Structural)]
pub enum TimescaleUnit {
    /// Seconds.
    S,
    /// Milliseconds.
    MS,
    /// Microseconds.
    US,
    /// Nanoseconds.
    NS,
    /// Picoseconds.
    PS,
    /// Femtoseconds.
    FS,
}

/// How many of a unit make up one second.
pub open spec fn spec_divisor(u: TimescaleUnit) -> u64 {
    match u {
        TimescaleUnit::S => 1u64,
        TimescaleUnit::MS => 1_000u64,
        TimescaleUnit::US => 1_000_000u64,
        TimescaleUnit::NS => 1_000_000_000u64,
        TimescaleUnit::PS => 1_000_000_000_000u64,
        TimescaleUnit::FS => 1_000_000_000_000_000u64,
    }
}

/// The unit a timescale token names, if any.
pub open spec fn spec_unit_of(s: Seq<u8>) -> Option<TimescaleUnit> {
    if s == "s".spec_bytes() {
        Some(TimescaleUnit::S)
    } else if s == "ms".spec_bytes() {
        Some(TimescaleUnit::MS)
    } else if s == "us".spec_bytes() {
        Some(TimescaleUnit::US)
    } else if s == "ns".spec_bytes() {
        Some(TimescaleUnit::NS)
    } else if s == "ps".spec_bytes() {
        Some(TimescaleUnit::PS)
    } else if s == "fs".spec_bytes() {
        Some(TimescaleUnit::FS)
    } else {
        None
    }
}

impl TimescaleUnit {
    /// How many of this unit make up one second.
    pub fn divisor(&self) -> (r: u64)
        ensures
            r == spec_divisor(*self),
    {
        match self {
            TimescaleUnit::S => 1,
            TimescaleUnit::MS => 1_000,
            TimescaleUnit::US => 1_000_000,
            TimescaleUnit::NS => 1_000_000_000,
            TimescaleUnit::PS => 1_000_000_000_000,
            TimescaleUnit::FS => 1_000_000_000_000_000,
        }
    }

    /// Reads a timescale unit token, `s` through `fs`.
    pub fn from_token(tok: &[u8]) -> (r: Option<TimescaleUnit>)
        ensures
            r == spec_unit_of(tok@),
    {
        if bytes_eq(tok, "s".as_bytes()) {
            Some(TimescaleUnit::S)
        } else if bytes_eq(tok, "ms".as_bytes()) {
            Some(TimescaleUnit::MS)
        } else if bytes_eq(tok, "us".as_bytes()) {
            Some(TimescaleUnit::US)
        } else if bytes_eq(tok, "ns".as_bytes()) {
            Some(TimescaleUnit::NS)
        } else if bytes_eq(tok, "ps".as_bytes()) {
            Some(TimescaleUnit::PS)
        } else if bytes_eq(tok, "fs".as_bytes()) {
            Some(TimescaleUnit::FS)
        } else {
            None
        }
    }
}

/// A duration of `count / divisor` seconds.
///
/// A reader's resolved timescale is the duration of one body tick; the
/// timestamps a reader yields and a writer accepts are whole multiples of
/// such a fraction.
#[derive(Clone, Copy, Debug, PartialEq, Eq, Structural)]
pub struct Duration {
    /// How many fractions of a second this duration spans.
    pub count: u64,
    /// How many fractions make up one second.
    pub divisor: u64,
}

/// The number of whole nanoseconds a duration spans, rounding down.
pub open spec fn spec_nanos(d: Duration) -> int {
    (d.count * 1_000_000_000) / (d.divisor as int)
}

/// Whether a duration is exactly a whole number of nanoseconds that fits in
/// a `u64`.
pub open spec fn nanos_exact(d: Duration) -> bool {
    d.divisor > 0 && (d.count * 1_000_000_000) % (d.divisor as int) == 0 && spec_nanos(d)
        <= u64::MAX
}

impl Duration {
    /// A duration of exactly `n` nanoseconds.
    pub fn from_nanos(n: u64) -> (r: Duration)
        ensures
            r.count == n,
            r.divisor == 1_000_000_000u64,
    {
        Duration { count: n, divisor: 1_000_000_000 }
    }

    /// Converts this duration to whole nanoseconds.
    ///
    /// Succeeds exactly when the duration is a whole number of nanoseconds
    /// that fits in a `u64`; otherwise reports
    /// [`VcdError::TimestampConversion`].
    pub fn to_nanos(&self) -> (r: Result<u64, VcdError>)
        ensures
            match r {
                Ok(n) => nanos_exact(*self) && n == spec_nanos(*self),
                Err(e) => e == VcdError::TimestampConversion && !nanos_exact(*self),
            },
    {
        if self.divisor == 0 {
            return Err(VcdError::TimestampConversion);
        }
        let total: u128 = (self.count as u128) * 1_000_000_000;
        let d: u128 = self.divisor as u128;
        if total % d != 0 {
            return Err(VcdError::TimestampConversion);
        }
        let q: u128 = total / d;
        if q > u64::MAX as u128 {
            return Err(VcdError::TimestampConversion);
        }
        Ok(q as u64)
    }
}

} // verus!
