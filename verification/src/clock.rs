//! Reading the system clock. The clock is only observability: nothing in
//! the crate's contracts depends on what it returns.

use vstd::prelude::*;

use crate::numfmt::{dec_digits, u64_to_dec};

verus! {

/// Declares `std::time::SystemTime`, the clock reading the wrappers
/// below take apart. The type is opaque here.
#[verifier::external_type_specification]
#[verifier::external_body]
pub struct ExSystemTime(std::time::SystemTime);

/// Relies on `std::time::SystemTime::now`: the clock's current reading.
/// Nothing is promised of the value.
#[verifier::external_body]
pub(crate) fn sys_now() -> (t: std::time::SystemTime) {
    std::time::SystemTime::now()
}

/// Relies on `std::time::SystemTime::duration_since`: the whole
/// milliseconds between the Unix epoch and `t`, or zero for a reading
/// before the epoch. Nothing is promised of the value.
#[verifier::external_body]
pub(crate) fn millis_since_epoch(t: &std::time::SystemTime) -> (ms: u64) {
    t.duration_since(std::time::UNIX_EPOCH).map(|d| d.as_millis() as u64).unwrap_or(0)
}

/// Relies on `std::time::SystemTime::duration_since`: the whole seconds
/// between the Unix epoch and `t`, or zero for a reading before the
/// epoch. Nothing is promised of the value.
#[verifier::external_body]
pub(crate) fn secs_since_epoch(t: &std::time::SystemTime) -> (s: u64) {
    t.duration_since(std::time::UNIX_EPOCH).map(|d| d.as_secs()).unwrap_or(0)
}

/// The elapsed milliseconds between two clock readings, clamped at zero
/// if the clock moved backwards.
pub(crate) fn elapsed_ms(start_ms: u64, end_ms: u64) -> (ms: u64)
    ensures
        ms == if end_ms >= start_ms {
            end_ms - start_ms
        } else {
            0
        },
{
    if end_ms >= start_ms {
        end_ms - start_ms
    } else {
        0
    }
}

/// A timestamp taken from the system clock, kept as whole seconds since
/// the Unix epoch.
#[derive(Clone, Copy, Debug, PartialEq, Eq, Structural)]
pub struct DateTime {
    pub secs: u64,
}

/// The wall clock.
#[derive(Clone, Copy, Debug)]
pub struct Utc;

impl Utc {
    /// Captures the clock's current reading.
    pub fn now() -> DateTime {
        let t = sys_now();
        DateTime { secs: secs_since_epoch(&t) }
    }
}

impl DateTime {
    /// Renders the timestamp as text: the decimal seconds since the
    /// Unix epoch.
    pub fn to_rfc3339(&self) -> (s: String)
        ensures
            s@ == dec_digits(self.secs as nat),
    {
        u64_to_dec(self.secs)
    }
}

} // verus!
