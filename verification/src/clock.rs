//! Instants on the UTC time line, as plain integers.

use vstd::prelude::*;

verus! {

/// Nanoseconds in one second.
pub const NANOS_PER_SECOND: u32 = 1_000_000_000;

/// An instant: whole seconds since 1970-01-01 00:00:00 UTC and the
/// nanoseconds past that second.
#[derive(Clone, Copy, Debug, PartialEq, Eq, Structural)]
pub struct Timestamp {
    pub secs: i64,
    pub nanos: u32,
}

impl Timestamp {
    /// The instant as one number of nanoseconds since the epoch.
    pub open spec fn as_nanos(self) -> int {
        self.secs as int * 1_000_000_000 + self.nanos as int
    }

    /// Nanoseconds from `earlier` to `self`; negative when the clock went back.
    pub open spec fn nanos_since(self, earlier: Timestamp) -> int {
        self.as_nanos() - earlier.as_nanos()
    }

    pub fn new(secs: i64, nanos: u32) -> (t: Timestamp)
        ensures
            t == (Timestamp { secs, nanos }),
    {
        Timestamp { secs, nanos }
    }

    /// Whether less than `seconds` whole seconds have passed since `earlier`.
    pub fn is_within(&self, earlier: &Timestamp, seconds: u64) -> (within: bool)
        ensures
            within == (self.nanos_since(*earlier) < seconds as int * 1_000_000_000),
    {
        let elapsed: i128 = (self.secs as i128 - earlier.secs as i128) * 1_000_000_000
            + (self.nanos as i128 - earlier.nanos as i128);
        elapsed < (seconds as i128) * 1_000_000_000
    }

    /// Whether at least `seconds` whole seconds have passed since `earlier`.
    pub fn has_elapsed(&self, earlier: &Timestamp, seconds: u64) -> (elapsed: bool)
        ensures
            elapsed == (self.nanos_since(*earlier) >= seconds as int * 1_000_000_000),
    {
        !self.is_within(earlier, seconds)
    }
}

/// Reads the system clock through `chrono::Utc::now` and splits the instant
/// with `DateTime::timestamp` and `DateTime::timestamp_subsec_nanos`.
/// The clock decides the value; the contract only records that chrono builds
/// it with a sub-second part below one second. chrono panics if the system
/// clock is set before 1970.
#[verifier::external_body]
pub(crate) fn now() -> (t: Timestamp)
    ensures
        t.nanos < NANOS_PER_SECOND,
{
    let instant = chrono::Utc::now();
    Timestamp { secs: instant.timestamp(), nanos: instant.timestamp_subsec_nanos() }
}

} // verus!
