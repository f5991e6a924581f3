//! A point on the wall clock, as the engine reads it.
//!
//! The engine never does calendar arithmetic: it only compares a link's
//! expiry against the current time. An instant is therefore held as the
//! signed count of nanoseconds since the Unix epoch.

use vstd::prelude::*;

verus! {

/// A wall-clock instant: nanoseconds since the Unix epoch.
#[derive(Clone, Copy, Debug, PartialEq, Eq, Structural)]
pub struct Instant {
    pub nanos: i128,
}

impl Instant {
    /// Builds the instant that lies `nanos` nanoseconds after the epoch.
    pub fn from_unix_nanos(nanos: i128) -> (r: Instant)
        ensures
            r.nanos == nanos,
    {
        Instant { nanos }
    }

    /// True when `self` lies strictly after `other` on the clock.
    pub fn is_after(self, other: Instant) -> (r: bool)
        ensures
            r == (self.nanos > other.nanos),
    {
        self.nanos > other.nanos
    }
}

/// Relies on `time::OffsetDateTime::now_utc` for the process-wide clock
/// read, and on `unix_timestamp_nanos` to express it as nanoseconds since
/// the Unix epoch. The reading depends on when the call is made, so nothing
/// is promised of the returned value.
#[verifier::external_body]
pub fn current_time() -> Instant {
    Instant { nanos: time::OffsetDateTime::now_utc().unix_timestamp_nanos() }
}

} // verus!
