//! Instants on the UTC time line.

use vstd::prelude::*;

verus! {

/// An instant in UTC: whole seconds since 1970-01-01T00:00:00Z and the
/// nanoseconds into that second.
///
/// Instants are ordered by seconds first and nanoseconds second.
#[derive(Clone, Copy, Debug, PartialEq, Eq, Structural)]
pub struct Timestamp {
    pub seconds: i64,
    pub nanos: u32,
}

impl Timestamp {
    /// Whether this instant comes strictly before `other`.
    pub open spec fn precedes(self, other: Timestamp) -> bool {
        self.seconds < other.seconds || (self.seconds == other.seconds && self.nanos
            < other.nanos)
    }

    /// Decides `self.precedes(other)`.
    pub fn is_before(self, other: Timestamp) -> (b: bool)
        ensures
            b == self.precedes(other),
    {
        self.seconds < other.seconds || (self.seconds == other.seconds && self.nanos
            < other.nanos)
    }
}

/// Reads the system clock through `chrono::Utc::now` and splits the instant
/// with `DateTime::timestamp` and `DateTime::timestamp_subsec_nanos`.
///
/// Nothing is claimed of the instant that comes back: it is whatever the
/// clock says. `Utc::now` panics when the clock stands before 1970.
#[verifier::external_body]
pub(crate) fn utc_now() -> (now: Timestamp) {
    let now = chrono::Utc::now();
    Timestamp { seconds: now.timestamp(), nanos: now.timestamp_subsec_nanos() }
}

} // verus!
