//! Instants, and the one place where the system clock is read.

use vstd::prelude::*;

verus! {

/// Seconds east of UTC of the zone that notices are stamped in (UTC+9).
pub const NOTICE_OFFSET_SECONDS: i32 = 32_400;

/// A point in time together with the UTC offset it is shown in.
///
/// `seconds` counts non-leap seconds since 1970-01-01T00:00:00 UTC and
/// `nanos` the nanoseconds since the last whole second, so both are
/// independent of `offset_seconds`: two timestamps with equal `seconds` and
/// `nanos` denote the same instant.
#[derive(Clone, Copy, Debug, PartialEq, Eq, Structural)]
pub struct Timestamp {
    pub seconds: i64,
    pub nanos: u32,
    /// Seconds east of UTC of the zone the instant is shown in.
    pub offset_seconds: i32,
}

/// Reads the system clock with `chrono::Utc::now` and returns what
/// `DateTime::timestamp` and `DateTime::timestamp_subsec_nanos` say of it:
/// the seconds since the Unix epoch and the nanoseconds into that second.
/// Nothing is claimed of the two numbers. `Utc::now` does not return when the
/// system clock is set before 1970.
#[verifier::external_body]
fn utc_now() -> (reading: (i64, u32)) {
    let now = chrono::Utc::now();
    (now.timestamp(), now.timestamp_subsec_nanos())
}

impl Timestamp {
    /// Whether two timestamps denote the same instant, whatever offsets
    /// they are shown in.
    pub open spec fn same_instant(self, other: Timestamp) -> bool {
        self.seconds == other.seconds && self.nanos == other.nanos
    }

    /// The current time, shown in UTC.
    pub fn now() -> (now: Timestamp)
        ensures
            now.offset_seconds == 0,
    {
        let (seconds, nanos) = utc_now();
        Timestamp { seconds, nanos, offset_seconds: 0 }
    }

    /// The same instant, shown at another offset from UTC.
    pub fn with_offset(self, offset_seconds: i32) -> (shown: Timestamp)
        ensures
            shown == (Timestamp { offset_seconds, ..self }),
            shown.same_instant(self),
    {
        Timestamp { seconds: self.seconds, nanos: self.nanos, offset_seconds }
    }
}

} // verus!
