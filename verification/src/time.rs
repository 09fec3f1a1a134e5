//! Instants on the UTC time line, as the token lifecycle reads them.

use vstd::prelude::*;

verus! {

/// Seconds since the Unix epoch of the earliest instant a [`Timestamp`] may hold:
/// midnight on 1 January of the year -262143.
pub const MIN_SECONDS: i64 = -8_334_601_228_800;

/// Seconds since the Unix epoch of the last second a [`Timestamp`] may hold:
/// 23:59:59 on 31 December of the year 262142.
pub const MAX_SECONDS: i64 = 8_210_266_876_799;

/// Bound on the nanosecond part; values from one thousand million on stand for
/// a leap second.
pub const NANOS_LIMIT: u32 = 2_000_000_000;

/// An instant in UTC: whole seconds since the Unix epoch and the nanoseconds
/// into that second.
#[derive(Clone, Copy, Debug, PartialEq, Eq, Structural)]
pub struct Timestamp {
    pub secs: i64,
    pub nanos: u32,
}

impl Timestamp {
    /// The instant lies in the supported range.
    pub open spec fn wf(self) -> bool {
        &&& MIN_SECONDS <= self.secs <= MAX_SECONDS
        &&& self.nanos < NANOS_LIMIT
    }

    /// `self` is strictly earlier than `other`.
    pub open spec fn is_before(self, other: Timestamp) -> bool {
        self.secs < other.secs || (self.secs == other.secs && self.nanos < other.nanos)
    }

    /// `self` moved `seconds` whole seconds into the future, where that instant
    /// is in range.
    pub open spec fn plus_seconds(self, seconds: nat) -> Option<Timestamp> {
        if MIN_SECONDS <= self.secs + seconds <= MAX_SECONDS && self.nanos < NANOS_LIMIT {
            Some(Timestamp { secs: (self.secs + seconds) as i64, nanos: self.nanos })
        } else {
            None
        }
    }

    /// Builds an instant from its parts; `None` when they are out of range.
    pub fn new(secs: i64, nanos: u32) -> (r: Option<Timestamp>)
        ensures
            r == (if (Timestamp { secs, nanos }).wf() {
                Some(Timestamp { secs, nanos })
            } else {
                None
            }),
    {
        if MIN_SECONDS <= secs && secs <= MAX_SECONDS && nanos < NANOS_LIMIT {
            Some(Timestamp { secs, nanos })
        } else {
            None
        }
    }

    /// Whether `self` is strictly earlier than `other`.
    pub fn before(&self, other: &Timestamp) -> (r: bool)
        ensures
            r == self.is_before(*other),
    {
        self.secs < other.secs || (self.secs == other.secs && self.nanos < other.nanos)
    }

    /// Moves the instant `seconds` whole seconds into the future; `None` when
    /// the result would lie outside the supported range.
    pub fn checked_add_seconds(&self, seconds: u64) -> (r: Option<Timestamp>)
        ensures
            r == self.plus_seconds(seconds as nat),
            r matches Some(t) ==> t.wf(),
    {
        let sum: i128 = self.secs as i128 + seconds as i128;
        if MIN_SECONDS as i128 <= sum && sum <= MAX_SECONDS as i128 && self.nanos < NANOS_LIMIT {
            Some(Timestamp { secs: sum as i64, nanos: self.nanos })
        } else {
            None
        }
    }

    /// The current instant, read from the system clock.
    pub fn now() -> (now: Timestamp)
        ensures
            now.wf(),
    {
        utc_now()
    }
}

/// Calls `chrono::Utc::now` and takes the result apart with
/// `DateTime::timestamp` and `DateTime::timestamp_subsec_nanos`. Nothing is
/// claimed of the instant but that it lies in the range every `DateTime<Utc>`
/// lies in. The call stops the program when the system clock reads a time
/// before 1970.
#[verifier::external_body]
fn utc_now() -> (now: Timestamp)
    ensures
        now.wf(),
{
    let now = chrono::Utc::now();
    Timestamp { secs: now.timestamp(), nanos: now.timestamp_subsec_nanos() }
}

} // verus!
