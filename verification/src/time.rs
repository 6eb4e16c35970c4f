//! Points in time and the lifetime of a session.

use vstd::prelude::*;

verus! {

/// A point in time: whole seconds since the Unix epoch, in UTC, and the
/// nanoseconds that follow them.
#[derive(Clone, Copy, Debug, PartialEq, Eq, Structural, Hash)]
pub struct Timestamp {
    pub seconds: i64,
    pub nanos: u32,
}

/// For how long a session stays valid after it was created or renewed.
#[derive(Clone, Copy, Debug, PartialEq, Eq, Structural, Hash)]
pub struct SessionTime {
    pub seconds: u32,
}

/// The lifetime of a session unless another is configured: two hours.
pub const DEFAULT_SESSION_SECONDS: u32 = 7200;

/// No reading of the clock gives this many seconds or more.
pub const CLOCK_SECONDS_LIMIT: i64 = 200_000_000_000_000;

impl Timestamp {
    /// Whether `self` is `other` or comes before it: by the seconds, and by
    /// the nanoseconds where the seconds are equal.
    pub open spec fn at_or_before(self, other: Timestamp) -> bool {
        self.seconds < other.seconds || (self.seconds == other.seconds && self.nanos
            <= other.nanos)
    }

    /// Whether `self` can be a reading of the clock: its seconds are under
    /// [`CLOCK_SECONDS_LIMIT`] and its nanoseconds under one second. A
    /// reading can be extended by every lifetime.
    pub open spec fn is_clock_reading(self) -> bool {
        self.seconds < CLOCK_SECONDS_LIMIT && self.nanos < 1_000_000_000
    }

    /// The point `by` seconds after `self`.
    pub open spec fn later(self, by: SessionTime) -> Timestamp {
        Timestamp { seconds: (self.seconds + by.seconds) as i64, nanos: self.nanos }
    }

    /// Whether the point `by` seconds after `self` can be represented.
    pub open spec fn can_be_extended(self, by: SessionTime) -> bool {
        self.seconds + by.seconds <= i64::MAX
    }

    /// Whether `self` is `other` or comes before it.
    pub fn is_at_or_before(&self, other: &Timestamp) -> (r: bool)
        ensures
            r == self.at_or_before(*other),
    {
        self.seconds < other.seconds || (self.seconds == other.seconds && self.nanos
            <= other.nanos)
    }

    /// The point `by` seconds after `self`, where it can be represented.
    pub fn checked_extend(&self, by: SessionTime) -> (r: Option<Timestamp>)
        ensures
            self.can_be_extended(by) ==> r == Some(self.later(by)),
            !self.can_be_extended(by) ==> r is None,
    {
        let span: i64 = by.seconds as i64;
        match self.seconds.checked_add(span) {
            Some(seconds) => Some(Timestamp { seconds, nanos: self.nanos }),
            None => None,
        }
    }

    /// The point `by` seconds after `self`.
    pub fn extend(&self, by: SessionTime) -> (r: Timestamp)
        requires
            self.can_be_extended(by),
        ensures
            r == self.later(by),
    {
        let span: i64 = by.seconds as i64;
        Timestamp { seconds: self.seconds + span, nanos: self.nanos }
    }
}

impl SessionTime {
    /// A lifetime of the given number of seconds.
    pub fn from_seconds(seconds: u32) -> (r: SessionTime)
        ensures
            r.seconds == seconds,
    {
        SessionTime { seconds }
    }
}

impl Default for SessionTime {
    fn default() -> (r: SessionTime)
        ensures
            r.seconds == DEFAULT_SESSION_SECONDS,
    {
        SessionTime { seconds: DEFAULT_SESSION_SECONDS }
    }
}

/// Reads the system clock with `chrono::Utc::now` and gives the reading as
/// seconds and nanoseconds since the Unix epoch. `chrono` builds the reading
/// with `DateTime::from_timestamp`, which refuses a day count beyond `i32`, and
/// from a `Duration`'s sub-second part, which is below one second: so the
/// seconds stay under [`CLOCK_SECONDS_LIMIT`] and the nanoseconds under
/// 1,000,000,000. Nothing else is known of the reading.
#[verifier::external_body]
pub(crate) fn current_time() -> (now: Timestamp)
    ensures
        now.seconds < CLOCK_SECONDS_LIMIT,
        now.nanos < 1_000_000_000,
{
    let now = chrono::Utc::now();
    Timestamp { seconds: now.timestamp(), nanos: now.timestamp_subsec_nanos() }
}

} // verus!
