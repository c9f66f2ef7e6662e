//! Points in UTC time, as seconds and nanoseconds since the Unix epoch.

use vstd::prelude::*;

verus! {

/// Nanoseconds in one second.
pub const NANOS_PER_SEC: u32 = 1_000_000_000;

/// Earliest second that chrono represents: 00:00:00 UTC on January 1 of the
/// proleptic year -262143 (262144 BCE), the timestamp of `DateTime::<Utc>::MIN_UTC`.
pub const EARLIEST_SECS: i64 = -8_334_601_228_800;

/// Latest second that chrono represents: 23:59:59 UTC on December 31, 262142 CE,
/// the timestamp of `DateTime::<Utc>::MAX_UTC`.
pub const LATEST_SECS: i64 = 8_210_266_876_799;

/// Largest number of seconds that a chrono duration holds (`i64::MAX` milliseconds).
pub const MAX_DURATION_SECS: i64 = 9_223_372_036_854_775;

/// A point in time: whole seconds since 1970-01-01T00:00:00Z and the nanoseconds after them.
/// A leap second carries 1_000_000_000 or more nanoseconds, as chrono writes it.
#[derive(Clone, Copy, Debug, PartialEq, Eq, Structural)]
pub struct Instant {
    pub secs: i64,
    pub nanos: u32,
}

impl Instant {
    /// Nanoseconds since the epoch, for an instant that is not a leap second.
    pub open spec fn total_nanos(self) -> int {
        self.secs * 1_000_000_000 + self.nanos
    }

    /// Not a leap second: the nanoseconds stay under one second.
    pub open spec fn is_regular(self) -> bool {
        self.nanos < NANOS_PER_SEC
    }

    /// Within the calendar that chrono represents.
    pub open spec fn in_calendar(self) -> bool {
        EARLIEST_SECS <= self.secs <= LATEST_SECS
    }

    /// The order of chrono's `DateTime<Utc>`: by the second, then by the fraction.
    pub open spec fn spec_later_than(self, other: Instant) -> bool {
        self.secs > other.secs || (self.secs == other.secs && self.nanos > other.nanos)
    }

    /// Whether `self` comes strictly after `other`.
    pub fn later_than(&self, other: &Instant) -> (res: bool)
        ensures
            res == self.spec_later_than(*other),
    {
        self.secs > other.secs || (self.secs == other.secs && self.nanos > other.nanos)
    }
}

/// Whether `minutes` minutes before `now` is a time that chrono can compute:
/// the span fits a chrono duration and the result stays in chrono's calendar.
pub open spec fn minutes_back_defined(now: Instant, minutes: i64) -> bool {
    let back = now.total_nanos() - minutes * 60 * 1_000_000_000;
    &&& now.is_regular()
    &&& now.in_calendar()
    &&& -MAX_DURATION_SECS <= minutes * 60 <= MAX_DURATION_SECS
    &&& EARLIEST_SECS * 1_000_000_000 <= back < (LATEST_SECS + 1) * 1_000_000_000
}

/// Whether chrono can compute the instant `minutes` minutes before `now`
/// (see `minutes_back_defined`); where it cannot, chrono panics.
pub fn can_go_back_minutes(now: Instant, minutes: i64) -> (res: bool)
    ensures
        res == minutes_back_defined(now, minutes),
{
    let span: i128 = minutes as i128 * 60;
    let total: i128 = now.secs as i128 * 1_000_000_000 + now.nanos as i128;
    let back: i128 = total - span * 1_000_000_000;
    now.nanos < NANOS_PER_SEC && EARLIEST_SECS <= now.secs && now.secs <= LATEST_SECS && -(
    MAX_DURATION_SECS as i128) <= span && span <= MAX_DURATION_SECS as i128 && EARLIEST_SECS as i128
        * 1_000_000_000 <= back && back < (LATEST_SECS as i128 + 1) * 1_000_000_000
}

/// The instant `minutes` minutes before `now`, computed by chrono as
/// `DateTime<Utc> - Duration::minutes(minutes)`.
///
/// Trusted: chrono builds the `DateTime` from the two parts, subtracts the
/// duration, and hands back the parts of the result. The contract claims that,
/// on instants that are not leap seconds, this is exact subtraction of
/// nanoseconds, and that neither step panics on the inputs that `requires` admits.
#[verifier::external_body]
pub fn minutes_before(now: Instant, minutes: i64) -> (res: Instant)
    requires
        minutes_back_defined(now, minutes),
    ensures
        res.is_regular(),
        res.total_nanos() == now.total_nanos() - minutes * 60 * 1_000_000_000,
{
    let start = chrono::DateTime::from_timestamp(now.secs, now.nanos).unwrap();
    let back = start - chrono::Duration::minutes(minutes);
    Instant { secs: back.timestamp(), nanos: back.timestamp_subsec_nanos() }
}

} // verus!
