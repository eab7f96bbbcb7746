//! Instants on the UTC time line, as chrono represents them, and the
//! differences between them that the detection rules read.

use chrono::{DateTime, Utc};
use vstd::prelude::*;

verus! {

/// Earliest second that chrono's `DateTime<Utc>` can hold (January 1 of year -262143).
pub const MIN_TIMESTAMP_SECS: i64 = -8334601315200;

/// Latest second that chrono's `DateTime<Utc>` can hold (December 31 of year 262142, 23:59:59).
pub const MAX_TIMESTAMP_SECS: i64 = 8210266876799;

pub const NANOS_PER_SEC: u32 = 1_000_000_000;

/// The pairs (seconds since the epoch, nanoseconds) that name an instant:
/// a nanosecond count of a second or more marks a leap second, which only
/// the last second of a minute can carry.
pub open spec fn valid_instant(secs: int, nanos: int) -> bool {
    &&& MIN_TIMESTAMP_SECS <= secs <= MAX_TIMESTAMP_SECS
    &&& 0 <= nanos < 2 * NANOS_PER_SEC
    &&& (nanos >= NANOS_PER_SEC ==> secs % 60 == 59)
}

/// Seconds elapsed since midnight of the day that holds `secs`.
pub open spec fn second_of_day(secs: int) -> int {
    secs % 86400
}

/// Signed length in nanoseconds of the interval from `earlier` to `later`,
/// where a leap second that lies strictly between the two counts as one
/// extra second.
pub open spec fn delta_nanos(later: (int, int), earlier: (int, int)) -> int {
    let leap = if second_of_day(later.0) > second_of_day(earlier.0) && earlier.1 >= NANOS_PER_SEC {
        1int
    } else if second_of_day(later.0) < second_of_day(earlier.0) && later.1 >= NANOS_PER_SEC {
        -1int
    } else {
        0int
    };
    (later.0 - earlier.0 + leap) * NANOS_PER_SEC + (later.1 - earlier.1)
}

/// Integer division that rounds toward zero, for a positive divisor.
pub open spec fn div_toward_zero(x: int, d: int) -> int
    recommends
        d > 0,
{
    if x >= 0 {
        x / d
    } else {
        -((-x) / d)
    }
}

/// Whole seconds from `earlier` to `later`, rounded toward zero.
pub open spec fn seconds_between(later: Timestamp, earlier: Timestamp) -> int {
    div_toward_zero(delta_nanos(later@, earlier@), NANOS_PER_SEC as int)
}

/// Whole milliseconds from `earlier` to `later`, rounded toward zero.
pub open spec fn millis_between(later: Timestamp, earlier: Timestamp) -> int {
    div_toward_zero(delta_nanos(later@, earlier@), 1_000_000)
}

/// An instant: seconds since 1970-01-01T00:00:00Z and the nanoseconds into
/// that second (at least one second's worth during a leap second).
#[derive(Clone, Copy, Debug, PartialEq, Eq, Structural)]
pub struct Timestamp {
    secs: i64,
    nanos: u32,
}

impl View for Timestamp {
    type V = (int, int);

    closed spec fn view(&self) -> (int, int) {
        (self.secs as int, self.nanos as int)
    }
}

impl Timestamp {
    #[verifier::type_invariant]
    spec fn well_formed(self) -> bool {
        valid_instant(self.secs as int, self.nanos as int)
    }

    /// The instant with the given parts, if they name one.
    pub fn new(secs: i64, nanos: u32) -> (r: Option<Timestamp>)
        ensures
            r is Some <==> valid_instant(secs as int, nanos as int),
            r matches Some(t) ==> t@ == (secs as int, nanos as int),
    {
        if secs < MIN_TIMESTAMP_SECS || secs > MAX_TIMESTAMP_SECS || nanos >= 2 * NANOS_PER_SEC {
            return None;
        }
        // MIN_TIMESTAMP_SECS is a whole number of days, so the offset has the
        // same remainder modulo 60 as `secs`.
        let offset: i64 = secs - MIN_TIMESTAMP_SECS;
        let second_of_minute: i64 = offset % 60;
        assert(second_of_minute == secs % 60) by {
            assert(MIN_TIMESTAMP_SECS == -138910021920 * 60);
        }
        if nanos >= NANOS_PER_SEC && second_of_minute != 59 {
            return None;
        }
        Some(Timestamp { secs, nanos })
    }

    /// Seconds since the epoch.
    pub fn secs(&self) -> (r: i64)
        ensures
            r == self@.0,
    {
        self.secs
    }

    /// Nanoseconds into the second.
    pub fn subsec_nanos(&self) -> (r: u32)
        ensures
            r == self@.1,
    {
        self.nanos
    }
}

/// Wraps chrono's `DateTime<Utc> - DateTime<Utc>` followed by
/// `TimeDelta::num_seconds`: the difference of the two instants, truncated
/// toward zero to whole seconds. Every `Timestamp` is an instant that
/// `DateTime::from_timestamp` accepts, so the conversions cannot fail.
#[verifier::external_body]
pub(crate) fn whole_seconds_between(later: &Timestamp, earlier: &Timestamp) -> (r: i64)
    ensures
        r == seconds_between(*later, *earlier),
{
    let a = DateTime::from_timestamp(later.secs, later.nanos).expect("valid instant");
    let b = DateTime::from_timestamp(earlier.secs, earlier.nanos).expect("valid instant");
    (a - b).num_seconds()
}

/// Wraps chrono's `DateTime<Utc> - DateTime<Utc>` followed by
/// `TimeDelta::num_milliseconds`: the difference of the two instants,
/// truncated toward zero to whole milliseconds.
#[verifier::external_body]
pub(crate) fn whole_millis_between(later: &Timestamp, earlier: &Timestamp) -> (r: i64)
    ensures
        r == millis_between(*later, *earlier),
{
    let a = DateTime::from_timestamp(later.secs, later.nanos).expect("valid instant");
    let b = DateTime::from_timestamp(earlier.secs, earlier.nanos).expect("valid instant");
    (a - b).num_milliseconds()
}

/// Wraps chrono's `Utc::now`: the system clock's current instant. chrono
/// builds it from the time elapsed since the epoch, so it is never before
/// the epoch and never inside a leap second; which instant it is depends on
/// the clock and is left open.
#[verifier::external_body]
pub(crate) fn current_time() -> (t: Timestamp)
    ensures
        t@.0 >= 0,
        t@.1 < NANOS_PER_SEC,
{
    let now = Utc::now();
    Timestamp { secs: now.timestamp(), nanos: now.timestamp_subsec_nanos() }
}

} // verus!
