//! Points in time, and the arithmetic on them that the rules need.
//!
//! A point in time is kept as two plain integers. The arithmetic itself is
//! `chrono`'s, reached through the wrappers at the end of the file.

use chrono::{DateTime, TimeDelta, Utc};
use vstd::prelude::*;

verus! {

/// The first second that a `chrono::DateTime<Utc>` can hold
/// (January 1 of the year -262143, 00:00:00).
pub const MIN_SECS: i64 = -8_334_601_228_800;

/// The last second that a `chrono::DateTime<Utc>` can hold
/// (December 31 of the year 262142, 23:59:59).
pub const MAX_SECS: i64 = 8_210_266_876_799;

pub const SECOND_NANOS: i64 = 1_000_000_000;

pub const DAY_SECS: i64 = 86_400;

pub const DAY_NANOS: i64 = 86_400_000_000_000;

/// What a `Timestamp` stands for: seconds since the Unix epoch, leap seconds
/// not counted, and nanoseconds since that second. During a leap second the
/// nanoseconds go on beyond a whole second.
pub struct Instant {
    pub secs: int,
    pub nanos: int,
}

impl Instant {
    /// The instants that `DateTime::from_timestamp` accepts.
    pub open spec fn valid(self) -> bool {
        &&& MIN_SECS <= self.secs <= MAX_SECS
        &&& 0 <= self.nanos < 2 * SECOND_NANOS
        &&& self.is_leap() ==> self.secs % 60 == 59
    }

    pub open spec fn is_leap(self) -> bool {
        self.nanos >= SECOND_NANOS
    }

    /// Nanoseconds since the Unix epoch.
    pub open spec fn total_nanos(self) -> int {
        self.secs * SECOND_NANOS + self.nanos
    }

    /// Seconds since midnight.
    pub open spec fn second_of_day(self) -> int {
        self.secs % (DAY_SECS as int)
    }

    /// The instant that lies `days` days of 86400 seconds earlier.
    pub open spec fn minus_days(self, days: int) -> Instant {
        let nanos = self.total_nanos() - days * DAY_NANOS;
        Instant { secs: nanos / (SECOND_NANOS as int), nanos: nanos % (SECOND_NANOS as int) }
    }
}

/// Nanoseconds that pass from `earlier` to `later`; negative where `later`
/// comes first. Only a leap second that one of the two lies in is counted,
/// and only where the other lies on the far side of it by the time of day.
pub open spec fn elapsed_nanos(later: Instant, earlier: Instant) -> int {
    let plain = later.total_nanos() - earlier.total_nanos();
    if later.second_of_day() > earlier.second_of_day() && earlier.is_leap() {
        plain + SECOND_NANOS
    } else if later.second_of_day() < earlier.second_of_day() && later.is_leap() {
        plain - SECOND_NANOS
    } else {
        plain
    }
}

/// What the system clock can show: a time not before the Unix epoch, and never
/// inside a leap second.
pub open spec fn clock_reading(t: Instant) -> bool {
    t.valid() && 0 <= t.secs && !t.is_leap()
}

/// The system clock showed `t` when it was read. What this comes to is known
/// here alone: elsewhere no instant but a result of `utc_now` can be shown to
/// have it.
pub closed spec fn shown_by_clock(t: Instant) -> bool {
    clock_reading(t)
}

/// Whole days in a number of nanoseconds, rounded towards zero.
pub open spec fn whole_days(nanos: int) -> int {
    if nanos >= 0 {
        nanos / (DAY_NANOS as int)
    } else {
        -((-nanos) / (DAY_NANOS as int))
    }
}

/// A point in time.
#[derive(Debug, Clone, Copy, PartialEq, Eq, Structural)]
pub struct Timestamp {
    secs: i64,
    nanos: u32,
}

impl View for Timestamp {
    type V = Instant;

    closed spec fn view(&self) -> Instant {
        Instant { secs: self.secs as int, nanos: self.nanos as int }
    }
}

impl Timestamp {
    #[verifier::type_invariant]
    pub(crate) closed spec fn in_range(self) -> bool {
        self@.valid()
    }

    /// The point in time `nanos` nanoseconds after the second `secs` since the
    /// Unix epoch, if there is one.
    pub fn new(secs: i64, nanos: u32) -> (r: Option<Timestamp>)
        ensures
            r is Some <==> (Instant { secs: secs as int, nanos: nanos as int }).valid(),
            r matches Some(t) ==> t@ == (Instant { secs: secs as int, nanos: nanos as int }),
    {
        let leap = nanos as i64 >= SECOND_NANOS;
        if secs < MIN_SECS || secs > MAX_SECS || nanos as i64 >= 2 * SECOND_NANOS {
            return None;
        }
        if leap && (secs - MIN_SECS) % 60 != 59 {
            return None;
        }
        Some(Timestamp { secs, nanos })
    }

    /// Seconds since the Unix epoch.
    pub fn secs(&self) -> (r: i64)
        ensures
            r == self@.secs,
            self@.valid(),
    {
        proof {
            use_type_invariant(self);
        }
        self.secs
    }

    /// Nanoseconds since the second `secs`.
    pub fn nanos(&self) -> (r: u32)
        ensures
            r == self@.nanos,
            self@.valid(),
    {
        proof {
            use_type_invariant(self);
        }
        self.nanos
    }
}

/// A length of time as `chrono::TimeDelta` reports it: whole seconds and the
/// nanoseconds beyond them, both with the sign of the whole.
#[derive(Clone, Copy)]
struct TimeSpan {
    secs: i64,
    nanos: i32,
}

impl TimeSpan {
    spec fn total_nanos(self) -> int {
        self.secs * SECOND_NANOS + self.nanos
    }

    /// The lengths that a `chrono::TimeDelta` can hold: at most `i64::MAX`
    /// milliseconds either way.
    spec fn valid(self) -> bool {
        &&& -SECOND_NANOS < self.nanos < SECOND_NANOS
        &&& self.secs > 0 ==> self.nanos >= 0
        &&& self.secs < 0 ==> self.nanos <= 0
        &&& -i64::MAX * 1_000_000 <= self.total_nanos() <= i64::MAX * 1_000_000
    }
}

/// An instant is a point in time just where its second lies between the first
/// and the last that a date can have, and its nanoseconds lie within that
/// second, or within the leap second that follows the last second of a minute.
pub proof fn law_points_in_time(t: Instant)
    ensures
        0 <= t.nanos < 1_000_000_000 ==> (t.valid() <==> -8_334_601_228_800 <= t.secs
            <= 8_210_266_876_799),
        1_000_000_000 <= t.nanos < 2_000_000_000 ==> (t.valid() <==> -8_334_601_228_800 <= t.secs
            <= 8_210_266_876_799 && (t.secs - 59) % 60 == 0),
        t.nanos < 0 || t.nanos >= 2_000_000_000 ==> !t.valid(),
{
}

/// Outside of leap seconds the time that passes is the plain difference of the
/// two instants, and a leap second moves it by at most one second.
pub proof fn law_elapsed_is_the_difference(later: Instant, earlier: Instant)
    ensures
        ({
            let difference = (later.secs - earlier.secs) * 1_000_000_000 + later.nanos
                - earlier.nanos;
            let elapsed = elapsed_nanos(later, earlier);
            &&& later.nanos < 1_000_000_000 && earlier.nanos < 1_000_000_000 ==> elapsed
                == difference
            &&& difference - 1_000_000_000 <= elapsed <= difference + 1_000_000_000
        }),
{
}

/// Looking from the later instant or from the earlier one changes the sign of
/// the time that passes, and nothing else.
pub proof fn law_elapsed_is_antisymmetric(a: Instant, b: Instant)
    ensures
        elapsed_nanos(a, b) == -elapsed_nanos(b, a),
        elapsed_nanos(a, a) == 0,
{
}

/// A number of whole days is the largest that fits, and a length taken the
/// other way has as many whole days the other way.
pub proof fn law_whole_days_fit(nanos: int)
    ensures
        nanos >= 0 ==> whole_days(nanos) * 86_400_000_000_000 <= nanos < (whole_days(nanos) + 1)
            * 86_400_000_000_000,
        whole_days(-nanos) == -whole_days(nanos),
{
}

/// Going back a number of days takes just their nanoseconds off, and ends
/// outside of leap seconds.
pub proof fn law_minus_days(t: Instant, days: int)
    ensures
        ({
            let earlier = t.minus_days(days);
            &&& (t.secs - earlier.secs) * 1_000_000_000 + t.nanos - earlier.nanos == days
                * 86_400_000_000_000
            &&& 0 <= earlier.nanos < 1_000_000_000
        }),
{
}

/// Whole days from `earlier` to `later`, rounded towards zero.
pub(crate) fn days_between(later: Timestamp, earlier: Timestamp) -> (days: i64)
    ensures
        days == whole_days(elapsed_nanos(later@, earlier@)),
{
    proof {
        use_type_invariant(later);
        use_type_invariant(earlier);
    }
    num_days(signed_duration_since(later, earlier))
}

/// The point in time `days` days before `t`.
pub(crate) fn days_before(t: Timestamp, days: i64) -> (r: Timestamp)
    requires
        1 <= days,
        MIN_SECS * SECOND_NANOS <= t@.total_nanos() - days * DAY_NANOS,
    ensures
        r@ == t@.minus_days(days as int),
{
    proof {
        use_type_invariant(t);
    }
    minus_span(t, span_of_days(days))
}

/// `chrono::Utc::now`, where it reads the clock of the operating system:
/// whatever the clock shows, the result lies in range, not before the Unix
/// epoch (with a clock set earlier the call panics) and never inside a leap
/// second. Nothing is said of which time it is, nor of the order of two
/// readings.
#[verifier::external_body]
pub(crate) fn utc_now() -> (now: Timestamp)
    ensures
        clock_reading(now@),
        shown_by_clock(now@),
{
    let now = Utc::now();
    Timestamp { secs: now.timestamp(), nanos: now.timestamp_subsec_nanos() }
}

/// `DateTime<Utc> - DateTime<Utc>`: the time that passes from `earlier` to
/// `later`, to the nanosecond. Both arguments are in range, so both
/// conversions succeed, and every difference fits a `TimeDelta`.
#[verifier::external_body]
fn signed_duration_since(later: Timestamp, earlier: Timestamp) -> (span: TimeSpan)
    requires
        later@.valid(),
        earlier@.valid(),
    ensures
        span.valid(),
        span.total_nanos() == elapsed_nanos(later@, earlier@),
{
    let later: DateTime<Utc> = DateTime::from_timestamp(later.secs, later.nanos).unwrap();
    let earlier: DateTime<Utc> = DateTime::from_timestamp(earlier.secs, earlier.nanos).unwrap();
    let delta = later - earlier;
    TimeSpan { secs: delta.num_seconds(), nanos: delta.subsec_nanos() }
}

/// `chrono::TimeDelta::num_days`: the whole days in a length of time, rounded
/// towards zero.
#[verifier::external_body]
fn num_days(span: TimeSpan) -> (days: i64)
    requires
        span.valid(),
    ensures
        days == whole_days(span.total_nanos()),
{
    let delta = TimeDelta::seconds(span.secs) + TimeDelta::nanoseconds(i64::from(span.nanos));
    delta.num_days()
}

/// `chrono::Duration::days`: a number of days of 86400 seconds each. The call
/// panics where they do not fit a `TimeDelta`.
#[verifier::external_body]
fn span_of_days(days: i64) -> (span: TimeSpan)
    requires
        -i64::MAX * 1_000_000 <= days * DAY_NANOS <= i64::MAX * 1_000_000,
    ensures
        span.valid(),
        span.total_nanos() == days * DAY_NANOS,
{
    let delta = chrono::Duration::days(days);
    TimeSpan { secs: delta.num_seconds(), nanos: delta.subsec_nanos() }
}

/// `DateTime<Utc> - TimeDelta`, for a length of at least one second: the point
/// in time that much earlier. A leap second is left by such a step, so the
/// result does not lie in one. The call panics where the result is out of
/// range.
#[verifier::external_body]
fn minus_span(t: Timestamp, span: TimeSpan) -> (r: Timestamp)
    requires
        t@.valid(),
        span.valid(),
        span.secs >= 1,
        MIN_SECS * SECOND_NANOS <= t@.total_nanos() - span.total_nanos(),
    ensures
        r@.valid(),
        !r@.is_leap(),
        r@.total_nanos() == t@.total_nanos() - span.total_nanos(),
{
    let t: DateTime<Utc> = DateTime::from_timestamp(t.secs, t.nanos).unwrap();
    let delta = TimeDelta::seconds(span.secs) + TimeDelta::nanoseconds(i64::from(span.nanos));
    let earlier = t - delta;
    Timestamp { secs: earlier.timestamp(), nanos: earlier.timestamp_subsec_nanos() }
}

} // verus!
