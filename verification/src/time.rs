//! Instants in UTC and spans of time, as numbers.

use crate::outside::{now_nanos, seconds_to_nanos, span_to_duration, zoned_checked_add, zoned_strftime};
use crate::outside::{formatted_time, span_length, zoned_plus_span};
use vstd::prelude::*;

verus! {

/// The first representable instant, in nanoseconds after 1970.
pub const MIN_NANOS: i128 = -377_705_023_201_000_000_000;

/// The last representable instant, in nanoseconds after 1970: the last nanosecond
/// of 9999-12-30T22:00:00Z.
pub const MAX_NANOS: i128 = 253_402_207_200_999_999_999;

/// Nanoseconds per second.
pub const NANOS_PER_SECOND: i128 = 1_000_000_000;

/// Whether an instant at this many nanoseconds after 1970 is representable.
pub open spec fn in_time_range(nanos: int) -> bool {
    MIN_NANOS <= nanos <= MAX_NANOS
}

/// How dates are written in HTTP headers.
pub open spec fn http_date_format() -> Seq<char> {
    "%a, %d %b %Y %H:%M:%S GMT"@
}

/// The error for a date outside of the representable range.
#[derive(Debug, Clone, Copy, PartialEq, Eq, Structural)]
pub struct DateOverflow;

/// An instant in UTC.
#[derive(Debug, Clone, Copy)]
pub struct UtcTime {
    nanos: i128,
}

impl View for UtcTime {
    type V = int;

    /// The nanoseconds after 1970.
    closed spec fn view(&self) -> int {
        self.nanos as int
    }
}

impl UtcTime {
    #[verifier::type_invariant]
    spec fn representable(self) -> bool {
        in_time_range(self.nanos as int)
    }

    /// The last representable instant.
    pub fn max() -> (t: Self)
        ensures
            t@ == MAX_NANOS,
    {
        UtcTime { nanos: MAX_NANOS }
    }

    /// The present instant.
    pub fn now() -> (t: Self)
        ensures
            in_time_range(t@),
    {
        UtcTime { nanos: now_nanos() }
    }

    /// The instant this many nanoseconds after 1970.
    pub fn from_nanos(nanos: i128) -> (t: Option<Self>)
        ensures
            t is Some <==> in_time_range(nanos as int),
            t is Some ==> t->0@ == nanos,
    {
        if MIN_NANOS <= nanos && nanos <= MAX_NANOS {
            Some(UtcTime { nanos })
        } else {
            None
        }
    }

    /// The instant this many seconds after 1970.
    pub fn from_second(second: i64) -> (t: Result<Self, DateOverflow>)
        ensures
            t is Ok <==> in_time_range(second * NANOS_PER_SECOND),
            t is Ok ==> t->Ok_0@ == second * NANOS_PER_SECOND,
    {
        match seconds_to_nanos(second) {
            Ok(nanos) => Ok(UtcTime { nanos }),
            Err(_) => Err(DateOverflow),
        }
    }

    /// The nanoseconds after 1970.
    pub fn nanos(&self) -> (nanos: i128)
        ensures
            nanos == self@,
            in_time_range(self@),
    {
        proof {
            use_type_invariant(self);
        }
        self.nanos
    }

    /// Whether this instant comes before the other.
    pub fn is_before(&self, other: &UtcTime) -> (before: bool)
        ensures
            before == (self@ < other@),
    {
        self.nanos < other.nanos
    }

    /// The instant `span` after this one, by the calendar.
    pub fn checked_add(&self, span: &Span) -> (t: Result<Self, DateOverflow>)
        ensures
            match t {
                Ok(end) => zoned_plus_span(self@, span@) == Some(end@),
                Err(_) => zoned_plus_span(self@, span@) is None,
            },
            !has_calendar_units(span@) ==> (t is Ok <==> in_time_range(
                self@ + clock_nanos(span@),
            )),
            !has_calendar_units(span@) && t is Ok ==> t->Ok_0@ == self@ + clock_nanos(span@),
            t is Ok ==> in_time_range(t->Ok_0@),
    {
        proof {
            use_type_invariant(self);
            use_type_invariant(span);
        }
        match zoned_checked_add(self.nanos, span.units) {
            Ok(nanos) => Ok(UtcTime { nanos }),
            Err(_) => Err(DateOverflow),
        }
    }

    /// The instant this many nanoseconds after this one.
    pub fn checked_add_nanos(&self, nanos: i128) -> (t: Result<Self, DateOverflow>)
        ensures
            t is Ok <==> in_time_range(self@ + nanos),
            t is Ok ==> t->Ok_0@ == self@ + nanos,
    {
        match self.nanos.checked_add(nanos) {
            Some(sum) => match UtcTime::from_nanos(sum) {
                Some(t) => Ok(t),
                None => Err(DateOverflow),
            },
            None => Err(DateOverflow),
        }
    }

    /// This instant as the date in an HTTP header.
    pub fn http_date(&self) -> (text: String)
        ensures
            text@ == formatted_time(self@, http_date_format()),
    {
        proof {
            use_type_invariant(self);
        }
        zoned_strftime(self.nanos, "%a, %d %b %Y %H:%M:%S GMT")
    }
}

/// The units of a span. All of them point in the same direction.
#[derive(Debug, Clone, Copy, PartialEq, Eq, Structural)]
pub struct SpanUnits {
    pub years: i64,
    pub months: i64,
    pub weeks: i64,
    pub days: i64,
    pub hours: i64,
    pub minutes: i64,
    pub seconds: i64,
    pub milliseconds: i64,
    pub microseconds: i64,
    pub nanoseconds: i64,
}

/// The most hours that a span can hold.
pub const MAX_SPAN_HOURS: i64 = 175_307_616;

/// Whether no unit goes beyond what the calendar can hold.
pub open spec fn within_limits(u: SpanUnits) -> bool {
    &&& -19_998 <= u.years <= 19_998
    &&& -239_976 <= u.months <= 239_976
    &&& -1_043_497 <= u.weeks <= 1_043_497
    &&& -7_304_484 <= u.days <= 7_304_484
    &&& -MAX_SPAN_HOURS <= u.hours <= MAX_SPAN_HOURS
    &&& -10_518_456_960 <= u.minutes <= 10_518_456_960
    &&& -631_107_417_600 <= u.seconds <= 631_107_417_600
    &&& -631_107_417_600_000 <= u.milliseconds <= 631_107_417_600_000
    &&& -631_107_417_600_000_000 <= u.microseconds <= 631_107_417_600_000_000
    &&& -i64::MAX <= u.nanoseconds
}

/// Whether no unit is negative.
pub open spec fn not_negative(u: SpanUnits) -> bool {
    &&& u.years >= 0 && u.months >= 0 && u.weeks >= 0 && u.days >= 0 && u.hours >= 0
    &&& u.minutes >= 0 && u.seconds >= 0 && u.milliseconds >= 0 && u.microseconds >= 0
    &&& u.nanoseconds >= 0
}

/// Whether no unit is positive.
pub open spec fn not_positive(u: SpanUnits) -> bool {
    &&& u.years <= 0 && u.months <= 0 && u.weeks <= 0 && u.days <= 0 && u.hours <= 0
    &&& u.minutes <= 0 && u.seconds <= 0 && u.milliseconds <= 0 && u.microseconds <= 0
    &&& u.nanoseconds <= 0
}

/// Whether these units make a span.
pub open spec fn is_span(u: SpanUnits) -> bool {
    within_limits(u) && (not_negative(u) || not_positive(u))
}

/// Whether a unit is used whose length the calendar decides.
pub open spec fn has_calendar_units(u: SpanUnits) -> bool {
    u.years != 0 || u.months != 0 || u.weeks != 0 || u.days != 0
}

/// The nanoseconds in the hours and the smaller units.
pub open spec fn clock_nanos(u: SpanUnits) -> int {
    (u.hours * 3600 + u.minutes * 60 + u.seconds) * 1_000_000_000 + u.milliseconds * 1_000_000
        + u.microseconds * 1_000 + u.nanoseconds
}

/// A span of time, in units of the calendar and of the clock.
#[derive(Debug, Clone, Copy)]
pub struct Span {
    units: SpanUnits,
}

impl View for Span {
    type V = SpanUnits;

    closed spec fn view(&self) -> SpanUnits {
        self.units
    }
}

impl Span {
    #[verifier::type_invariant]
    spec fn sound(self) -> bool {
        is_span(self.units)
    }

    /// The span of these units, if they make one.
    pub fn from_units(units: SpanUnits) -> (span: Option<Self>)
        ensures
            span is Some <==> is_span(units),
            span is Some ==> span->0@ == units,
    {
        let u = units;
        let limited: bool = -19_998 <= u.years && u.years <= 19_998
            && -239_976 <= u.months && u.months <= 239_976
            && -1_043_497 <= u.weeks && u.weeks <= 1_043_497
            && -7_304_484 <= u.days && u.days <= 7_304_484
            && -MAX_SPAN_HOURS <= u.hours && u.hours <= MAX_SPAN_HOURS
            && -10_518_456_960 <= u.minutes && u.minutes <= 10_518_456_960
            && -631_107_417_600 <= u.seconds && u.seconds <= 631_107_417_600
            && -631_107_417_600_000 <= u.milliseconds && u.milliseconds <= 631_107_417_600_000
            && -631_107_417_600_000_000 <= u.microseconds
            && u.microseconds <= 631_107_417_600_000_000
            && -i64::MAX <= u.nanoseconds;
        let forward: bool = u.years >= 0 && u.months >= 0 && u.weeks >= 0 && u.days >= 0
            && u.hours >= 0 && u.minutes >= 0 && u.seconds >= 0 && u.milliseconds >= 0
            && u.microseconds >= 0 && u.nanoseconds >= 0;
        let backward: bool = u.years <= 0 && u.months <= 0 && u.weeks <= 0 && u.days <= 0
            && u.hours <= 0 && u.minutes <= 0 && u.seconds <= 0 && u.milliseconds <= 0
            && u.microseconds <= 0 && u.nanoseconds <= 0;
        if limited && (forward || backward) {
            Some(Span { units })
        } else {
            None
        }
    }

    /// A span of whole hours.
    pub fn hours(hours: i64) -> (span: Self)
        requires
            -MAX_SPAN_HOURS <= hours <= MAX_SPAN_HOURS,
        ensures
            span@ == hours_only(hours),
    {
        Span {
            units: SpanUnits {
                years: 0,
                months: 0,
                weeks: 0,
                days: 0,
                hours,
                minutes: 0,
                seconds: 0,
                milliseconds: 0,
                microseconds: 0,
                nanoseconds: 0,
            },
        }
    }

    /// The units of the span.
    pub fn units(&self) -> (units: SpanUnits)
        ensures
            units == self@,
            is_span(units),
    {
        proof {
            use_type_invariant(self);
        }
        self.units
    }

    /// The nanoseconds that the span lasts when it begins at `start`.
    pub fn to_nanos(&self, start: &UtcTime) -> (nanos: Result<i128, DateOverflow>)
        ensures
            match nanos {
                Ok(n) => span_length(self@, start@) == Some(n as int),
                Err(_) => span_length(self@, start@) is None,
            },
            nanos is Ok ==> is_duration(nanos->Ok_0 as int),
            match zoned_plus_span(start@, self@) {
                Some(end) => nanos is Ok && nanos->Ok_0 == end - start@,
                None => has_calendar_units(self@) ==> nanos is Err,
            },
            !has_calendar_units(self@) ==> nanos is Ok && nanos->Ok_0 == clock_nanos(self@),
    {
        proof {
            use_type_invariant(self);
            use_type_invariant(start);
        }
        match span_to_duration(self.units, start.nanos) {
            Ok(n) => Ok(n),
            Err(_) => Err(DateOverflow),
        }
    }
}

/// The units of a span of whole hours.
pub open spec fn hours_only(hours: i64) -> SpanUnits {
    SpanUnits {
        years: 0,
        months: 0,
        weeks: 0,
        days: 0,
        hours,
        minutes: 0,
        seconds: 0,
        milliseconds: 0,
        microseconds: 0,
        nanoseconds: 0,
    }
}

/// Whether a signed duration of whole seconds in an `i64` and a fraction of a
/// second holds this many nanoseconds.
pub open spec fn is_duration(nanos: int) -> bool {
    (i64::MIN - 1) * NANOS_PER_SECOND < nanos < (i64::MAX + 1) * NANOS_PER_SECOND
}

} // verus!
