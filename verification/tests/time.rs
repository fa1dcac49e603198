use cabinet::time::{Span, SpanUnits, UtcTime};
use cabinet::time::{MAX_NANOS, MAX_SPAN_HOURS, MIN_NANOS};
use jiff::tz::TimeZone;
use jiff::Timestamp;

fn no_units() -> SpanUnits {
    Span::hours(0).units()
}

fn to_jiff(u: SpanUnits) -> jiff::Span {
    jiff::Span::new()
        .years(u.years)
        .months(u.months)
        .weeks(u.weeks)
        .days(u.days)
        .hours(u.hours)
        .minutes(u.minutes)
        .seconds(u.seconds)
        .milliseconds(u.milliseconds)
        .microseconds(u.microseconds)
        .nanoseconds(u.nanoseconds)
}

#[test]
fn the_range_of_dates_is_that_of_timestamps() {
    assert_eq!(Timestamp::MIN.as_nanosecond(), MIN_NANOS);
    assert_eq!(Timestamp::MAX.as_nanosecond(), MAX_NANOS);
    assert_eq!(UtcTime::max().nanos(), MAX_NANOS);
    assert!(UtcTime::from_nanos(MAX_NANOS).is_some());
    assert!(UtcTime::from_nanos(MAX_NANOS + 1).is_none());
    assert!(UtcTime::from_nanos(MIN_NANOS).is_some());
    assert!(UtcTime::from_nanos(MIN_NANOS - 1).is_none());
}

#[test]
fn seconds_become_dates_where_they_fit() {
    for second in [
        0i64,
        1,
        -1,
        1_700_000_000,
        253_402_207_200,
        253_402_207_201,
        -377_705_023_201,
        -377_705_023_202,
        i64::MAX,
        i64::MIN,
    ] {
        let expected = Timestamp::from_second(second).ok().map(|t| t.as_nanosecond());
        assert_eq!(UtcTime::from_second(second).ok().map(|t| t.nanos()), expected);
    }
}

#[test]
fn now_is_now() {
    let before = Timestamp::now().as_nanosecond();
    let now = UtcTime::now().nanos();
    let after = Timestamp::now().as_nanosecond();
    assert!(before <= now && now <= after);
}

#[test]
fn dates_are_ordered() {
    let a = UtcTime::from_nanos(5).unwrap();
    let b = UtcTime::from_nanos(6).unwrap();
    assert!(a.is_before(&b));
    assert!(!b.is_before(&a));
    assert!(!a.is_before(&a));
}

#[test]
fn http_dates_have_the_form_of_headers() {
    let t = UtcTime::from_second(784_111_777).unwrap();
    assert_eq!(t.http_date(), "Sun, 06 Nov 1994 08:49:37 GMT");
    assert_eq!(UtcTime::from_nanos(0).unwrap().http_date(), "Thu, 01 Jan 1970 00:00:00 GMT");
    assert_eq!(UtcTime::max().http_date(), "Thu, 30 Dec 9999 22:00:00 GMT");
}

#[test]
fn clock_spans_are_added_exactly() {
    let t = UtcTime::from_nanos(1_000).unwrap();
    let span = Span::from_units(SpanUnits {
        hours: 1,
        minutes: 2,
        seconds: 3,
        milliseconds: 4,
        microseconds: 5,
        nanoseconds: 6,
        ..no_units()
    })
    .unwrap();
    let nanos: i128 = 3_723_004_005_006;
    assert_eq!(span.to_nanos(&t).unwrap(), nanos);
    assert_eq!(t.checked_add(&span).unwrap().nanos(), 1_000 + nanos);
    let back = Span::from_units(SpanUnits { hours: -1, minutes: -30, ..no_units() }).unwrap();
    assert_eq!(back.to_nanos(&t).unwrap(), -5_400_000_000_000);
    assert_eq!(t.checked_add(&back).unwrap().nanos(), 1_000 - 5_400_000_000_000);
}

#[test]
fn calendar_spans_are_added_like_jiff_does() {
    let start = UtcTime::from_second(1_706_659_200).unwrap();
    let zoned = Timestamp::from_second(1_706_659_200).unwrap().to_zoned(TimeZone::UTC);
    for units in [
        SpanUnits { months: 1, ..no_units() },
        SpanUnits { years: 1, days: 3, hours: 5, ..no_units() },
        SpanUnits { weeks: 2, nanoseconds: 1, ..no_units() },
        SpanUnits { years: -4, months: -11, days: -40, minutes: -7, ..no_units() },
        SpanUnits { years: 9_000, ..no_units() },
        SpanUnits { years: -19_998, ..no_units() },
    ] {
        let span = Span::from_units(units).unwrap();
        let expected = zoned.checked_add(to_jiff(units)).ok().map(|z| z.timestamp().as_nanosecond());
        assert_eq!(start.checked_add(&span).ok().map(|t| t.nanos()), expected);
        let length = to_jiff(units).to_duration(&zoned).ok().map(|d| d.as_nanos());
        assert_eq!(span.to_nanos(&start).ok(), length);
    }
    let month = Span::from_units(SpanUnits { months: 1, ..no_units() }).unwrap();
    assert_eq!(
        start.checked_add(&month).unwrap().http_date(),
        "Thu, 29 Feb 2024 00:00:00 GMT"
    );
}

#[test]
fn sums_out_of_range_are_refused() {
    assert!(UtcTime::max().checked_add(&Span::hours(1)).is_err());
    assert!(UtcTime::max().checked_add(&Span::hours(0)).is_ok());
    assert!(UtcTime::max().checked_add_nanos(1).is_err());
    assert!(UtcTime::max().checked_add_nanos(0).is_ok());
    assert!(UtcTime::max().checked_add_nanos(i128::MAX).is_err());
    let t = UtcTime::from_nanos(7).unwrap();
    assert_eq!(t.checked_add_nanos(-9).unwrap().nanos(), -2);
    assert!(t.checked_add(&Span::hours(MAX_SPAN_HOURS)).is_err());
}

#[test]
fn units_make_a_span_as_in_jiff() {
    let j = jiff::Span::new();
    assert!(j.try_years(19_998i64).is_ok() && j.try_years(19_999i64).is_err());
    assert!(j.try_months(239_976i64).is_ok() && j.try_months(239_977i64).is_err());
    assert!(j.try_weeks(1_043_497i64).is_ok() && j.try_weeks(1_043_498i64).is_err());
    assert!(j.try_days(7_304_484i64).is_ok() && j.try_days(7_304_485i64).is_err());
    assert!(j.try_hours(MAX_SPAN_HOURS).is_ok() && j.try_hours(MAX_SPAN_HOURS + 1).is_err());
    assert!(j.try_minutes(10_518_456_960i64).is_ok() && j.try_minutes(10_518_456_961i64).is_err());
    assert!(j.try_seconds(631_107_417_600i64).is_ok() && j.try_seconds(631_107_417_601i64).is_err());
    assert!(j.try_milliseconds(631_107_417_600_000i64).is_ok());
    assert!(j.try_milliseconds(631_107_417_600_001i64).is_err());
    assert!(j.try_microseconds(631_107_417_600_000_000i64).is_ok());
    assert!(j.try_microseconds(631_107_417_600_000_001i64).is_err());
    assert!(j.try_nanoseconds(i64::MAX).is_ok());
    assert!(Span::from_units(SpanUnits { years: 19_998, ..no_units() }).is_some());
    assert!(Span::from_units(SpanUnits { years: 19_999, ..no_units() }).is_none());
    assert!(Span::from_units(SpanUnits { days: -7_304_485, ..no_units() }).is_none());
    assert!(Span::from_units(SpanUnits { hours: MAX_SPAN_HOURS + 1, ..no_units() }).is_none());
    assert!(Span::from_units(SpanUnits { nanoseconds: i64::MIN, ..no_units() }).is_none());
    assert!(Span::from_units(SpanUnits { hours: 1, minutes: -1, ..no_units() }).is_none());
    let units = SpanUnits { years: 1, nanoseconds: 2, ..no_units() };
    assert_eq!(Span::from_units(units).unwrap().units(), units);
}

#[test]
fn the_largest_spans_are_handled() {
    let t = UtcTime::from_nanos(0).unwrap();
    let all = SpanUnits {
        years: 0,
        months: 0,
        weeks: 0,
        days: 0,
        hours: MAX_SPAN_HOURS,
        minutes: 10_518_456_960,
        seconds: 631_107_417_600,
        milliseconds: 631_107_417_600_000,
        microseconds: 631_107_417_600_000_000,
        nanoseconds: i64::MAX,
    };
    let expected: i128 = 631_107_417_600i128 * 1_000_000_000 * 5 + i64::MAX as i128;
    let span = Span::from_units(all).unwrap();
    assert_eq!(span.to_nanos(&t).unwrap(), expected);
    assert!(t.checked_add(&span).is_err());
}

#[test]
fn a_span_lasts_from_the_start_to_the_sum() {
    let none = no_units();
    for second in [0i64, 1_706_659_200, -62_135_596_800, 253_402_207_200] {
        let start = UtcTime::from_second(second).unwrap();
        for units in [
            SpanUnits { days: 1, ..none },
            SpanUnits { months: 1, days: 1, nanoseconds: 7, ..none },
            SpanUnits { years: -1, weeks: -3, hours: -5, ..none },
            SpanUnits { years: 9_999, ..none },
        ] {
            let span = Span::from_units(units).unwrap();
            let end = start.checked_add(&span).ok();
            assert_eq!(span.to_nanos(&start).ok(), end.map(|t| t.nanos() - start.nanos()));
        }
    }
}
