use cabinet::expire::{parse_expire_strategy, CubicDecay, ExpireStrategy};
use cabinet::time::{Span, SpanUnits, UtcTime, MAX_NANOS};

const HOUR: i128 = 3_600_000_000_000;

fn scale(difference: i128, file_size: usize, max_size: usize, power: i32) -> i128 {
    jiff::SignedDuration::from_nanos_i128(difference)
        .mul_f64((file_size as f64 / max_size as f64 - 1f64).powi(power))
        .as_nanos()
}

fn at(nanos: i128) -> UtcTime {
    UtcTime::from_nanos(nanos).unwrap()
}

#[test]
fn the_lifespan_shrinks_with_the_size() {
    let decay = CubicDecay::new(Span::hours(10), Span::hours(90), 3);
    let start = at(0);
    let empty = decay.calculate_lifespan(&start, 0, 1000, &scale).unwrap();
    let half = decay.calculate_lifespan(&start, 500, 1000, &scale).unwrap();
    let full = decay.calculate_lifespan(&start, 1000, 1000, &scale).unwrap();
    assert_eq!(empty.nanos(), 90 * HOUR);
    assert_eq!(half.nanos(), 20 * HOUR);
    assert_eq!(full.nanos(), 10 * HOUR);
}

#[test]
fn the_lifespan_lies_between_the_ages() {
    let decay = CubicDecay::new(Span::hours(24), Span::hours(8760), 3);
    let start = at(1_700_000_000_000_000_000);
    for size in [0usize, 1, 17, 333, 512, 999, 1023, 1024] {
        let end = decay.calculate_lifespan(&start, size, 1024, &scale).unwrap().nanos();
        assert!(start.nanos() + 24 * HOUR <= end && end <= start.nanos() + 8760 * HOUR);
    }
}

#[test]
fn the_scale_is_given_the_difference_and_its_result_is_added() {
    let decay = CubicDecay::new(Span::hours(1), Span::hours(3), 5);
    let tell = |difference: i128, size: usize, max: usize, power: i32| -> i128 {
        assert_eq!(difference, -2 * HOUR);
        assert_eq!((size, max, power), (7, 70, 5));
        123
    };
    let end = decay.calculate_lifespan(&at(1_000), 7, 70, &tell).unwrap();
    assert_eq!(end.nanos(), 1_000 + HOUR + 123);
}

#[test]
fn a_decay_over_calendar_units_goes_by_the_calendar() {
    let month = SpanUnits { months: 1, ..Span::hours(0).units() };
    let decay = CubicDecay::new(Span::hours(0), Span::from_units(month).unwrap(), 3);
    let january = at(0);
    let end = decay.calculate_lifespan(&january, 0, 10, &scale).unwrap();
    assert_eq!(end.nanos(), 31 * 24 * HOUR);
    let february = at(31 * 24 * HOUR);
    let end = decay.calculate_lifespan(&february, 0, 10, &scale).unwrap();
    assert_eq!(end.nanos(), (31 + 28) * 24 * HOUR);
}

#[test]
fn a_decay_beyond_the_last_date_is_refused() {
    let decay = CubicDecay::new(Span::hours(1), Span::hours(2), 3);
    assert!(decay.calculate_lifespan(&UtcTime::max(), 0, 10, &scale).is_err());
    let nearly = at(MAX_NANOS - HOUR);
    assert!(decay.calculate_lifespan(&nearly, 0, 10, &scale).is_err());
    assert!(decay.calculate_lifespan(&nearly, 10, 10, &scale).is_ok());
}

#[test]
fn strategies_give_their_dates() {
    let start = at(50);
    let never = ExpireStrategy::Never;
    assert_eq!(never.calculate_lifespan(&start, 1, 2, &scale).unwrap().nanos(), MAX_NANOS);
    let exact = ExpireStrategy::Exact(at(9));
    assert_eq!(exact.calculate_lifespan(&start, 1, 2, &scale).unwrap().nanos(), 9);
    let offset = ExpireStrategy::Offset(Span::hours(2));
    assert_eq!(offset.calculate_lifespan(&start, 1, 2, &scale).unwrap().nanos(), 50 + 2 * HOUR);
    assert!(offset.calculate_lifespan(&UtcTime::max(), 1, 2, &scale).is_err());
    let decay = CubicDecay::new(Span::hours(8), Span::hours(16), 3);
    let cubic = ExpireStrategy::Cubic(Box::new(decay));
    assert_eq!(cubic.calculate_lifespan(&start, 1, 2, &scale).unwrap().nanos(), 50 + 9 * HOUR);
}

#[test]
fn small_numbers_are_hours() {
    for (text, hours) in [("0", 0i64), ("24", 24), ("+7", 7), ("175307615", 175_307_615)] {
        match parse_expire_strategy(text.to_string()).unwrap() {
            ExpireStrategy::Offset(span) => assert_eq!(span.units().hours, hours),
            _ => panic!("not an offset: {}", text),
        }
    }
}

#[test]
fn large_numbers_are_seconds() {
    for (text, nanos) in [
        ("175307616", 175_307_616_000_000_000i128),
        ("1700000000", 1_700_000_000_000_000_000),
        ("253402207200", 253_402_207_200_000_000_000),
        ("253402207201", MAX_NANOS),
        ("9223372036854775807", MAX_NANOS),
    ] {
        match parse_expire_strategy(text.to_string()).unwrap() {
            ExpireStrategy::Exact(date) => assert_eq!(date.nanos(), nanos),
            _ => panic!("not a date: {}", text),
        }
    }
}

#[test]
fn other_expire_texts_are_refused() {
    let negative = parse_expire_strategy("-1".to_string()).unwrap_err();
    assert_eq!(negative.status, 400);
    assert_eq!(negative.message, "Invalid `expires` value.");
    for text in ["", "soon", "1.5", "9223372036854775808"] {
        let refused = parse_expire_strategy(text.to_string()).unwrap_err();
        assert_eq!(refused.status, 400);
        assert_eq!(refused.message, "Can't parse `expires` field as a u64");
    }
}

#[test]
fn larger_files_do_not_outlive_smaller_ones() {
    let decay = CubicDecay::new(Span::hours(24), Span::hours(8760), 3);
    let start = at(1_700_000_000_000_000_000);
    let mut last = decay.calculate_lifespan(&start, 0, 4096, &scale).unwrap().nanos();
    assert_eq!(last, start.nanos() + 8760 * HOUR);
    for size in (1..=4096).step_by(63) {
        let end = decay.calculate_lifespan(&start, size, 4096, &scale).unwrap().nanos();
        assert!(end <= last);
        last = end;
    }
    assert_eq!(last, start.nanos() + 24 * HOUR);
}
