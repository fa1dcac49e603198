//! When files expire.

use crate::outside::zoned_plus_span;
use crate::reply::{rejection, Rejection, RejectionView};
use crate::text::{integer_value, parse_integer};
use crate::time::{clock_nanos, has_calendar_units, hours_only, in_time_range};
use crate::time::{DateOverflow, Span, SpanUnits, UtcTime};
use crate::time::{MAX_NANOS, MAX_SPAN_HOURS, NANOS_PER_SECOND};
use vstd::prelude::*;

verus! {

/// A lifespan that shrinks from `max_age` to `min_age` as files grow.
#[derive(Debug, Clone, Copy)]
pub struct CubicDecay {
    pub min_age: Span,
    pub max_age: Span,
    pub power: i32,
}

/// The spans and the power of a [`CubicDecay`].
pub struct CubicDecayView {
    pub min_age: SpanUnits,
    pub max_age: SpanUnits,
    pub power: i32,
}

impl View for CubicDecay {
    type V = CubicDecayView;

    open spec fn view(&self) -> CubicDecayView {
        CubicDecayView { min_age: self.min_age@, max_age: self.max_age@, power: self.power }
    }
}

/// The date that is `nanos` after `start`, if it is representable.
pub open spec fn plus_nanos(start: int, nanos: int) -> Option<int> {
    if in_time_range(start + nanos) {
        Some(start + nanos)
    } else {
        None
    }
}

/// The date that is an age after `start`. It need not be representable where the age is
/// made of clock units, and there is none where the calendar has none.
pub open spec fn end_of_age(start: int, age: SpanUnits) -> Option<int> {
    if has_calendar_units(age) {
        zoned_plus_span(start, age)
    } else {
        Some(start + clock_nanos(age))
    }
}

/// The dates that are the two ages after `start`.
pub open spec fn decay_ends(decay: CubicDecayView, start: int) -> Option<(int, int)> {
    match (end_of_age(start, decay.min_age), end_of_age(start, decay.max_age)) {
        (Some(earliest), Some(latest)) => Some((earliest, latest)),
        _ => None,
    }
}

/// Whether `scale` stays between nothing and the whole of the difference, with its
/// sign turned: what it returns for the decay of a file that is not too large.
pub open spec fn scales_within<S: Fn(i128, usize, usize, i32) -> i128>(
    scale: S,
    difference: int,
    file_size: usize,
    max_size: usize,
    power: i32,
) -> bool {
    forall|scaled: i128| #[trigger]
        call_ensures(scale, (difference as i128, file_size, max_size, power), scaled)
            ==> 0 <= scaled <= -difference
}

/// Whether `scale` returns `value` and nothing else.
pub open spec fn scales_to<S: Fn(i128, usize, usize, i32) -> i128>(
    scale: S,
    difference: int,
    file_size: usize,
    max_size: usize,
    power: i32,
    value: int,
) -> bool {
    forall|scaled: i128| #[trigger]
        call_ensures(scale, (difference as i128, file_size, max_size, power), scaled)
            ==> scaled == value
}

/// Whether `end` is a lifespan's end under `decay`: it lies behind the end of the shortest
/// age by some number that `scale` may return for the time from the end of the longest
/// age to that of the shortest. There is no end where a date is not representable.
pub open spec fn decayed<S: Fn(i128, usize, usize, i32) -> i128>(
    decay: CubicDecayView,
    start: int,
    file_size: usize,
    max_size: usize,
    scale: S,
    end: Option<int>,
) -> bool {
    match decay_ends(decay, start) {
        Some((earliest, latest)) => if in_time_range(earliest) {
            exists|scaled: i128| #[trigger]
                call_ensures(
                    scale,
                    ((earliest - latest) as i128, file_size, max_size, decay.power),
                    scaled,
                ) && end == plus_nanos(earliest, scaled as int)
        } else {
            end is None
        },
        None => end is None,
    }
}

/// Whether a lifespan's end keeps to the ages: it lies between their ends, if `scale`
/// stays within their difference. It is that of the longest age if `scale` returns the
/// whole difference, and that of the shortest if it returns nothing.
pub open spec fn keeps_to_ages<S: Fn(i128, usize, usize, i32) -> i128>(
    decay: CubicDecayView,
    start: int,
    file_size: usize,
    max_size: usize,
    scale: S,
    end: Option<int>,
) -> bool {
    match decay_ends(decay, start) {
        Some((earliest, latest)) => {
            let difference = earliest - latest;
            &&& scales_within(scale, difference, file_size, max_size, decay.power) ==> {
                &&& in_time_range(earliest) && in_time_range(latest) ==> end is Some
                &&& end is Some ==> earliest <= end->0 <= latest
            }
            &&& scales_to(scale, difference, file_size, max_size, decay.power, -difference)
                && end is Some ==> end->0 == latest
            &&& scales_to(scale, difference, file_size, max_size, decay.power, 0) && end is Some
                ==> end->0 == earliest
        },
        None => end is None,
    }
}

/// The date in a result, if there is one.
pub open spec fn date_in(date: Result<UtcTime, DateOverflow>) -> Option<int> {
    match date {
        Ok(t) => Some(t@),
        Err(_) => None,
    }
}

impl CubicDecay {
    /// The decay between these ages.
    pub fn new(min_age: Span, max_age: Span, power: i32) -> (d: Self)
        ensures
            d == (CubicDecay { min_age, max_age, power }),
    {
        Self { min_age, max_age, power }
    }

    /// When a file of `file_size` bytes expires that was created at `starting_date`.
    /// `scale` multiplies a duration in nanoseconds by the decay of the share that
    /// the size has of `max_size`, raised to a power.
    pub fn calculate_lifespan<S: Fn(i128, usize, usize, i32) -> i128>(
        &self,
        starting_date: &UtcTime,
        file_size: usize,
        max_size: usize,
        scale: &S,
    ) -> (date: Result<UtcTime, DateOverflow>)
        requires
            forall|d: i128, s: usize, m: usize, p: i32| call_requires(scale, (d, s, m, p)),
        ensures
            decayed(self@, starting_date@, file_size, max_size, *scale, date_in(date)),
            keeps_to_ages(self@, starting_date@, file_size, max_size, *scale, date_in(date)),
    {
        let minimum_expiration = match starting_date.checked_add(&self.min_age) {
            Ok(t) => t,
            Err(e) => return Err(e),
        };
        let shortest: i128 = match self.min_age.to_nanos(starting_date) {
            Ok(n) => n,
            Err(e) => return Err(e),
        };
        let longest: i128 = match self.max_age.to_nanos(starting_date) {
            Ok(n) => n,
            Err(e) => return Err(e),
        };
        let scaled: i128 = scale(shortest - longest, file_size, max_size, self.power);
        minimum_expiration.checked_add_nanos(scaled)
    }
}

/// How the end of a lifespan is found.
#[derive(Debug)]
pub enum ExpireStrategy {
    Never,
    Exact(UtcTime),
    Offset(Span),
    Cubic(Box<CubicDecay>),
}

/// The dates and spans of an [`ExpireStrategy`].
pub enum ExpireStrategyView {
    Never,
    Exact(int),
    Offset(SpanUnits),
    Cubic(CubicDecayView),
}

impl View for ExpireStrategy {
    type V = ExpireStrategyView;

    open spec fn view(&self) -> ExpireStrategyView {
        match *self {
            ExpireStrategy::Never => ExpireStrategyView::Never,
            ExpireStrategy::Exact(date) => ExpireStrategyView::Exact(date@),
            ExpireStrategy::Offset(span) => ExpireStrategyView::Offset(span@),
            ExpireStrategy::Cubic(decay) => ExpireStrategyView::Cubic(decay@),
        }
    }
}

/// Whether `end` is a lifespan's end under `strategy`: the last representable date,
/// the given date, the span after the start, or an outcome of the decay.
pub open spec fn expires<S: Fn(i128, usize, usize, i32) -> i128>(
    strategy: ExpireStrategyView,
    start: int,
    file_size: usize,
    max_size: usize,
    scale: S,
    end: Option<int>,
) -> bool {
    match strategy {
        ExpireStrategyView::Never => end == Some(MAX_NANOS as int),
        ExpireStrategyView::Exact(date) => end == Some(date),
        ExpireStrategyView::Offset(span) => end == zoned_plus_span(start, span),
        ExpireStrategyView::Cubic(decay) => decayed(decay, start, file_size, max_size, scale, end),
    }
}

impl ExpireStrategy {
    /// When a file of `file_size` bytes expires that was created at `starting_date`.
    /// `scale` is as in [`CubicDecay::calculate_lifespan`].
    pub fn calculate_lifespan<S: Fn(i128, usize, usize, i32) -> i128>(
        &self,
        starting_date: &UtcTime,
        file_size: usize,
        max_size: usize,
        scale: &S,
    ) -> (date: Result<UtcTime, DateOverflow>)
        requires
            forall|d: i128, s: usize, m: usize, p: i32| call_requires(scale, (d, s, m, p)),
        ensures
            expires(self@, starting_date@, file_size, max_size, *scale, date_in(date)),
            match self@ {
                ExpireStrategyView::Offset(span) => !has_calendar_units(span) ==> date_in(date)
                    == plus_nanos(starting_date@, clock_nanos(span)),
                _ => true,
            },
    {
        match self {
            ExpireStrategy::Never => Ok(UtcTime::max()),
            ExpireStrategy::Cubic(cubic) => cubic.calculate_lifespan(
                starting_date,
                file_size,
                max_size,
                scale,
            ),
            ExpireStrategy::Exact(expiry_date) => Ok(*expiry_date),
            ExpireStrategy::Offset(span) => starting_date.checked_add(span),
        }
    }
}

/// What the text of an `expire` field asks for: a small number is a number of
/// hours, a large one a number of seconds after 1970, the last representable date
/// standing for those beyond it.
pub open spec fn requested_strategy(text: Seq<char>) -> Result<ExpireStrategyView, RejectionView> {
    match integer_value(text) {
        None => Err(rejection(400, "Can't parse `expires` field as a u64"@)),
        Some(n) => if n < 0 {
            Err(rejection(400, "Invalid `expires` value."@))
        } else if n < MAX_SPAN_HOURS {
            Ok(ExpireStrategyView::Offset(hours_only(n as i64)))
        } else if in_time_range(n * NANOS_PER_SECOND) {
            Ok(ExpireStrategyView::Exact(n * NANOS_PER_SECOND))
        } else {
            Ok(ExpireStrategyView::Exact(MAX_NANOS as int))
        },
    }
}

/// Reads the text of an `expire` field.
pub fn parse_expire_strategy(num: String) -> (strategy: Result<ExpireStrategy, Rejection>)
    ensures
        match strategy {
            Ok(s) => requested_strategy(num@) == Ok::<ExpireStrategyView, RejectionView>(s@),
            Err(r) => requested_strategy(num@) == Err::<ExpireStrategyView, RejectionView>(r@),
        },
{
    let num: i64 = match parse_integer(num.as_str()) {
        Some(n) => n,
        None => return Err(Rejection::new(400, "Can't parse `expires` field as a u64")),
    };
    if num < 0 {
        Err(Rejection::new(400, "Invalid `expires` value."))
    } else if num < MAX_SPAN_HOURS {
        Ok(ExpireStrategy::Offset(Span::hours(num)))
    } else {
        let date = match UtcTime::from_second(num) {
            Ok(date) => date,
            Err(_) => UtcTime::max(),
        };
        Ok(ExpireStrategy::Exact(date))
    }
}

} // verus!
