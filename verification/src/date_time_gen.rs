//! The `date_time` provider's draws: random instants between resolved bounds, and the
//! dates, times and strings made from them.
use vstd::prelude::*;
use crate::rng::{pcg_draw_u64, randint_draw, randint_u128_draw};
use crate::date_time::{
    change_year, date_parsed, invalid_with, iso_formatted, isoformat, naive_at, now_naive, now_reading,
    overflow_with, pad, padded, parse_date, parse_date_time, parse_date_time_with, resolves, strftime, strftime_result,
    strftime_time, timestamp_to_naive, year_changed, Clock, DateTimeValue, NaiveDate, NaiveDateTime, NaiveTime,
    formatted_datetime, formatted_time, today, ts_of, valid_date, date_le, date_lt, lemma_epoch_days_ordered, lemma_unix_seconds_bounds, lemma_next_day, epoch_days, ymd, MAX_YEAR, MIN_TIMESTAMP,
};
use crate::error::{invalid, Error, Result};
use crate::generator::{lemma_generator_views, Generator};

verus! {

broadcast use lemma_generator_views;

/// The error of `d`, passed on, or what `f` says of its value.
pub open spec fn chained<T, U>(d: Result<T>, r: Result<U>, f: spec_fn(T) -> bool) -> bool {
    match d {
        Ok(v) => f(v),
        Err(x) => r == Err::<U, Error>(x),
    }
}

/// The message when a draw's start lies after its end.
pub open spec fn empty_range_message() -> Seq<char> {
    "empty range for _rand_seconds: start datetime must be before than end datetime"@
}

/// An instant drawn between `a` and `b` seconds, in microseconds; an error when `a > b`.
pub open spec fn drawn_between(a: int, b: int, r: Result<i128>) -> bool {
    if a <= b {
        r matches Ok(us) && a * 1_000_000 <= us <= b * 1_000_000
    } else {
        invalid_with(r, empty_range_message())
    }
}

/// A bound of a draw: `v` resolved on the local clock when given, else `fallback`, else
/// now on `clock`.
pub open spec fn bound_resolves(v: Option<DateTimeValue>, fallback: Option<i64>, clock: Clock, r: Result<i64>) -> bool {
    match v {
        Some(x) => resolves(x, Clock::NaiveLocal, r),
        None => match fallback {
            Some(t) => r == Ok::<i64, Error>(t),
            None => r matches Ok(n) && now_reading(clock, n),
        },
    }
}

/// What drawing between bounds that resolved to `s` and `e` gives.
pub open spec fn drawn_from(s: Result<i64>, e: Result<i64>, r: Result<i128>) -> bool {
    chained(s, r, |a: i64| chained(e, r, |b: i64| drawn_between(a as int, b as int, r)))
}

/// What a draw between `start` (default `fallback`, else now) and `end` (default now) may
/// give.
pub open spec fn draws(
    start: Option<DateTimeValue>,
    end: Option<DateTimeValue>,
    fallback: Option<i64>,
    clock: Clock,
    r: Result<i128>,
) -> bool {
    exists|s: Result<i64>, e: Result<i64>|
        bound_resolves(start, fallback, clock, s) && bound_resolves(end, None, clock, e) && #[trigger] drawn_from(s, e, r)
}

/// The datetime of a drawn instant, or the draw's error.
pub open spec fn dated(u: Result<i128>, r: Result<NaiveDateTime>) -> bool {
    chained(u, r, |us: i128| naive_at(us, r))
}

/// What `date_time(end)` may give: an instant from the epoch to `end` (default now).
pub open spec fn date_time_drawn(end: Option<DateTimeValue>, r: Result<NaiveDateTime>) -> bool {
    exists|u: Result<i128>| draws(None, end, Some(0), Clock::NaiveLocal, u) && #[trigger] dated(u, r)
}

/// What `date_time_ad(end, start)` may give: an instant from `start` (default year 1) to
/// `end` (default now).
pub open spec fn date_time_ad_drawn(end: Option<DateTimeValue>, start: Option<DateTimeValue>, r: Result<NaiveDateTime>) -> bool {
    exists|u: Result<i128>| draws(start, end, Some(MIN_TIMESTAMP), Clock::NaiveLocal, u) && #[trigger] dated(u, r)
}

/// What `date_time_between_ts` gives for bounds that resolved to `s` and `e`: within the
/// second after the start when the end is at most a second later, else between them.
pub open spec fn between_from(s: Result<i64>, e: Result<i64>, r: Result<i128>) -> bool {
    chained(
        s,
        r,
        |a: i64|
            chained(
                e,
                r,
                |b: i64|
                    if b - a <= 1 {
                        r matches Ok(us) && a * 1_000_000 <= us < a * 1_000_000 + 1_000_000
                    } else {
                        drawn_between(a as int, b as int, r)
                    },
            ),
    )
}

/// What `date_time_between_ts(start, end, clock)` may give.
pub open spec fn between_drawn(start: DateTimeValue, end: DateTimeValue, clock: Clock, r: Result<i128>) -> bool {
    exists|s: Result<i64>, e: Result<i64>|
        resolves(start, clock, s) && resolves(end, clock, e) && #[trigger] between_from(s, e, r)
}

/// What `date_time_between(start, end)` may give.
pub open spec fn date_time_between_drawn(start: DateTimeValue, end: DateTimeValue, r: Result<NaiveDateTime>) -> bool {
    exists|u: Result<i128>| between_drawn(start, end, Clock::NaiveLocal, u) && #[trigger] dated(u, r)
}

/// What `date_time_between_dates(start, end)` may give: an instant between the bounds,
/// each defaulting to now.
pub open spec fn between_dates_drawn(start: Option<DateTimeValue>, end: Option<DateTimeValue>, r: Result<NaiveDateTime>) -> bool {
    exists|u: Result<i128>| draws(start, end, None, Clock::NaiveLocal, u) && #[trigger] dated(u, r)
}

/// What `date_between_dates(start, end)` may give: the date of such an instant.
pub open spec fn date_between_dates_drawn(start: Option<DateTimeValue>, end: Option<DateTimeValue>, r: Result<NaiveDate>) -> bool {
    exists|d: Result<NaiveDateTime>|
        #[trigger] between_dates_drawn(start, end, d) && chained(d, r, |dt: NaiveDateTime| r == Ok::<NaiveDate, Error>(dt.date))
}

/// What `date_between` gives for bounds that parsed to `s` and `e`.
pub open spec fn dates_from(s: Result<NaiveDate>, e: Result<NaiveDate>, r: Result<NaiveDate>) -> bool {
    chained(
        s,
        r,
        |a: NaiveDate|
            chained(
                e,
                r,
                |b: NaiveDate| date_between_dates_drawn(Some(DateTimeValue::Date(a)), Some(DateTimeValue::Date(b)), r),
            ),
    )
}

/// What `date_between(start, end)` may give.
pub open spec fn date_between_drawn(start: DateTimeValue, end: DateTimeValue, r: Result<NaiveDate>) -> bool {
    exists|s: Result<NaiveDate>, e: Result<NaiveDate>|
        date_parsed(start, s) && date_parsed(end, e) && #[trigger] dates_from(s, e, r)
}

/// A random offset `u` in microseconds, or an overflow when it does not fit.
pub open spec fn micros_or_overflow(u: int, r: Result<i64>) -> bool {
    if i64::MIN <= u <= i64::MAX {
        r == Ok::<i64, Error>(u as i64)
    } else {
        overflow_with(r, "timedelta out of range"@)
    }
}

/// What `time_delta` gives when now resolved to `s` and the end to `e`: an offset between
/// zero and their difference.
pub open spec fn delta_from(s: Result<i64>, e: Result<i64>, r: Result<i64>) -> bool {
    chained(
        s,
        r,
        |a: i64|
            chained(
                e,
                r,
                |b: i64|
                    exists|u: int|
                        (if b - a < 0 { b - a } else { 0 }) * 1_000_000 <= u <= (if b - a > 0 { b - a } else { 0 }) * 1_000_000
                            && #[trigger] micros_or_overflow(u, r),
            ),
    )
}

/// A period around now for the `*_this_*` methods.
#[derive(Debug, Clone, Copy, PartialEq, Eq)]
pub enum Period {
    Century,
    Decade,
    Year,
    Month,
}

/// The first year and month of the period around year `y` and month `m`, and the year
/// and month after it (a century or decade ends by year 9999 when `capped`).
pub open spec fn period_range(period: Period, y: int, m: int, capped: bool) -> (int, int, int, int) {
    match period {
        Period::Century => {
            let s = y - y % 100;
            (s, 1, if capped && s + 100 > 9999 { 9999 } else { s + 100 }, 1)
        },
        Period::Decade => {
            let s = y - y % 10;
            (s, 1, if capped && s + 10 > 9999 { 9999 } else { s + 10 }, 1)
        },
        Period::Year => (y, 1, y + 1, 1),
        Period::Month => if m == 12 {
            (y, 12, y + 1, 1)
        } else {
            (y, m, y, m + 1)
        },
    }
}

/// The first day of year `y`, month `m`.
pub open spec fn first_of(y: int, m: int) -> NaiveDate {
    NaiveDate { year: y as i32, month: m as u32, day: 1 }
}

/// Midnight of a date.
pub open spec fn at_midnight(d: NaiveDate) -> NaiveDateTime {
    NaiveDateTime { date: d, time: NaiveTime { hour: 0, minute: 0, second: 0, micro: 0 } }
}

/// What `date_time_this_*` gives at `now`: an instant between the period's start (when
/// `before`) or now, and the period's end (when `after`) or now.
pub open spec fn this_drawn(period: Period, before: bool, after: bool, now: NaiveDateTime, r: Result<NaiveDateTime>) -> bool {
    let (sy, sm, ey, em) = period_range(period, now.date.year as int, now.date.month as int, true);
    if !valid_date(sy, sm, 1) || !valid_date(ey, em, 1) {
        overflow_with(r, "date value out of range"@)
    } else {
        let sv = DateTimeValue::DateTime(at_midnight(first_of(sy, sm)));
        let ev = DateTimeValue::DateTime(at_midnight(first_of(ey, em)));
        let nv = DateTimeValue::DateTime(now);
        if before && after {
            between_dates_drawn(Some(sv), Some(ev), r)
        } else if after {
            between_dates_drawn(Some(nv), Some(ev), r)
        } else if before {
            between_dates_drawn(Some(sv), Some(nv), r)
        } else {
            r == Ok::<NaiveDateTime, Error>(now)
        }
    }
}

/// What `date_this_*` gives on `today`: a date between the period's start (when `before`)
/// or today, and the period's end (when `after`) or today.
pub open spec fn date_this_drawn(period: Period, before: bool, after: bool, today: NaiveDate, r: Result<NaiveDate>) -> bool {
    let (sy, sm, ey, em) = period_range(period, today.year as int, today.month as int, false);
    if !valid_date(sy, sm, 1) || !valid_date(ey, em, 1) {
        overflow_with(r, "date value out of range"@)
    } else {
        let sv = DateTimeValue::Date(first_of(sy, sm));
        let ev = DateTimeValue::Date(first_of(ey, em));
        let tv = DateTimeValue::Date(today);
        if before && after {
            date_between_dates_drawn(Some(sv), Some(ev), r)
        } else if after {
            date_between_dates_drawn(Some(tv), Some(ev), r)
        } else if before {
            date_between_dates_drawn(Some(sv), Some(tv), r)
        } else {
            r == Ok::<NaiveDate, Error>(today)
        }
    }
}

/// The message when an age bound is negative or the bounds are reversed; none when
/// they are fine.
pub open spec fn age_error(minimum_age: int, maximum_age: int) -> Option<Seq<char>> {
    if maximum_age < 0 {
        Some("maximum_age must be greater than or equal to zero."@)
    } else if minimum_age < 0 {
        Some("minimum_age must be greater than or equal to zero."@)
    } else if minimum_age > maximum_age {
        Some("minimum_age must be less than or equal to maximum_age."@)
    } else {
        None
    }
}

/// What `date_of_birth_from` gives when the window's start and end dates came out as `s`
/// and `e`: a date drawn between them, moved a day later when it is the start itself.
pub open spec fn born_between(s: Result<NaiveDate>, e: Result<NaiveDate>, r: Result<NaiveDate>) -> bool {
    chained(
        s,
        r,
        |a: NaiveDate|
            chained(
                e,
                r,
                |b: NaiveDate|
                    exists|d: Result<NaiveDateTime>|
                        #[trigger] date_time_ad_drawn(Some(DateTimeValue::Date(b)), Some(DateTimeValue::Date(a)), d) && chained(
                            d,
                            r,
                            |dt: NaiveDateTime|
                                if dt.date != a {
                                    r == Ok::<NaiveDate, Error>(dt.date)
                                } else {
                                    match crate::date_time::next_day(a.year as int, a.month as int, a.day as int) {
                                        Some(n) => r == Ok::<NaiveDate, Error>(first_of(n.0, n.1).with_day(n.2)),
                                        None => overflow_with(r, "date value out of range"@),
                                    }
                                },
                        ),
            ),
    )
}

/// What `date_of_birth_from(today, minimum_age, maximum_age)` gives.
pub open spec fn born(today: NaiveDate, minimum_age: int, maximum_age: int, r: Result<NaiveDate>) -> bool {
    match age_error(minimum_age, maximum_age) {
        Some(m) => invalid_with(r, m),
        None => exists|s: Result<NaiveDate>, e: Result<NaiveDate>|
            year_changed(today, -(maximum_age + 1), s) && year_changed(today, -minimum_age, e) && #[trigger] born_between(s, e, r),
    }
}

/// `r` is one of `zones`, or `UTC` when there are none.
pub open spec fn zone_of(zones: Seq<String>, r: Seq<char>) -> bool {
    if zones.len() == 0 {
        r == "UTC"@
    } else {
        exists|j: int| 0 <= j < zones.len() && r == #[trigger] zones[j]@
    }
}

impl NaiveDate {
    /// The same year and month on day `d`.
    pub open spec fn with_day(self, d: int) -> NaiveDate {
        NaiveDate { year: self.year, month: self.month, day: d as u32 }
    }
}

/// Whole seconds of `us` microseconds, rounded down, stay between `a` and `b` when `us`
/// lies between their microseconds.
proof fn lemma_seconds_between(a: int, b: int, us: int)
    requires
        a * 1_000_000 <= us <= b * 1_000_000,
    ensures
        a <= us / 1_000_000 <= b,
{
    assert(a <= us / 1_000_000 <= b) by (nonlinear_arith)
        requires
            a * 1_000_000 <= us <= b * 1_000_000,
    ;
}

/// A drawn datetime's timestamp lies between the bounds the draw resolved.
proof fn lemma_dated_within(
    start: Option<DateTimeValue>,
    end: Option<DateTimeValue>,
    fallback: Option<i64>,
    clock: Clock,
    u: Result<i128>,
    r: Result<NaiveDateTime>,
)
    requires
        draws(start, end, fallback, clock, u),
        dated(u, r),
        r is Ok,
    ensures
        exists|a: i64, b: i64|
            #[trigger] bound_resolves(start, fallback, clock, Ok::<i64, Error>(a)) && #[trigger] bound_resolves(
                end,
                None,
                clock,
                Ok::<i64, Error>(b),
            ) && a <= ts_of(r->Ok_0) <= b,
        r->Ok_0.wf(),
{
    let (s, e) = choose|s: Result<i64>, e: Result<i64>|
        bound_resolves(start, fallback, clock, s) && bound_resolves(end, None, clock, e) && #[trigger] drawn_from(s, e, u);
    let a = s->Ok_0;
    let b = e->Ok_0;
    let us = u->Ok_0;
    lemma_seconds_between(a as int, b as int, us as int);
    assert(bound_resolves(start, fallback, clock, Ok::<i64, Error>(a)));
    assert(bound_resolves(end, None, clock, Ok::<i64, Error>(b)));
}

/// A datetime that `date_time(end)` returns has a timestamp from zero (the epoch) to the
/// resolved end.
pub proof fn lemma_date_time_within(end: Option<DateTimeValue>, r: Result<NaiveDateTime>)
    requires
        date_time_drawn(end, r),
        r is Ok,
    ensures
        exists|b: i64| #[trigger] bound_resolves(end, None, Clock::NaiveLocal, Ok::<i64, Error>(b)) && 0 <= ts_of(r->Ok_0) <= b,
{
    let u = choose|u: Result<i128>| draws(None, end, Some(0), Clock::NaiveLocal, u) && #[trigger] dated(u, r);
    lemma_dated_within(None, end, Some(0), Clock::NaiveLocal, u, r);
}

/// A datetime that `date_time_between_dates(start, end)` returns has a timestamp between
/// the resolved bounds (each now when absent).
pub proof fn lemma_between_dates_within(start: Option<DateTimeValue>, end: Option<DateTimeValue>, r: Result<NaiveDateTime>)
    requires
        between_dates_drawn(start, end, r),
        r is Ok,
    ensures
        exists|a: i64, b: i64|
            #[trigger] bound_resolves(start, None, Clock::NaiveLocal, Ok::<i64, Error>(a)) && #[trigger] bound_resolves(
                end,
                None,
                Clock::NaiveLocal,
                Ok::<i64, Error>(b),
            ) && a <= ts_of(r->Ok_0) <= b,
{
    let u = choose|u: Result<i128>| draws(start, end, None, Clock::NaiveLocal, u) && #[trigger] dated(u, r);
    lemma_dated_within(start, end, None, Clock::NaiveLocal, u, r);
}

/// A datetime that `date_time_between(start, end)` returns has a timestamp between the
/// resolved bounds; when the end is at most a second after the start, it is the start's.
pub proof fn lemma_between_within(start: DateTimeValue, end: DateTimeValue, r: Result<NaiveDateTime>)
    requires
        date_time_between_drawn(start, end, r),
        r is Ok,
    ensures
        exists|a: i64, b: i64|
            #[trigger] resolves(start, Clock::NaiveLocal, Ok::<i64, Error>(a)) && #[trigger] resolves(
                end,
                Clock::NaiveLocal,
                Ok::<i64, Error>(b),
            ) && (if b - a <= 1 {
                ts_of(r->Ok_0) == a
            } else {
                a <= ts_of(r->Ok_0) <= b
            }),
{
    let u = choose|u: Result<i128>| between_drawn(start, end, Clock::NaiveLocal, u) && #[trigger] dated(u, r);
    let (s, e) = choose|s: Result<i64>, e: Result<i64>|
        resolves(start, Clock::NaiveLocal, s) && resolves(end, Clock::NaiveLocal, e) && #[trigger] between_from(s, e, u);
    let a = s->Ok_0;
    let b = e->Ok_0;
    let us = u->Ok_0;
    if b - a <= 1 {
        vstd::arithmetic::div_mod::lemma_fundamental_div_mod_converse(us as int, 1_000_000, a as int, us - a * 1_000_000);
    } else {
        lemma_seconds_between(a as int, b as int, us as int);
    }
    assert(resolves(start, Clock::NaiveLocal, Ok::<i64, Error>(a)));
    assert(resolves(end, Clock::NaiveLocal, Ok::<i64, Error>(b)));
}

/// A date that `date_between_dates` returns for two valid dates lies between them on the
/// calendar.
pub proof fn lemma_date_between_dates_within(start: NaiveDate, end: NaiveDate, r: Result<NaiveDate>)
    requires
        start.wf(),
        end.wf(),
        date_between_dates_drawn(Some(DateTimeValue::Date(start)), Some(DateTimeValue::Date(end)), r),
        r is Ok,
    ensures
        date_le(start, r->Ok_0),
        date_le(r->Ok_0, end),
{
    let sv = Some(DateTimeValue::Date(start));
    let ev = Some(DateTimeValue::Date(end));
    let d = choose|d: Result<NaiveDateTime>|
        #[trigger] between_dates_drawn(sv, ev, d) && chained(d, r, |dt: NaiveDateTime| r == Ok::<NaiveDate, Error>(dt.date));
    let dt = d->Ok_0;
    lemma_between_dates_within(sv, ev, d);
    let (a, b) = choose|a: i64, b: i64|
        #[trigger] bound_resolves(sv, None, Clock::NaiveLocal, Ok::<i64, Error>(a)) && #[trigger] bound_resolves(
            ev,
            None,
            Clock::NaiveLocal,
            Ok::<i64, Error>(b),
        ) && a <= ts_of(dt) <= b;
    let (sy, sm, sd) = (start.year as int, start.month as int, start.day as int);
    let (ey, em, ed) = (end.year as int, end.month as int, end.day as int);
    let (y, m, dd) = (dt.date.year as int, dt.date.month as int, dt.date.day as int);
    lemma_unix_seconds_bounds(sy, sm, sd, 0, 0, 0);
    lemma_unix_seconds_bounds(ey, em, ed, 0, 0, 0);
    lemma_unix_seconds_bounds(y, m, dd, dt.time.hour as int, dt.time.minute as int, dt.time.second as int);
    lemma_epoch_days_ordered(start, dt.date);
    lemma_epoch_days_ordered(dt.date, end);
    assert(epoch_days(sy, sm, sd) <= epoch_days(y, m, dd));
    assert(epoch_days(y, m, dd) <= epoch_days(ey, em, ed));
}

/// A date that `date_between(start, end)` returns lies, on the calendar, between the dates
/// its bounds were parsed to.
pub proof fn lemma_date_between_within(start: DateTimeValue, end: DateTimeValue, r: Result<NaiveDate>)
    requires
        date_between_drawn(start, end, r),
        r is Ok,
    ensures
        exists|a: NaiveDate, b: NaiveDate|
            #[trigger] date_parsed(start, Ok::<NaiveDate, Error>(a)) && #[trigger] date_parsed(end, Ok::<NaiveDate, Error>(b))
                && date_le(a, r->Ok_0) && date_le(r->Ok_0, b),
{
    let (s, e) = choose|s: Result<NaiveDate>, e: Result<NaiveDate>|
        date_parsed(start, s) && date_parsed(end, e) && #[trigger] dates_from(s, e, r);
    let a = s->Ok_0;
    let b = e->Ok_0;
    lemma_date_between_dates_within(a, b, r);
    assert(date_parsed(start, Ok::<NaiveDate, Error>(a)));
    assert(date_parsed(end, Ok::<NaiveDate, Error>(b)));
}

/// A date of birth that `date_of_birth_from(today, minimum_age, maximum_age)` returns comes
/// after the day `maximum_age + 1` years before today and no later than the day
/// `minimum_age` years before it (each moved to March 1 when that day does not exist).
pub proof fn lemma_birth_window(today: NaiveDate, minimum_age: int, maximum_age: int, r: Result<NaiveDate>)
    requires
        today.wf(),
        born(today, minimum_age, maximum_age, r),
        r is Ok,
    ensures
        exists|a: NaiveDate, b: NaiveDate|
            #[trigger] year_changed(today, -(maximum_age + 1), Ok::<NaiveDate, Error>(a)) && #[trigger] year_changed(
                today,
                -minimum_age,
                Ok::<NaiveDate, Error>(b),
            ) && date_lt(a, r->Ok_0) && date_le(r->Ok_0, b),
{
    let (s, e) = choose|s: Result<NaiveDate>, e: Result<NaiveDate>|
        year_changed(today, -(maximum_age + 1), s) && year_changed(today, -minimum_age, e) && #[trigger] born_between(s, e, r);
    let a = s->Ok_0;
    let b = e->Ok_0;
    let av = Some(DateTimeValue::Date(a));
    let bv = Some(DateTimeValue::Date(b));
    let d = choose|d: Result<NaiveDateTime>|
        #[trigger] date_time_ad_drawn(bv, av, d) && chained(
            d,
            r,
            |dt: NaiveDateTime|
                if dt.date != a {
                    r == Ok::<NaiveDate, Error>(dt.date)
                } else {
                    match crate::date_time::next_day(a.year as int, a.month as int, a.day as int) {
                        Some(n) => r == Ok::<NaiveDate, Error>(first_of(n.0, n.1).with_day(n.2)),
                        None => overflow_with(r, "date value out of range"@),
                    }
                },
        );
    let dt = d->Ok_0;
    let u = choose|u: Result<i128>| draws(av, bv, Some(MIN_TIMESTAMP), Clock::NaiveLocal, u) && #[trigger] dated(u, d);
    lemma_dated_within(av, bv, Some(MIN_TIMESTAMP), Clock::NaiveLocal, u, d);
    let (x, y) = choose|x: i64, y: i64|
        #[trigger] bound_resolves(av, Some(MIN_TIMESTAMP), Clock::NaiveLocal, Ok::<i64, Error>(x)) && #[trigger] bound_resolves(
            bv,
            None,
            Clock::NaiveLocal,
            Ok::<i64, Error>(y),
        ) && x <= ts_of(dt) <= y;
    lemma_unix_seconds_bounds(a.year as int, a.month as int, a.day as int, 0, 0, 0);
    lemma_unix_seconds_bounds(b.year as int, b.month as int, b.day as int, 0, 0, 0);
    lemma_unix_seconds_bounds(
        dt.date.year as int,
        dt.date.month as int,
        dt.date.day as int,
        dt.time.hour as int,
        dt.time.minute as int,
        dt.time.second as int,
    );
    lemma_epoch_days_ordered(a, dt.date);
    lemma_epoch_days_ordered(dt.date, b);
    lemma_epoch_days_ordered(a, b);
    assert(date_lt(a, b));
    if dt.date == a {
        lemma_next_day(a.year as int, a.month as int, a.day as int);
        let n = crate::date_time::next_day(a.year as int, a.month as int, a.day as int)->Some_0;
        let nd = first_of(n.0, n.1).with_day(n.2);
        lemma_epoch_days_ordered(a, nd);
        lemma_epoch_days_ordered(nd, b);
        assert(r->Ok_0 == nd);
    }
    assert(year_changed(today, -(maximum_age + 1), Ok::<NaiveDate, Error>(a)));
    assert(year_changed(today, -minimum_age, Ok::<NaiveDate, Error>(b)));
}

/// Options of values that are valid.
pub open spec fn opt_wf(v: Option<DateTimeValue>) -> bool {
    v matches Some(x) ==> x.wf()
}

/// The bounds of the period around year `y` and month `m`, as in `period_range`.
pub fn period_bounds(period: Period, y: i32, m: u32, capped: bool) -> (r: (i32, u32, i32, u32))
    requires
        -262_143 <= y <= 262_142,
        1 <= m <= 12,
    ensures
        (r.0 as int, r.1 as int, r.2 as int, r.3 as int) == period_range(period, y as int, m as int, capped),
{
    match period {
        Period::Century => {
            let t: u64 = (y as i64 + 300_000) as u64;
            let rem: i32 = (t % 100) as i32;
            assert(rem == y % 100);
            let s = y - rem;
            (s, 1, if capped && s + 100 > MAX_YEAR { MAX_YEAR } else { s + 100 }, 1)
        },
        Period::Decade => {
            let t: u64 = (y as i64 + 300_000) as u64;
            let rem: i32 = (t % 10) as i32;
            assert(rem == y % 10);
            let s = y - rem;
            (s, 1, if capped && s + 10 > MAX_YEAR { MAX_YEAR } else { s + 10 }, 1)
        },
        Period::Year => (y, 1, y + 1, 1),
        Period::Month => if m == 12 {
            (y, 12, y + 1, 1)
        } else {
            (y, m, y, m + 1)
        },
    }
}

/// The draw window of a `*_this_*` call whose bounds and now are timestamps in some time
/// zone: the period's start (when `before`) or now, and its end (when `after`) or now;
/// none when neither side is wanted, and the answer is now itself.
pub fn period_window(before: bool, after: bool, start: i64, end: i64, now: i64) -> (r: Option<(i64, i64)>)
    ensures
        r == (if before && after {
            Some((start, end))
        } else if after {
            Some((now, end))
        } else if before {
            Some((start, now))
        } else {
            None::<(i64, i64)>
        }),
{
    if before && after {
        Some((start, end))
    } else if after {
        Some((now, end))
    } else if before {
        Some((start, now))
    } else {
        None
    }
}

/// `(microseconds, next state)` of an instant drawn from `a` to `b` seconds (`a <= b`).
pub open spec fn micros_draw(a: int, b: int, state: u128) -> (i128, u128) {
    let (o, next) = randint_u128_draw(state, 0, ((b - a) * 1_000_000) as u128);
    ((a * 1_000_000 + o) as i128, next)
}

/// `(microseconds, next state)` of `date_time_between_ts` for bounds `a` and `b` seconds:
/// within the second after `a` when `b` is at most a second later, else between them.
pub open spec fn between_ts_draw(a: i64, b: i64, state: u128) -> (i128, u128) {
    if b - a <= 1 {
        let (f, next) = randint_draw(state, 0, 999_999);
        ((a * 1_000_000 + f) as i128, next)
    } else {
        micros_draw(a as int, b as int, state)
    }
}

/// `(zone, next state)` of `timezone` from `state`: a drawn country, then one of its time
/// zones drawn (`UTC` when it has none).
pub open spec fn timezone_draw(countries: Seq<crate::table::Country>, state: u128) -> (Seq<char>, u128) {
    let (i, s1) = pcg_draw_u64(state, (countries.len() - 1) as u64);
    let zones = countries[i as int].timezones@;
    if zones.len() == 0 {
        ("UTC"@, s1)
    } else {
        let (j, s2) = pcg_draw_u64(s1, (zones.len() - 1) as u64);
        (zones[j as int]@, s2)
    }
}

impl Generator {
    /// Faker's `_rand_seconds`: a uniform instant from `start` to `end` seconds, in whole
    /// microseconds.
    fn rand_micros(&mut self, start: i128, end: i128) -> (r: Result<i128>)
        requires
            -0x2_0000_0000_0000_0000 <= start <= 0x2_0000_0000_0000_0000,
            -0x2_0000_0000_0000_0000 <= end <= 0x2_0000_0000_0000_0000,
        ensures
            old(self).same_config(final(self)),
            drawn_between(start as int, end as int, r),
            r matches Ok(us) ==> (us, final(self).stream().state_view()) == micros_draw(start as int, end as int, old(self).stream().state_view()),
    {
        if start > end {
            return Err(invalid("empty range for _rand_seconds: start datetime must be before than end datetime"));
        }
        let lo: i128 = start * 1_000_000;
        let hi: i128 = end * 1_000_000;
        let span: u128 = (hi - lo) as u128;
        let offset = self.randint_u128(0, span);
        Ok(lo + offset as i128)
    }

    /// A bound of a draw: `v` when given, else `fallback`, else now on `clock`.
    fn resolve_bound(v: Option<DateTimeValue>, fallback: Option<i64>, clock: Clock) -> (r: Result<i64>)
        requires
            opt_wf(v),
        ensures
            bound_resolves(v, fallback, clock, r),
            !(v matches Some(DateTimeValue::Timestamp(_))) && fallback is None ==> (r matches Ok(t) ==> -20_000_000_000_000
                <= t <= 20_000_000_000_000),
    {
        match v {
            Some(x) => parse_date_time(x),
            None => match fallback {
                Some(t) => Ok(t),
                None => Ok(crate::date_time::now_timestamp(clock)),
            },
        }
    }

    /// A draw between `start` (default `fallback`, else now) and `end` (default now).
    fn draw_between(
        &mut self,
        start: Option<DateTimeValue>,
        end: Option<DateTimeValue>,
        fallback: Option<i64>,
        clock: Clock,
    ) -> (r: Result<i128>)
        requires
            opt_wf(start),
            opt_wf(end),
        ensures
            old(self).same_config(final(self)),
            draws(start, end, fallback, clock, r),
            r matches Ok(us) ==> exists|a: i64, b: i64|
                bound_resolves(start, fallback, clock, Ok(a)) && bound_resolves(end, None, clock, Ok(b))
                    && #[trigger] micros_draw(a as int, b as int, old(self).stream().state_view()) == (us, final(self).stream().state_view()),
    {
        let ghost s0 = self.stream().state_view();
        let s = Self::resolve_bound(start, fallback, clock);
        let e = Self::resolve_bound(end, None, clock);
        let ghost gs = s;
        let ghost ge = e;
        let a = match s {
            Ok(a) => a,
            Err(x) => {
                let r: Result<i128> = Err(x);
                assert(drawn_from(gs, ge, r));
                return r;
            },
        };
        let b = match e {
            Ok(b) => b,
            Err(x) => {
                let r: Result<i128> = Err(x);
                assert(drawn_from(gs, ge, r));
                return r;
            },
        };
        let r = self.rand_micros(a as i128, b as i128);
        assert(drawn_from(gs, ge, r));
        proof {
            if r is Ok {
                assert(micros_draw(a as int, b as int, s0) == (r->Ok_0, self.stream().state_view()));
            }
        }
        r
    }

    /// Timestamp between `start` (default: epoch) and `end` (default: now), in
    /// microseconds.
    pub fn unix_time(&mut self, end: Option<DateTimeValue>, start: Option<DateTimeValue>) -> (r: Result<i128>)
        requires
            opt_wf(end),
            opt_wf(start),
        ensures
            old(self).same_config(final(self)),
            draws(start, end, Some(0), Clock::NaiveLocal, r),
            r matches Ok(us) ==> exists|a: i64, b: i64|
                bound_resolves(start, Some(0i64), Clock::NaiveLocal, Ok(a)) && bound_resolves(end, None, Clock::NaiveLocal, Ok(b))
                    && #[trigger] micros_draw(a as int, b as int, old(self).stream().state_view()) == (us, final(self).stream().state_view()),
    {
        self.draw_between(start, end, Some(0), Clock::NaiveLocal)
    }

    /// Datetime between the epoch and `end` (default: now).
    pub fn date_time(&mut self, end: Option<DateTimeValue>) -> (r: Result<NaiveDateTime>)
        requires
            opt_wf(end),
        ensures
            old(self).same_config(final(self)),
            date_time_drawn(end, r),
    {
        let u = self.unix_time(end, None);
        let ghost gu = u;
        let r = match u {
            Ok(us) => timestamp_to_naive(us),
            Err(x) => Err(x),
        };
        assert(dated(gu, r));
        r
    }

    /// Datetime between 0001-01-01 (or `start`) and `end` (default: now).
    pub fn date_time_ad(&mut self, end: Option<DateTimeValue>, start: Option<DateTimeValue>) -> (r: Result<NaiveDateTime>)
        requires
            opt_wf(end),
            opt_wf(start),
        ensures
            old(self).same_config(final(self)),
            date_time_ad_drawn(end, start, r),
            r is Ok ==> exists|a: i64, b: i64|
                bound_resolves(start, Some(MIN_TIMESTAMP), Clock::NaiveLocal, Ok(a)) && bound_resolves(end, None, Clock::NaiveLocal, Ok(b)) && naive_at(
                    #[trigger] micros_draw(a as int, b as int, old(self).stream().state_view()).0,
                    r,
                ) && micros_draw(a as int, b as int, old(self).stream().state_view()).1 == final(self).stream().state_view(),
    {
        let ghost s0 = self.stream().state_view();
        let u = self.draw_between(start, end, Some(MIN_TIMESTAMP), Clock::NaiveLocal);
        let ghost gu = u;
        let r = match u {
            Ok(us) => timestamp_to_naive(us),
            Err(x) => Err(x),
        };
        assert(dated(gu, r));
        proof {
            if r is Ok {
                let us = gu->Ok_0;
                let (a, b) = choose|a: i64, b: i64|
                    bound_resolves(start, Some(MIN_TIMESTAMP), Clock::NaiveLocal, Ok(a)) && bound_resolves(end, None, Clock::NaiveLocal, Ok(b))
                        && #[trigger] micros_draw(a as int, b as int, s0) == (us, self.stream().state_view());
                assert(naive_at(micros_draw(a as int, b as int, s0).0, r));
            }
        }
        r
    }

    /// ISO 8601 string; `timespec` is `auto`, `hours`, `minutes`, `seconds`,
    /// `milliseconds` or `microseconds`.
    pub fn iso8601(&mut self, end: Option<DateTimeValue>, sep: &str, timespec: &str) -> (r: Result<String>)
        requires
            opt_wf(end),
        ensures
            old(self).same_config(final(self)),
            exists|d: Result<NaiveDateTime>|
                #[trigger] date_time_drawn(end, d) && chained(d, r, |dt: NaiveDateTime| iso_formatted(dt, sep@, timespec@, r)),
    {
        let d = self.date_time(end);
        let ghost gd = d;
        let r = match d {
            Ok(dt) => isoformat(dt, sep, timespec),
            Err(x) => Err(x),
        };
        assert(chained(gd, r, |dt: NaiveDateTime| iso_formatted(dt, sep@, timespec@, r)));
        r
    }

    /// Date string formatted with a `strftime` pattern.
    pub fn date(&mut self, pattern: &str, end: Option<DateTimeValue>) -> (r: Result<String>)
        requires
            opt_wf(end),
        ensures
            old(self).same_config(final(self)),
            exists|d: Result<NaiveDateTime>|
                #[trigger] date_time_drawn(end, d) && chained(
                    d,
                    r,
                    |dt: NaiveDateTime| strftime_result(formatted_datetime(dt.tuple(), pattern@), pattern@, r),
                ),
    {
        let d = self.date_time(end);
        let ghost gd = d;
        let r = match d {
            Ok(dt) => strftime(&dt, pattern),
            Err(x) => Err(x),
        };
        assert(chained(gd, r, |dt: NaiveDateTime| strftime_result(formatted_datetime(dt.tuple(), pattern@), pattern@, r)));
        r
    }

    /// The date of a datetime between the epoch and `end` (default: now).
    pub fn date_object(&mut self, end: Option<DateTimeValue>) -> (r: Result<NaiveDate>)
        requires
            opt_wf(end),
        ensures
            old(self).same_config(final(self)),
            exists|d: Result<NaiveDateTime>|
                #[trigger] date_time_drawn(end, d) && chained(d, r, |dt: NaiveDateTime| r == Ok::<NaiveDate, Error>(dt.date)),
    {
        let d = self.date_time(end);
        let ghost gd = d;
        let r = match d {
            Ok(dt) => Ok(dt.date),
            Err(x) => Err(x),
        };
        assert(chained(gd, r, |dt: NaiveDateTime| r == Ok::<NaiveDate, Error>(dt.date)));
        r
    }

    /// Time string formatted with a `strftime` pattern.
    pub fn time(&mut self, pattern: &str, end: Option<DateTimeValue>) -> (r: Result<String>)
        requires
            opt_wf(end),
        ensures
            old(self).same_config(final(self)),
            exists|d: Result<NaiveDateTime>|
                #[trigger] date_time_drawn(end, d) && chained(
                    d,
                    r,
                    |dt: NaiveDateTime|
                        strftime_result(
                            formatted_time((dt.time.hour, dt.time.minute, dt.time.second, dt.time.micro), pattern@),
                            pattern@,
                            r,
                        ),
                ),
    {
        let d = self.date_time(end);
        let ghost gd = d;
        let r = match d {
            Ok(dt) => strftime_time(&dt.time, pattern),
            Err(x) => Err(x),
        };
        assert(chained(
            gd,
            r,
            |dt: NaiveDateTime|
                strftime_result(formatted_time((dt.time.hour, dt.time.minute, dt.time.second, dt.time.micro), pattern@), pattern@, r),
        ));
        r
    }

    /// The time of day of a datetime between the epoch and `end` (default: now).
    pub fn time_object(&mut self, end: Option<DateTimeValue>) -> (r: Result<NaiveTime>)
        requires
            opt_wf(end),
        ensures
            old(self).same_config(final(self)),
            exists|d: Result<NaiveDateTime>|
                #[trigger] date_time_drawn(end, d) && chained(d, r, |dt: NaiveDateTime| r == Ok::<NaiveTime, Error>(dt.time)),
    {
        let d = self.date_time(end);
        let ghost gd = d;
        let r = match d {
            Ok(dt) => Ok(dt.time),
            Err(x) => Err(x),
        };
        assert(chained(gd, r, |dt: NaiveDateTime| r == Ok::<NaiveTime, Error>(dt.time)));
        r
    }

    /// Timestamp for `date_time_between`, in microseconds, resolving relative bounds
    /// against `clock`. An end at most a second after the start gives the start plus a
    /// fraction of a second.
    pub fn date_time_between_ts(&mut self, start: DateTimeValue, end: DateTimeValue, clock: Clock) -> (r: Result<i128>)
        requires
            start.wf(),
            end.wf(),
        ensures
            old(self).same_config(final(self)),
            between_drawn(start, end, clock, r),
            r matches Ok(us) ==> exists|a: i64, b: i64|
                resolves(start, clock, Ok(a)) && resolves(end, clock, Ok(b)) && #[trigger] between_ts_draw(
                    a,
                    b,
                    old(self).stream().state_view(),
                ) == (us, final(self).stream().state_view()),
    {
        let ghost s0 = self.stream().state_view();
        let s = parse_date_time_with(start, clock);
        let e = parse_date_time_with(end, clock);
        let ghost gs = s;
        let ghost ge = e;
        let a = match s {
            Ok(a) => a,
            Err(x) => {
                let r: Result<i128> = Err(x);
                assert(between_from(gs, ge, r));
                return r;
            },
        };
        let b = match e {
            Ok(b) => b,
            Err(x) => {
                let r: Result<i128> = Err(x);
                assert(between_from(gs, ge, r));
                return r;
            },
        };
        let r = if (b as i128) - (a as i128) <= 1 {
            let frac = self.randint(0, 999_999);
            Ok(a as i128 * 1_000_000 + frac as i128)
        } else {
            self.rand_micros(a as i128, b as i128)
        };
        assert(between_from(gs, ge, r));
        proof {
            if r is Ok {
                assert(between_ts_draw(a, b, s0) == (r->Ok_0, self.stream().state_view()));
            }
        }
        r
    }

    /// Timestamp for `date_time_between_dates`, in microseconds; absent bounds mean now on
    /// `clock`.
    pub fn date_time_between_dates_ts(
        &mut self,
        start: Option<DateTimeValue>,
        end: Option<DateTimeValue>,
        clock: Clock,
    ) -> (r: Result<i128>)
        requires
            opt_wf(start),
            opt_wf(end),
        ensures
            old(self).same_config(final(self)),
            draws(start, end, None, clock, r),
            r matches Ok(us) ==> exists|a: i64, b: i64|
                bound_resolves(start, None, clock, Ok(a)) && bound_resolves(end, None, clock, Ok(b))
                    && #[trigger] micros_draw(a as int, b as int, old(self).stream().state_view()) == (us, final(self).stream().state_view()),
    {
        self.draw_between(start, end, None, clock)
    }

    /// Datetime between two values (Faker defaults: `-30y` and `now`).
    pub fn date_time_between(&mut self, start: DateTimeValue, end: DateTimeValue) -> (r: Result<NaiveDateTime>)
        requires
            start.wf(),
            end.wf(),
        ensures
            old(self).same_config(final(self)),
            date_time_between_drawn(start, end, r),
            r is Ok ==> exists|a: i64, b: i64|
                resolves(start, Clock::NaiveLocal, Ok(a)) && resolves(end, Clock::NaiveLocal, Ok(b)) && naive_at(
                    #[trigger] between_ts_draw(a, b, old(self).stream().state_view()).0,
                    r,
                ) && between_ts_draw(a, b, old(self).stream().state_view()).1 == final(self).stream().state_view(),
    {
        let ghost s0 = self.stream().state_view();
        let u = self.date_time_between_ts(start, end, Clock::NaiveLocal);
        let ghost gu = u;
        let r = match u {
            Ok(us) => timestamp_to_naive(us),
            Err(x) => Err(x),
        };
        assert(dated(gu, r));
        proof {
            if r is Ok {
                let us = gu->Ok_0;
                let (a, b) = choose|a: i64, b: i64|
                    resolves(start, Clock::NaiveLocal, Ok(a)) && resolves(end, Clock::NaiveLocal, Ok(b)) && #[trigger] between_ts_draw(
                        a,
                        b,
                        s0,
                    ) == (us, self.stream().state_view());
                assert(naive_at(between_ts_draw(a, b, s0).0, r));
            }
        }
        r
    }

    /// Datetime between two values, each defaulting to now.
    pub fn date_time_between_dates(&mut self, start: Option<DateTimeValue>, end: Option<DateTimeValue>) -> (r: Result<NaiveDateTime>)
        requires
            opt_wf(start),
            opt_wf(end),
        ensures
            old(self).same_config(final(self)),
            between_dates_drawn(start, end, r),
            r is Ok ==> exists|a: i64, b: i64|
                bound_resolves(start, None, Clock::NaiveLocal, Ok(a)) && bound_resolves(end, None, Clock::NaiveLocal, Ok(b)) && naive_at(
                    #[trigger] micros_draw(a as int, b as int, old(self).stream().state_view()).0,
                    r,
                ) && micros_draw(a as int, b as int, old(self).stream().state_view()).1 == final(self).stream().state_view(),
    {
        let ghost s0 = self.stream().state_view();
        let u = self.draw_between(start, end, None, Clock::NaiveLocal);
        let ghost gu = u;
        let r = match u {
            Ok(us) => timestamp_to_naive(us),
            Err(x) => Err(x),
        };
        assert(dated(gu, r));
        proof {
            if r is Ok {
                let us = gu->Ok_0;
                let (a, b) = choose|a: i64, b: i64|
                    bound_resolves(start, None, Clock::NaiveLocal, Ok(a)) && bound_resolves(end, None, Clock::NaiveLocal, Ok(b))
                        && #[trigger] micros_draw(a as int, b as int, s0) == (us, self.stream().state_view());
                assert(naive_at(micros_draw(a as int, b as int, s0).0, r));
            }
        }
        r
    }

    /// Date between two values, each defaulting to now.
    pub fn date_between_dates(&mut self, start: Option<DateTimeValue>, end: Option<DateTimeValue>) -> (r: Result<NaiveDate>)
        requires
            opt_wf(start),
            opt_wf(end),
        ensures
            old(self).same_config(final(self)),
            date_between_dates_drawn(start, end, r),
    {
        let d = self.date_time_between_dates(start, end);
        let ghost gd = d;
        let r = match d {
            Ok(dt) => Ok(dt.date),
            Err(x) => Err(x),
        };
        assert(chained(gd, r, |dt: NaiveDateTime| r == Ok::<NaiveDate, Error>(dt.date)));
        r
    }

    /// Date between two values (Faker defaults: `-30y` and `today`).
    pub fn date_between(&mut self, start: DateTimeValue, end: DateTimeValue) -> (r: Result<NaiveDate>)
        requires
            crate::date_time::date_value_ok(start),
            crate::date_time::date_value_ok(end),
        ensures
            old(self).same_config(final(self)),
            date_between_drawn(start, end, r),
    {
        let s = parse_date(start);
        let e = parse_date(end);
        let ghost gs = s;
        let ghost ge = e;
        let a = match s {
            Ok(a) => a,
            Err(x) => {
                let r: Result<NaiveDate> = Err(x);
                assert(dates_from(gs, ge, r));
                return r;
            },
        };
        let b = match e {
            Ok(b) => b,
            Err(x) => {
                let r: Result<NaiveDate> = Err(x);
                assert(dates_from(gs, ge, r));
                return r;
            },
        };
        let r = self.date_between_dates(Some(DateTimeValue::Date(a)), Some(DateTimeValue::Date(b)));
        assert(dates_from(gs, ge, r));
        r
    }

    /// Datetime from a second from now to `end` (Faker default: `+30d`).
    pub fn future_datetime(&mut self, end: DateTimeValue) -> (r: Result<NaiveDateTime>)
        requires
            end.wf(),
        ensures
            old(self).same_config(final(self)),
            date_time_between_drawn(DateTimeValue::Str("+1s"), end, r),
    {
        self.date_time_between(DateTimeValue::Str("+1s"), end)
    }

    /// Date from tomorrow to `end` (Faker default: `+30d`).
    pub fn future_date(&mut self, end: DateTimeValue) -> (r: Result<NaiveDate>)
        requires
            crate::date_time::date_value_ok(end),
        ensures
            old(self).same_config(final(self)),
            date_between_drawn(DateTimeValue::Str("+1d"), end, r),
    {
        self.date_between(DateTimeValue::Str("+1d"), end)
    }

    /// Datetime from `start` (Faker default: `-30d`) to a second ago.
    pub fn past_datetime(&mut self, start: DateTimeValue) -> (r: Result<NaiveDateTime>)
        requires
            start.wf(),
        ensures
            old(self).same_config(final(self)),
            date_time_between_drawn(start, DateTimeValue::Str("-1s"), r),
    {
        self.date_time_between(start, DateTimeValue::Str("-1s"))
    }

    /// Date from `start` (Faker default: `-30d`) to yesterday.
    pub fn past_date(&mut self, start: DateTimeValue) -> (r: Result<NaiveDate>)
        requires
            crate::date_time::date_value_ok(start),
        ensures
            old(self).same_config(final(self)),
            date_between_drawn(start, DateTimeValue::Str("-1d"), r),
    {
        self.date_between(start, DateTimeValue::Str("-1d"))
    }

    /// Duration between now and `end` (default: now, i.e. zero), in microseconds.
    pub fn time_delta(&mut self, end: Option<DateTimeValue>) -> (r: Result<i64>)
        requires
            opt_wf(end),
        ensures
            old(self).same_config(final(self)),
            exists|s: Result<i64>, e: Result<i64>|
                resolves(DateTimeValue::Str("now"), Clock::NaiveLocal, s) && bound_resolves(end, None, Clock::NaiveLocal, e)
                    && #[trigger] delta_from(s, e, r),
    {
        let s = parse_date_time(DateTimeValue::Str("now"));
        let e = Self::resolve_bound(end, None, Clock::NaiveLocal);
        let ghost gs = s;
        let ghost ge = e;
        let a = match s {
            Ok(a) => a,
            Err(x) => {
                let r: Result<i64> = Err(x);
                assert(delta_from(gs, ge, r));
                return r;
            },
        };
        let b = match e {
            Ok(b) => b,
            Err(x) => {
                let r: Result<i64> = Err(x);
                assert(delta_from(gs, ge, r));
                return r;
            },
        };
        let seconds: i128 = b as i128 - a as i128;
        let lo: i128 = if seconds < 0 { seconds } else { 0 };
        let hi: i128 = if seconds > 0 { seconds } else { 0 };
        let r = match self.rand_micros(lo, hi) {
            Ok(us) => {
                let r = if i64::MIN as i128 <= us && us <= i64::MAX as i128 {
                    Ok(us as i64)
                } else {
                    Err(Error::Overflow("timedelta out of range".to_owned()))
                };
                assert(micros_or_overflow(us as int, r));
                r
            },
            Err(x) => Err(x),
        };
        assert(delta_from(gs, ge, r));
        r
    }

    /// A datetime between the bounds of the period around now.
    fn date_time_this(&mut self, period: Period, before: bool, after: bool) -> (r: Result<NaiveDateTime>)
        ensures
            old(self).same_config(final(self)),
            exists|now: NaiveDateTime| now.wf() && #[trigger] this_drawn(period, before, after, now, r),
    {
        let now = now_naive();
        let (sy, sm, ey, em) = period_bounds(period, now.date.year, now.date.month, true);
        let start = match ymd(sy, sm, 1) {
            Ok(d) => d,
            Err(x) => {
                assert(this_drawn(period, before, after, now, Err(x)));
                return Err(x);
            },
        };
        let end = match ymd(ey, em, 1) {
            Ok(d) => d,
            Err(x) => {
                assert(this_drawn(period, before, after, now, Err(x)));
                return Err(x);
            },
        };
        let sv = DateTimeValue::DateTime(start.and_time(NaiveTime::midnight()));
        let ev = DateTimeValue::DateTime(end.and_time(NaiveTime::midnight()));
        let nv = DateTimeValue::DateTime(now);
        let r = if before && after {
            self.date_time_between_dates(Some(sv), Some(ev))
        } else if after {
            self.date_time_between_dates(Some(nv), Some(ev))
        } else if before {
            self.date_time_between_dates(Some(sv), Some(nv))
        } else {
            Ok(now)
        };
        assert(this_drawn(period, before, after, now, r));
        r
    }

    /// A date between the bounds of the period around today.
    fn date_this(&mut self, period: Period, before: bool, after: bool) -> (r: Result<NaiveDate>)
        ensures
            old(self).same_config(final(self)),
            exists|today: NaiveDate| today.wf() && #[trigger] date_this_drawn(period, before, after, today, r),
    {
        let today = today();
        let (sy, sm, ey, em) = period_bounds(period, today.year, today.month, false);
        let start = match ymd(sy, sm, 1) {
            Ok(d) => d,
            Err(x) => {
                assert(date_this_drawn(period, before, after, today, Err(x)));
                return Err(x);
            },
        };
        let end = match ymd(ey, em, 1) {
            Ok(d) => d,
            Err(x) => {
                assert(date_this_drawn(period, before, after, today, Err(x)));
                return Err(x);
            },
        };
        let sv = DateTimeValue::Date(start);
        let ev = DateTimeValue::Date(end);
        let tv = DateTimeValue::Date(today);
        let r = if before && after {
            self.date_between_dates(Some(sv), Some(ev))
        } else if after {
            self.date_between_dates(Some(tv), Some(ev))
        } else if before {
            self.date_between_dates(Some(sv), Some(tv))
        } else {
            Ok(today)
        };
        assert(date_this_drawn(period, before, after, today, r));
        r
    }

    /// A datetime in this century, before and/or after now.
    pub fn date_time_this_century(&mut self, before_now: bool, after_now: bool) -> (r: Result<NaiveDateTime>)
        ensures
            old(self).same_config(final(self)),
            exists|now: NaiveDateTime| now.wf() && #[trigger] this_drawn(Period::Century, before_now, after_now, now, r),
    {
        self.date_time_this(Period::Century, before_now, after_now)
    }

    /// A datetime in this decade, before and/or after now.
    pub fn date_time_this_decade(&mut self, before_now: bool, after_now: bool) -> (r: Result<NaiveDateTime>)
        ensures
            old(self).same_config(final(self)),
            exists|now: NaiveDateTime| now.wf() && #[trigger] this_drawn(Period::Decade, before_now, after_now, now, r),
    {
        self.date_time_this(Period::Decade, before_now, after_now)
    }

    /// A datetime in this year, before and/or after now.
    pub fn date_time_this_year(&mut self, before_now: bool, after_now: bool) -> (r: Result<NaiveDateTime>)
        ensures
            old(self).same_config(final(self)),
            exists|now: NaiveDateTime| now.wf() && #[trigger] this_drawn(Period::Year, before_now, after_now, now, r),
    {
        self.date_time_this(Period::Year, before_now, after_now)
    }

    /// A datetime in this month, before and/or after now.
    pub fn date_time_this_month(&mut self, before_now: bool, after_now: bool) -> (r: Result<NaiveDateTime>)
        ensures
            old(self).same_config(final(self)),
            exists|now: NaiveDateTime| now.wf() && #[trigger] this_drawn(Period::Month, before_now, after_now, now, r),
    {
        self.date_time_this(Period::Month, before_now, after_now)
    }

    /// A date in this century, before and/or after today.
    pub fn date_this_century(&mut self, before_today: bool, after_today: bool) -> (r: Result<NaiveDate>)
        ensures
            old(self).same_config(final(self)),
            exists|today: NaiveDate| today.wf() && #[trigger] date_this_drawn(Period::Century, before_today, after_today, today, r),
    {
        self.date_this(Period::Century, before_today, after_today)
    }

    /// A date in this decade, before and/or after today.
    pub fn date_this_decade(&mut self, before_today: bool, after_today: bool) -> (r: Result<NaiveDate>)
        ensures
            old(self).same_config(final(self)),
            exists|today: NaiveDate| today.wf() && #[trigger] date_this_drawn(Period::Decade, before_today, after_today, today, r),
    {
        self.date_this(Period::Decade, before_today, after_today)
    }

    /// A date in this year, before and/or after today.
    pub fn date_this_year(&mut self, before_today: bool, after_today: bool) -> (r: Result<NaiveDate>)
        ensures
            old(self).same_config(final(self)),
            exists|today: NaiveDate| today.wf() && #[trigger] date_this_drawn(Period::Year, before_today, after_today, today, r),
    {
        self.date_this(Period::Year, before_today, after_today)
    }

    /// A date in this month, before and/or after today.
    pub fn date_this_month(&mut self, before_today: bool, after_today: bool) -> (r: Result<NaiveDate>)
        ensures
            old(self).same_config(final(self)),
            exists|today: NaiveDate| today.wf() && #[trigger] date_this_drawn(Period::Month, before_today, after_today, today, r),
    {
        self.date_this(Period::Month, before_today, after_today)
    }

    /// `AM` or `PM` of a datetime between the epoch and now.
    pub fn am_pm(&mut self) -> (r: Result<&'static str>)
        ensures
            old(self).same_config(final(self)),
            exists|d: Result<NaiveDateTime>|
                #[trigger] date_time_drawn(None, d) && chained(
                    d,
                    r,
                    |dt: NaiveDateTime| r matches Ok(x) && x@ == (if dt.time.hour < 12 { "AM"@ } else { "PM"@ }),
                ),
    {
        let d = self.date_time(None);
        let ghost gd = d;
        let r = match d {
            Ok(dt) => Ok(if dt.time.hour < 12 { "AM" } else { "PM" }),
            Err(x) => Err(x),
        };
        assert(chained(gd, r, |dt: NaiveDateTime| r matches Ok(x) && x@ == (if dt.time.hour < 12 { "AM"@ } else { "PM"@ })));
        r
    }

    /// The two-digit day of the month of a datetime between the epoch and now.
    pub fn day_of_month(&mut self) -> (r: Result<String>)
        ensures
            old(self).same_config(final(self)),
            exists|d: Result<NaiveDateTime>|
                #[trigger] date_time_drawn(None, d) && chained(
                    d,
                    r,
                    |dt: NaiveDateTime| r matches Ok(x) && x@ == padded(dt.date.day as nat, 2),
                ),
    {
        let d = self.date_time(None);
        let ghost gd = d;
        let r = match d {
            Ok(dt) => Ok(pad(dt.date.day, 2)),
            Err(x) => Err(x),
        };
        assert(chained(gd, r, |dt: NaiveDateTime| r matches Ok(x) && x@ == padded(dt.date.day as nat, 2)));
        r
    }

    /// The weekday name (`%A`) of a datetime between the epoch and now.
    pub fn day_of_week(&mut self) -> (r: Result<String>)
        ensures
            old(self).same_config(final(self)),
            exists|d: Result<NaiveDateTime>|
                #[trigger] date_time_drawn(None, d) && chained(
                    d,
                    r,
                    |dt: NaiveDateTime| strftime_result(formatted_datetime(dt.tuple(), "%A"@), "%A"@, r),
                ),
    {
        self.date("%A", None)
    }

    /// The two-digit month of a datetime between the epoch and now.
    pub fn month(&mut self) -> (r: Result<String>)
        ensures
            old(self).same_config(final(self)),
            exists|d: Result<NaiveDateTime>|
                #[trigger] date_time_drawn(None, d) && chained(
                    d,
                    r,
                    |dt: NaiveDateTime| r matches Ok(x) && x@ == padded(dt.date.month as nat, 2),
                ),
    {
        let d = self.date_time(None);
        let ghost gd = d;
        let r = match d {
            Ok(dt) => Ok(pad(dt.date.month, 2)),
            Err(x) => Err(x),
        };
        assert(chained(gd, r, |dt: NaiveDateTime| r matches Ok(x) && x@ == padded(dt.date.month as nat, 2)));
        r
    }

    /// The month name (`%B`) of a datetime between the epoch and now.
    pub fn month_name(&mut self) -> (r: Result<String>)
        ensures
            old(self).same_config(final(self)),
            exists|d: Result<NaiveDateTime>|
                #[trigger] date_time_drawn(None, d) && chained(
                    d,
                    r,
                    |dt: NaiveDateTime| strftime_result(formatted_datetime(dt.tuple(), "%B"@), "%B"@, r),
                ),
    {
        self.date("%B", None)
    }

    /// The four-digit year of a datetime between the epoch and now.
    pub fn year(&mut self) -> (r: Result<String>)
        ensures
            old(self).same_config(final(self)),
            exists|d: Result<NaiveDateTime>|
                #[trigger] date_time_drawn(None, d) && chained(
                    d,
                    r,
                    |dt: NaiveDateTime| 1 <= dt.date.year <= 9999 && (r matches Ok(x) && x@ == padded(dt.date.year as nat, 4)),
                ),
    {
        let d = self.date_time(None);
        let ghost gd = d;
        let r = match d {
            Ok(dt) => Ok(pad(dt.date.year as u32, 4)),
            Err(x) => Err(x),
        };
        assert(chained(
            gd,
            r,
            |dt: NaiveDateTime| 1 <= dt.date.year <= 9999 && (r matches Ok(x) && x@ == padded(dt.date.year as nat, 4)),
        ));
        r
    }

    /// A Roman-numeral century such as `XIV`.
    pub fn century(&mut self) -> (r: String)
        ensures
            old(self).same_config(final(self)),
            old(self).data().date_time.centuries.yields(r@, old(self).weighting()),
            (r@, final(self).stream().state_view()) == old(self).data().date_time.centuries.draw(
                old(self).stream().state_view(),
                old(self).weighting(),
            ),
    {
        proof {
            use_type_invariant(&*self);
        }
        let data = self.shared();
        self.pick_str(&data.date_time.centuries)
    }

    /// The IANA time zone name of a random country (`UTC` for one without any).
    pub fn timezone(&mut self) -> (r: String)
        ensures
            old(self).same_config(final(self)),
            exists|i: int|
                0 <= i < old(self).data().date_time.countries.len() && #[trigger] zone_of(
                    old(self).data().date_time.countries@[i].timezones@,
                    r@,
                ),
            (r@, final(self).stream().state_view()) == timezone_draw(old(self).data().date_time.countries@, old(self).stream().state_view()),
    {
        proof {
            use_type_invariant(&*self);
        }
        let data = self.shared();
        let countries = &data.date_time.countries;
        let i = self.index(countries.len());
        let zones = &countries[i].timezones;
        if zones.len() == 0 {
            let r = "UTC".to_owned();
            assert(zone_of(zones@, r@));
            r
        } else {
            let j = self.index(zones.len());
            let r = zones[j].clone();
            assert(zone_of(zones@, r@));
            r
        }
    }

    /// Date of birth for someone aged `minimum_age` to `maximum_age` today.
    pub fn date_of_birth(&mut self, minimum_age: i64, maximum_age: i64) -> (r: Result<NaiveDate>)
        requires
            0 <= minimum_age <= maximum_age ==> maximum_age < i64::MAX,
        ensures
            old(self).same_config(final(self)),
            exists|today: NaiveDate| today.wf() && #[trigger] born(today, minimum_age as int, maximum_age as int, r),
    {
        if maximum_age < 0 {
            let r = Err(invalid("maximum_age must be greater than or equal to zero."));
            let t = today();
            assert(born(t, minimum_age as int, maximum_age as int, r));
            return r;
        }
        if minimum_age < 0 {
            let r = Err(invalid("minimum_age must be greater than or equal to zero."));
            let t = today();
            assert(born(t, minimum_age as int, maximum_age as int, r));
            return r;
        }
        if minimum_age > maximum_age {
            let r = Err(invalid("minimum_age must be less than or equal to maximum_age."));
            let t = today();
            assert(born(t, minimum_age as int, maximum_age as int, r));
            return r;
        }
        let t = today();
        self.date_of_birth_from(t, minimum_age, maximum_age)
    }

    /// `date_of_birth` relative to a given today.
    pub fn date_of_birth_from(&mut self, today: NaiveDate, minimum_age: i64, maximum_age: i64) -> (r: Result<NaiveDate>)
        requires
            today.wf(),
            0 <= minimum_age <= maximum_age ==> maximum_age < i64::MAX,
        ensures
            old(self).same_config(final(self)),
            born(today, minimum_age as int, maximum_age as int, r),
    {
        if maximum_age < 0 {
            return Err(invalid("maximum_age must be greater than or equal to zero."));
        }
        if minimum_age < 0 {
            return Err(invalid("minimum_age must be greater than or equal to zero."));
        }
        if minimum_age > maximum_age {
            return Err(invalid("minimum_age must be less than or equal to maximum_age."));
        }
        let s = change_year(today, -(maximum_age + 1));
        let e = change_year(today, -minimum_age);
        let ghost gs = s;
        let ghost ge = e;
        let start = match s {
            Ok(a) => a,
            Err(x) => {
                let r: Result<NaiveDate> = Err(x);
                assert(born_between(gs, ge, r));
                return r;
            },
        };
        let end = match e {
            Ok(b) => b,
            Err(x) => {
                let r: Result<NaiveDate> = Err(x);
                assert(born_between(gs, ge, r));
                return r;
            },
        };
        let d = self.date_time_ad(Some(DateTimeValue::Date(end)), Some(DateTimeValue::Date(start)));
        let ghost gd = d;
        let r = match d {
            Ok(dt) => {
                let dob = dt.date;
                if dob != start {
                    Ok(dob)
                } else {
                    match dob.succ_opt() {
                        Some(n) => Ok(n),
                        None => Err(Error::Overflow("date value out of range".to_owned())),
                    }
                }
            },
            Err(x) => Err(x),
        };
        assert(born_between(gs, ge, r));
        r
    }
}

} // verus!
