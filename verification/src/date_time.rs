//! Faker's `date_time` provider for naive datetimes.
//!
//! Faker treats naive datetimes as UTC when converting to timestamps (`calendar.timegm`)
//! and uses the local wall-clock time as "now"; this module does the same. Random instants
//! are drawn as whole microseconds, and offsets are given in microseconds.
use vstd::prelude::*;
use chrono::{Datelike, Timelike};
use std::fmt::Write as _;
use crate::chars::{chars_of, push_char, str_eq};
use crate::error::{invalid, Error, Result};
use crate::fmt::{digits_of, push_number, zero_padded};

verus! {

/// Microseconds per second.
pub const MICROS: i64 = 1_000_000;

/// 0001-01-01T00:00:00 as a Unix timestamp.
pub const MIN_TIMESTAMP: i64 = -62_135_596_800;

/// The last year Faker's datetimes may have.
pub const MAX_YEAR: i32 = 9999;

/// The largest number of days a `chrono::TimeDelta` can hold (`i64::MAX` milliseconds).
pub const MAX_DELTA_DAYS: i64 = 106_751_991_167;

/// Whether `y` is a leap year of the proleptic Gregorian calendar.
pub open spec fn leap_year(y: int) -> bool {
    (y % 4 == 0 && y % 100 != 0) || y % 400 == 0
}

/// The number of days of month `m` of year `y`.
pub open spec fn days_in_month(y: int, m: int) -> int {
    if m == 2 {
        if leap_year(y) {
            29
        } else {
            28
        }
    } else if m == 4 || m == 6 || m == 9 || m == 11 {
        30
    } else {
        31
    }
}

/// A calendar date that `chrono::NaiveDate` can hold.
pub open spec fn valid_date(y: int, m: int, d: int) -> bool {
    &&& -262143 <= y <= 262142
    &&& 1 <= m <= 12
    &&& 1 <= d <= days_in_month(y, m)
}

/// A time of day that `chrono::NaiveTime` can hold (a leap second only at second 59).
pub open spec fn valid_time(h: int, mi: int, s: int, us: int) -> bool {
    &&& 0 <= h < 24
    &&& 0 <= mi < 60
    &&& 0 <= s < 60
    &&& 0 <= us < 2_000_000
    &&& (us >= 1_000_000 ==> s == 59)
}

/// The day after a date; none after the last date `chrono` can hold.
pub open spec fn next_day(y: int, m: int, d: int) -> Option<(int, int, int)> {
    if d < days_in_month(y, m) {
        Some((y, m, d + 1))
    } else if m < 12 {
        Some((y, m + 1, 1))
    } else if y < 262142 {
        Some((y + 1, 1, 1))
    } else {
        None
    }
}

/// Days from 0001-01-01 to January 1 of year `y` in the proleptic Gregorian calendar
/// (negative before year 1).
pub open spec fn days_before_year(y: int) -> int {
    365 * (y - 1) + (y - 1) / 4 - (y - 1) / 100 + (y - 1) / 400
}

/// Days of the months of year `y` before month `m`.
pub open spec fn days_before_month(y: int, m: int) -> int
    decreases m,
{
    if m <= 1 {
        0
    } else {
        days_before_month(y, m - 1) + days_in_month(y, m - 1)
    }
}

/// Days from 1970-01-01 to a date.
pub open spec fn epoch_days(y: int, m: int, d: int) -> int {
    days_before_year(y) + days_before_month(y, m) + d - 1 - days_before_year(1970)
}

/// The Unix timestamp of a date and time read as UTC: seconds since
/// 1970-01-01T00:00:00, leap seconds not counted.
pub open spec fn unix_seconds(y: int, m: int, d: int, h: int, mi: int, s: int) -> int {
    epoch_days(y, m, d) * 86_400 + h * 3600 + mi * 60 + s
}

/// A date's place in its year: the months before it and its own days stay within the
/// year, whose length is 366 days in a leap year and 365 otherwise.
proof fn lemma_month_steps(y: int, m1: int, m2: int)
    requires
        1 <= m1 < m2 <= 13,
    ensures
        days_before_month(y, m1) + days_in_month(y, m1) <= days_before_month(y, m2),
    decreases m2 - m1,
{
    if m2 > m1 + 1 {
        lemma_month_steps(y, m1, m2 - 1);
    }
}

/// The months of a year add up to its length.
proof fn lemma_year_length(y: int)
    ensures
        days_before_month(y, 13) == (if leap_year(y) { 366int } else { 365int }),
{
    reveal_with_fuel(days_before_month, 13);
}

/// One year on, the count grows by the year's length.
proof fn lemma_year_step(y: int)
    ensures
        days_before_year(y + 1) == days_before_year(y) + (if leap_year(y) { 366int } else { 365int }),
{
}

/// Later years start later.
proof fn lemma_years_ordered(y1: int, y2: int)
    requires
        y1 <= y2,
    ensures
        days_before_year(y1) <= days_before_year(y2),
    decreases y2 - y1,
{
    if y1 < y2 {
        lemma_year_step(y2 - 1);
        lemma_years_ordered(y1, y2 - 1);
    }
}

/// A valid date's days within its year come before the year's end.
proof fn lemma_day_in_year(y: int, m: int, d: int)
    requires
        valid_date(y, m, d),
    ensures
        0 <= days_before_month(y, m) + d - 1 < days_before_month(y, 13),
{
    if m < 12 {
        lemma_month_steps(y, m, 13);
    }
    reveal_with_fuel(days_before_month, 13);
}

/// `a` comes before `b` on the calendar.
pub open spec fn date_lt(a: NaiveDate, b: NaiveDate) -> bool {
    ||| a.year < b.year
    ||| a.year == b.year && a.month < b.month
    ||| a.year == b.year && a.month == b.month && a.day < b.day
}

/// `a` is `b` or comes before it on the calendar.
pub open spec fn date_le(a: NaiveDate, b: NaiveDate) -> bool {
    date_lt(a, b) || a == b
}

/// Days since the epoch follow the calendar order of valid dates.
pub proof fn lemma_epoch_days_ordered(a: NaiveDate, b: NaiveDate)
    requires
        a.wf(),
        b.wf(),
    ensures
        date_lt(a, b) <==> epoch_days(a.year as int, a.month as int, a.day as int) < epoch_days(
            b.year as int,
            b.month as int,
            b.day as int,
        ),
        date_le(a, b) <==> epoch_days(a.year as int, a.month as int, a.day as int) <= epoch_days(
            b.year as int,
            b.month as int,
            b.day as int,
        ),
{
    lemma_dates_ordered(a, b);
    lemma_dates_ordered(b, a);
}

/// An earlier valid date has fewer days since the epoch.
proof fn lemma_dates_ordered(a: NaiveDate, b: NaiveDate)
    requires
        a.wf(),
        b.wf(),
    ensures
        date_lt(a, b) ==> epoch_days(a.year as int, a.month as int, a.day as int) < epoch_days(
            b.year as int,
            b.month as int,
            b.day as int,
        ),
        a == b <==> epoch_days(a.year as int, a.month as int, a.day as int) == epoch_days(
            b.year as int,
            b.month as int,
            b.day as int,
        ),
{
    let (y1, m1, d1) = (a.year as int, a.month as int, a.day as int);
    let (y2, m2, d2) = (b.year as int, b.month as int, b.day as int);
    lemma_day_in_year(y1, m1, d1);
    lemma_day_in_year(y2, m2, d2);
    if y1 < y2 {
        lemma_year_length(y1);
        lemma_year_step(y1);
        lemma_years_ordered(y1 + 1, y2);
    } else if y1 == y2 && m1 < m2 {
        lemma_month_steps(y1, m1, m2);
    }
    if y2 < y1 {
        lemma_year_length(y2);
        lemma_year_step(y2);
        lemma_years_ordered(y2 + 1, y1);
    } else if y1 == y2 && m2 < m1 {
        lemma_month_steps(y1, m2, m1);
    }
}

/// The day after a valid date is valid and one day later.
pub proof fn lemma_next_day(y: int, m: int, d: int)
    requires
        valid_date(y, m, d),
    ensures
        next_day(y, m, d) matches Some(n) ==> valid_date(n.0, n.1, n.2) && epoch_days(n.0, n.1, n.2) == epoch_days(y, m, d)
            + 1,
        next_day(y, m, d) is None ==> y == 262142 && m == 12 && d == 31,
{
    if d == days_in_month(y, m) && m == 12 {
        lemma_year_length(y);
        lemma_year_step(y);
        assert(days_before_month(y, 13) == days_before_month(y, 12) + 31);
    }
}

/// A valid datetime's timestamp is within ±10^13 seconds.
pub proof fn lemma_unix_seconds_bounds(y: int, m: int, d: int, h: int, mi: int, s: int)
    requires
        valid_date(y, m, d),
        0 <= h < 24,
        0 <= mi < 60,
        0 <= s < 60,
    ensures
        -10_000_000_000_000 <= unix_seconds(y, m, d, h, mi, s) <= 10_000_000_000_000,
        epoch_days(y, m, d) * 86_400 <= unix_seconds(y, m, d, h, mi, s) < epoch_days(y, m, d) * 86_400 + 86_400,
{
    lemma_day_in_year(y, m, d);
    lemma_year_length(y);
}

/// `unix_seconds` of machine integers, as an `i64`.
pub open spec fn utc_seconds_of(y: i32, m: u32, d: u32, h: u32, mi: u32, s: u32) -> i64 {
    unix_seconds(y as int, m as int, d as int, h as int, mi as int, s as int) as i64
}

/// The epoch plus `us` microseconds, as `chrono` computes it (none when out of range).
pub uninterp spec fn naive_of_micros(us: i64) -> Option<(i32, u32, u32, u32, u32, u32, u32)>;

/// A naive datetime plus `us` microseconds, as `chrono` computes it.
pub uninterp spec fn naive_plus_micros(dt: (i32, u32, u32, u32, u32, u32, u32), us: i64) -> Option<
    (i32, u32, u32, u32, u32, u32, u32),
>;

/// A date plus `days` whole days, as `chrono` computes it.
pub uninterp spec fn date_plus_days(y: i32, m: u32, d: u32, days: i64) -> Option<(i32, u32, u32)>;

/// Whether `chrono`'s strftime reader accepts every specifier of `pattern`.
pub uninterp spec fn strftime_parses(pattern: Seq<char>) -> bool;

/// A naive datetime formatted by `chrono` with `pattern` (none when formatting fails).
pub uninterp spec fn formatted_datetime(dt: (i32, u32, u32, u32, u32, u32, u32), pattern: Seq<char>) -> Option<Seq<char>>;

/// A time of day formatted by `chrono` with `pattern` (none when formatting fails).
pub uninterp spec fn formatted_time(t: (u32, u32, u32, u32), pattern: Seq<char>) -> Option<Seq<char>>;

/// `format!("{s:?}")`: the string quoted and escaped as Rust's `Debug` writes it.
pub uninterp spec fn debug_quoted(s: Seq<char>) -> Seq<char>;

/// `chrono::NaiveDate::from_ymd_opt(..).is_some()`: whether the date exists.
#[verifier::external_body]
fn chrono_date_exists(y: i32, m: u32, d: u32) -> (r: bool)
    ensures
        r == valid_date(y as int, m as int, d as int),
{
    chrono::NaiveDate::from_ymd_opt(y, m, d).is_some()
}

/// `chrono::NaiveTime::from_hms_micro_opt(..).is_some()`: whether the time exists.
#[verifier::external_body]
fn chrono_time_exists(h: u32, mi: u32, s: u32, us: u32) -> (r: bool)
    ensures
        r == valid_time(h as int, mi as int, s as int, us as int),
{
    chrono::NaiveTime::from_hms_micro_opt(h, mi, s, us).is_some()
}

/// `chrono::NaiveDate::with_year(..).is_some()`: whether the same month and day exist in
/// `year`.
#[verifier::external_body]
fn chrono_with_year_exists(y: i32, m: u32, d: u32, year: i32) -> (r: bool)
    requires
        valid_date(y as int, m as int, d as int),
    ensures
        r == valid_date(year as int, m as int, d as int),
{
    chrono::NaiveDate::from_ymd_opt(y, m, d).unwrap().with_year(year).is_some()
}

/// `chrono::NaiveDate::succ_opt`: the next day, if `chrono` can hold it.
#[verifier::external_body]
fn chrono_succ(y: i32, m: u32, d: u32) -> (r: Option<(i32, u32, u32)>)
    requires
        valid_date(y as int, m as int, d as int),
    ensures
        match next_day(y as int, m as int, d as int) {
            Some(n) => r matches Some(t) && t.0 == n.0 && t.1 == n.1 && t.2 == n.2,
            None => r is None,
        },
{
    match chrono::NaiveDate::from_ymd_opt(y, m, d).unwrap().succ_opt() {
        Some(n) => Some((n.year(), n.month(), n.day())),
        None => None,
    }
}

/// `chrono::Local::now().naive_local()`: the local wall-clock time, read from the system.
#[verifier::external_body]
fn chrono_now_local() -> (r: (i32, u32, u32, u32, u32, u32, u32))
    ensures
        valid_date(r.0 as int, r.1 as int, r.2 as int),
        valid_time(r.3 as int, r.4 as int, r.5 as int, r.6 as int),
{
    let n = chrono::Local::now().naive_local();
    (n.year(), n.month(), n.day(), n.hour(), n.minute(), n.second(), n.and_utc().timestamp_subsec_micros())
}

/// `chrono::Local::now().date_naive()`: today's local date, read from the system.
#[verifier::external_body]
fn chrono_today() -> (r: (i32, u32, u32))
    ensures
        valid_date(r.0 as int, r.1 as int, r.2 as int),
{
    let n = chrono::Local::now().date_naive();
    (n.year(), n.month(), n.day())
}

/// `chrono::Utc::now().timestamp()`: the current Unix timestamp, read from the system
/// (within the years `chrono` can hold).
#[verifier::external_body]
fn chrono_now_utc_seconds() -> (r: i64)
    ensures
        -10_000_000_000_000 <= r <= 10_000_000_000_000,
{
    chrono::Utc::now().timestamp()
}

/// `chrono::NaiveDateTime::and_utc().timestamp()` of a valid naive datetime, which `chrono`
/// documents as the number of non-leap seconds since 1970-01-01T00:00:00 UTC: the
/// proleptic Gregorian count of `unix_seconds` (the sub-second part does not count).
#[verifier::external_body]
fn chrono_utc_seconds(y: i32, m: u32, d: u32, h: u32, mi: u32, s: u32, us: u32) -> (r: i64)
    requires
        valid_date(y as int, m as int, d as int),
        valid_time(h as int, mi as int, s as int, us as int),
    ensures
        r == unix_seconds(y as int, m as int, d as int, h as int, mi as int, s as int),
{
    let date = chrono::NaiveDate::from_ymd_opt(y, m, d).unwrap();
    date.and_hms_micro_opt(h, mi, s, us).unwrap().and_utc().timestamp()
}

/// `chrono::DateTime::UNIX_EPOCH.naive_utc().checked_add_signed(TimeDelta::microseconds(us))`.
/// The result lies `us` microseconds after the epoch, so its UTC timestamp is `us` divided
/// by a million, rounded down, and its sub-second part is the remainder.
#[verifier::external_body]
fn chrono_from_micros(us: i64) -> (r: Option<(i32, u32, u32, u32, u32, u32, u32)>)
    ensures
        r == naive_of_micros(us),
        r matches Some(t) ==> unix_seconds(t.0 as int, t.1 as int, t.2 as int, t.3 as int, t.4 as int, t.5 as int) == us
            / 1_000_000 && t.6 == us % 1_000_000,
        r matches Some(t) ==> valid_date(t.0 as int, t.1 as int, t.2 as int) && valid_time(
            t.3 as int,
            t.4 as int,
            t.5 as int,
            t.6 as int,
        ),
{
    let epoch = chrono::DateTime::UNIX_EPOCH.naive_utc();
    match epoch.checked_add_signed(chrono::TimeDelta::microseconds(us)) {
        Some(n) => Some((n.year(), n.month(), n.day(), n.hour(), n.minute(), n.second(), n.and_utc().timestamp_subsec_micros())),
        None => None,
    }
}

/// `chrono::NaiveDateTime::checked_add_signed(TimeDelta::microseconds(us))` of a valid
/// naive datetime.
#[verifier::external_body]
fn chrono_add_micros(dt: (i32, u32, u32, u32, u32, u32, u32), us: i64) -> (r: Option<(i32, u32, u32, u32, u32, u32, u32)>)
    requires
        valid_date(dt.0 as int, dt.1 as int, dt.2 as int),
        valid_time(dt.3 as int, dt.4 as int, dt.5 as int, dt.6 as int),
    ensures
        r == naive_plus_micros(dt, us),
        r matches Some(t) ==> valid_date(t.0 as int, t.1 as int, t.2 as int) && valid_time(
            t.3 as int,
            t.4 as int,
            t.5 as int,
            t.6 as int,
        ),
{
    let base = chrono::NaiveDate::from_ymd_opt(dt.0, dt.1, dt.2).unwrap().and_hms_micro_opt(dt.3, dt.4, dt.5, dt.6).unwrap();
    match base.checked_add_signed(chrono::TimeDelta::microseconds(us)) {
        Some(n) => Some((n.year(), n.month(), n.day(), n.hour(), n.minute(), n.second(), n.and_utc().timestamp_subsec_micros())),
        None => None,
    }
}

/// `chrono::NaiveDate::checked_add_signed(TimeDelta::days(days))` of a valid date
/// (`TimeDelta::days` panics beyond `MAX_DELTA_DAYS`).
#[verifier::external_body]
fn chrono_add_days(y: i32, m: u32, d: u32, days: i64) -> (r: Option<(i32, u32, u32)>)
    requires
        valid_date(y as int, m as int, d as int),
        -MAX_DELTA_DAYS <= days <= MAX_DELTA_DAYS,
    ensures
        r == date_plus_days(y, m, d, days),
        r matches Some(t) ==> valid_date(t.0 as int, t.1 as int, t.2 as int),
{
    let date = chrono::NaiveDate::from_ymd_opt(y, m, d).unwrap();
    match date.checked_add_signed(chrono::TimeDelta::days(days)) {
        Some(n) => Some((n.year(), n.month(), n.day())),
        None => None,
    }
}

/// `chrono::format::StrftimeItems::new(pattern).parse().is_ok()`: whether every specifier
/// of `pattern` is one `chrono` knows.
#[verifier::external_body]
fn chrono_strftime_parses(pattern: &str) -> (r: bool)
    ensures
        r == strftime_parses(pattern@),
{
    chrono::format::StrftimeItems::new(pattern).parse().is_ok()
}

/// How `chrono` writes `%Y`: the year zero-padded to four digits, signed outside 0–9999.
pub open spec fn year_text(y: int) -> Seq<char> {
    if 0 <= y <= 9999 {
        zero_padded(digits_of(y as nat, 10, false), 4)
    } else if y < 0 {
        seq!['-'] + zero_padded(digits_of((-y) as nat, 10, false), 4)
    } else {
        seq!['+'] + zero_padded(digits_of(y as nat, 10, false), 4)
    }
}

/// How `chrono` writes `%Y-%m-%d`: the year, then month and day zero-padded to two digits.
pub open spec fn ymd_text(y: int, m: nat, d: nat) -> Seq<char> {
    year_text(y) + seq!['-'] + zero_padded(digits_of(m, 10, false), 2) + seq!['-'] + zero_padded(
        digits_of(d, 10, false),
        2,
    )
}

/// `write!(out, "{}", dt.format_with_items(StrftimeItems::new(pattern)))` of a valid
/// naive datetime; none when the writer reports an error. For `%Y-%m-%d` (the year,
/// `%m` and `%d` as `chrono` documents them) the text is `ymd_text`.
#[verifier::external_body]
fn chrono_format_datetime(dt: (i32, u32, u32, u32, u32, u32, u32), pattern: &str) -> (r: Option<String>)
    requires
        valid_date(dt.0 as int, dt.1 as int, dt.2 as int),
        valid_time(dt.3 as int, dt.4 as int, dt.5 as int, dt.6 as int),
    ensures
        r matches Some(s) ==> formatted_datetime(dt, pattern@) == Some(s@),
        r is None ==> formatted_datetime(dt, pattern@) is None,
        pattern@ == "%Y-%m-%d"@ ==> r is Some && r->Some_0@ == ymd_text(dt.0 as int, dt.1 as nat, dt.2 as nat),
{
    let value = chrono::NaiveDate::from_ymd_opt(dt.0, dt.1, dt.2).unwrap().and_hms_micro_opt(dt.3, dt.4, dt.5, dt.6).unwrap();
    let mut out = String::new();
    match write!(out, "{}", value.format_with_items(chrono::format::StrftimeItems::new(pattern))) {
        Ok(()) => Some(out),
        Err(_) => None,
    }
}

/// `write!(out, "{}", t.format_with_items(StrftimeItems::new(pattern)))` of a valid time
/// of day; none when the writer reports an error.
#[verifier::external_body]
fn chrono_format_time(t: (u32, u32, u32, u32), pattern: &str) -> (r: Option<String>)
    requires
        valid_time(t.0 as int, t.1 as int, t.2 as int, t.3 as int),
    ensures
        r matches Some(s) ==> formatted_time(t, pattern@) == Some(s@),
        r is None ==> formatted_time(t, pattern@) is None,
{
    let value = chrono::NaiveTime::from_hms_micro_opt(t.0, t.1, t.2, t.3).unwrap();
    let mut out = String::new();
    match write!(out, "{}", value.format_with_items(chrono::format::StrftimeItems::new(pattern))) {
        Ok(()) => Some(out),
        Err(_) => None,
    }
}

/// `format!("{s:?}")`.
#[verifier::external_body]
fn debug_str(s: &str) -> (r: String)
    ensures
        r@ == debug_quoted(s@),
{
    format!("{s:?}")
}


/// A calendar date.
#[derive(Debug, Clone, Copy, PartialEq, Eq, Structural, PartialOrd, Ord, Hash)]
pub struct NaiveDate {
    pub year: i32,
    pub month: u32,
    pub day: u32,
}

/// A time of day, to the microsecond (a leap second shows as 1,000,000 or more).
#[derive(Debug, Clone, Copy, PartialEq, Eq, Structural, PartialOrd, Ord, Hash)]
pub struct NaiveTime {
    pub hour: u32,
    pub minute: u32,
    pub second: u32,
    pub micro: u32,
}

/// A date and a time of day, without time zone.
#[derive(Debug, Clone, Copy, PartialEq, Eq, Structural, PartialOrd, Ord, Hash)]
pub struct NaiveDateTime {
    pub date: NaiveDate,
    pub time: NaiveTime,
}

impl NaiveDate {
    /// A date `chrono` can hold.
    pub open spec fn wf(self) -> bool {
        valid_date(self.year as int, self.month as int, self.day as int)
    }

    /// The date of `year`, `month` and `day`, if it exists.
    pub fn from_ymd_opt(year: i32, month: u32, day: u32) -> (r: Option<NaiveDate>)
        ensures
            r is Some <==> valid_date(year as int, month as int, day as int),
            r matches Some(x) ==> x == (NaiveDate { year, month, day }),
    {
        if chrono_date_exists(year, month, day) {
            Some(NaiveDate { year, month, day })
        } else {
            None
        }
    }

    /// This date at time `t`.
    pub fn and_time(self, t: NaiveTime) -> (r: NaiveDateTime)
        ensures
            r == (NaiveDateTime { date: self, time: t }),
    {
        NaiveDateTime { date: self, time: t }
    }

    /// This date at the given time, if the time exists.
    pub fn and_hms_micro_opt(self, hour: u32, minute: u32, second: u32, micro: u32) -> (r: Option<NaiveDateTime>)
        ensures
            r is Some <==> valid_time(hour as int, minute as int, second as int, micro as int),
            r matches Some(x) ==> x == (NaiveDateTime { date: self, time: NaiveTime { hour, minute, second, micro } }),
    {
        if chrono_time_exists(hour, minute, second, micro) {
            Some(NaiveDateTime { date: self, time: NaiveTime { hour, minute, second, micro } })
        } else {
            None
        }
    }

    /// The next day; none after the last date `chrono` can hold.
    pub fn succ_opt(self) -> (r: Option<NaiveDate>)
        requires
            self.wf(),
        ensures
            match next_day(self.year as int, self.month as int, self.day as int) {
                Some(n) => r matches Some(x) && x.year == n.0 && x.month == n.1 && x.day == n.2,
                None => r is None,
            },
    {
        match chrono_succ(self.year, self.month, self.day) {
            Some((y, m, d)) => Some(NaiveDate { year: y, month: m, day: d }),
            None => None,
        }
    }
}

impl NaiveTime {
    /// A time of day `chrono` can hold.
    pub open spec fn wf(self) -> bool {
        valid_time(self.hour as int, self.minute as int, self.second as int, self.micro as int)
    }

    /// Midnight.
    pub fn midnight() -> (r: NaiveTime)
        ensures
            r == (NaiveTime { hour: 0, minute: 0, second: 0, micro: 0 }),
            r.wf(),
    {
        NaiveTime { hour: 0, minute: 0, second: 0, micro: 0 }
    }
}

impl NaiveDateTime {
    /// A datetime `chrono` can hold.
    pub open spec fn wf(self) -> bool {
        self.date.wf() && self.time.wf()
    }

    /// The fields as a tuple.
    pub open spec fn tuple(self) -> (i32, u32, u32, u32, u32, u32, u32) {
        (self.date.year, self.date.month, self.date.day, self.time.hour, self.time.minute, self.time.second, self.time.micro)
    }
}

/// The datetime of a tuple of fields.
pub open spec fn datetime_of(t: (i32, u32, u32, u32, u32, u32, u32)) -> NaiveDateTime {
    NaiveDateTime {
        date: NaiveDate { year: t.0, month: t.1, day: t.2 },
        time: NaiveTime { hour: t.3, minute: t.4, second: t.5, micro: t.6 },
    }
}

fn tuple_of(dt: &NaiveDateTime) -> (r: (i32, u32, u32, u32, u32, u32, u32))
    ensures
        r == dt.tuple(),
{
    (dt.date.year, dt.date.month, dt.date.day, dt.time.hour, dt.time.minute, dt.time.second, dt.time.micro)
}

fn from_tuple(t: (i32, u32, u32, u32, u32, u32, u32)) -> (r: NaiveDateTime)
    ensures
        r == datetime_of(t),
        r.tuple() == t,
{
    NaiveDateTime {
        date: NaiveDate { year: t.0, month: t.1, day: t.2 },
        time: NaiveTime { hour: t.3, minute: t.4, second: t.5, micro: t.6 },
    }
}

/// Faker's `DateParseType`.
#[derive(Debug, Clone, Copy)]
pub enum DateTimeValue<'a> {
    /// Unix timestamp (Python `int`).
    Timestamp(i64),
    /// A naive datetime, interpreted as UTC.
    DateTime(NaiveDateTime),
    Date(NaiveDate),
    /// Offset from now, in microseconds (Python `timedelta`).
    Delta(i64),
    /// `now`, `today`, or a relative string such as `-30y` or `+2d`.
    Str(&'a str),
}

impl<'a> DateTimeValue<'a> {
    /// Dates and datetimes are ones `chrono` can hold.
    pub open spec fn wf(self) -> bool {
        match self {
            DateTimeValue::DateTime(dt) => dt.wf(),
            DateTimeValue::Date(d) => d.wf(),
            _ => true,
        }
    }
}

/// Which "now" Faker reads. Naive calls use the local wall clock and treat it as UTC;
/// timezone-aware calls (`datetime.now(tzinfo)`) use the real instant.
#[derive(Debug, Clone, Copy, PartialEq, Eq)]
pub enum Clock {
    /// `datetime.now()`.
    NaiveLocal,
    /// `datetime.now(tzinfo)`.
    Utc,
}

/// The unit letter of part `k` of a relative date string (`y M w d h m s`).
pub open spec fn unit_char(k: nat) -> char {
    if k == 0 {
        'y'
    } else if k == 1 {
        'M'
    } else if k == 2 {
        'w'
    } else if k == 3 {
        'd'
    } else if k == 4 {
        'h'
    } else if k == 5 {
        'm'
    } else {
        's'
    }
}

/// The seconds of one unit of part `k`: a year is 365.24 days and a month 30.42 days.
pub open spec fn unit_seconds(k: nat) -> int {
    if k == 0 {
        31_556_736
    } else if k == 1 {
        2_628_288
    } else if k == 2 {
        604_800
    } else if k == 3 {
        86_400
    } else if k == 4 {
        3_600
    } else if k == 5 {
        60
    } else {
        1
    }
}

/// The number of ASCII digits starting at position `i`.
pub open spec fn digit_run(s: Seq<char>, i: int) -> nat
    decreases s.len() - i,
{
    if 0 <= i < s.len() && '0' <= s[i] <= '9' {
        1 + digit_run(s, i + 1)
    } else {
        0
    }
}

/// The value of a run of decimal digits.
pub open spec fn digits_value(s: Seq<char>) -> nat
    decreases s.len(),
{
    if s.len() == 0 {
        0
    } else {
        digits_value(s.drop_last()) * 10 + (s.last() as nat - 48) as nat
    }
}

/// `[+-]\d+<unit>` at the start of `s`: the signed amount, the characters it takes, and
/// the number of digits.
pub open spec fn signed_amount_spec(s: Seq<char>, unit: char) -> Option<(int, int, nat)> {
    if s.len() == 0 || (s[0] != '+' && s[0] != '-') {
        None
    } else {
        let n = digit_run(s, 1);
        let e: int = 1 + n as int;
        if n == 0 || e >= s.len() || s[e] != unit {
            None
        } else {
            let v = digits_value(s.subrange(1, e)) as int;
            Some((if s[0] == '-' { -v } else { v }, e + 1, n))
        }
    }
}

/// Whether an amount is too large to be a time span in seconds: at least 10^29 either way.
pub open spec fn amount_too_large(a: int) -> bool {
    a >= 100_000_000_000_000_000_000_000_000_000 || a <= -100_000_000_000_000_000_000_000_000_000
}

/// Reads the parts from `k` on: the seconds found so far, whether any part was found, and
/// whether some amount was too large.
pub open spec fn date_string_from(s: Seq<char>, k: nat, found: bool, long: bool, acc: int) -> (bool, bool, int)
    decreases 7 - k,
{
    if k >= 7 {
        (found, long, acc)
    } else {
        match signed_amount_spec(s, unit_char(k)) {
            Some((a, c, n)) => date_string_from(
                s.skip(c),
                k + 1,
                true,
                long || amount_too_large(a),
                acc + a * unit_seconds(k),
            ),
            None => date_string_from(s, k + 1, found, long, acc),
        }
    }
}

/// Faker's relative date string (`+1y2M3w4d5h6m7s`, each part optional, each with its own
/// sign, only a prefix read) in seconds: `(found, too long, seconds)`.
pub open spec fn date_string_seconds(s: Seq<char>) -> (bool, bool, int) {
    date_string_from(s, 0, false, false, 0)
}

/// Whether parts were found and were too long does not depend on the seconds so far.
proof fn lemma_date_string_flags(s: Seq<char>, k: nat, found: bool, long: bool, a1: int, a2: int)
    ensures
        date_string_from(s, k, found, long, a1).0 == date_string_from(s, k, found, long, a2).0,
        date_string_from(s, k, found, long, a1).1 == date_string_from(s, k, found, long, a2).1,
    decreases 7 - k,
{
    if k < 7 {
        match signed_amount_spec(s, unit_char(k)) {
            Some((a, c, n)) => lemma_date_string_flags(
                s.skip(c),
                k + 1,
                true,
                long || amount_too_large(a),
                a1 + a * unit_seconds(k),
                a2 + a * unit_seconds(k),
            ),
            None => lemma_date_string_flags(s, k + 1, found, long, a1, a2),
        }
    }
}

/// Once an amount was too long, the reading stays too long.
proof fn lemma_long_sticky(s: Seq<char>, k: nat, found: bool, acc: int)
    ensures
        date_string_from(s, k, found, true, acc).1,
    decreases 7 - k,
{
    if k < 7 {
        match signed_amount_spec(s, unit_char(k)) {
            Some((a, c, n)) => lemma_long_sticky(s.skip(c), k + 1, true, acc + a * unit_seconds(k)),
            None => lemma_long_sticky(s, k + 1, found, acc),
        }
    }
}

proof fn lemma_long_sticky_all(s: Seq<char>)
    ensures
        forall|t: Seq<char>, k: nat, found: bool, acc: int| #[trigger] date_string_from(t, k, found, true, acc).1,
{
    assert forall|t: Seq<char>, k: nat, found: bool, acc: int| #[trigger] date_string_from(t, k, found, true, acc).1 by {
        lemma_long_sticky(t, k, found, acc);
    }
}

/// The value of the digits of `v[from..to]`, capped at 10^29.
fn digits_value_exec(v: &Vec<char>, from: usize, to: usize) -> (r: u128)
    requires
        from <= to <= v.len(),
        forall|i: int| from <= i < to ==> '0' <= #[trigger] v@[i] <= '9',
    ensures
        r == (if digits_value(v@.subrange(from as int, to as int)) >= CAP_AMOUNT {
            CAP_AMOUNT as int
        } else {
            digits_value(v@.subrange(from as int, to as int)) as int
        }),
{
    let mut r: u128 = 0;
    let mut i = from;
    while i < to
        invariant
            from <= i <= to <= v.len(),
            forall|k: int| from <= k < to ==> '0' <= #[trigger] v@[k] <= '9',
            r == (if digits_value(v@.subrange(from as int, i as int)) >= CAP_AMOUNT {
                CAP_AMOUNT as int
            } else {
                digits_value(v@.subrange(from as int, i as int)) as int
            }),
        decreases to - i,
    {
        let ghost before = digits_value(v@.subrange(from as int, i as int));
        let d = ((v[i] as u32) - 48) as u128;
        proof {
            assert(v@.subrange(from as int, i + 1).drop_last() == v@.subrange(from as int, i as int));
            assert(v@.subrange(from as int, i + 1).last() == v@[i as int]);
            assert(digits_value(v@.subrange(from as int, i + 1)) == before * 10 + d);
        }
        if r < CAP_AMOUNT {
            r = r * 10 + d;
            if r > CAP_AMOUNT {
                r = CAP_AMOUNT;
            }
        }
        i = i + 1;
    }
    r
}

/// The cap on one amount of a relative date string.
pub const CAP_AMOUNT: u128 = 100_000_000_000_000_000_000_000_000_000;

/// Matches `[+-]\d+<unit>` at position `at` of `v`: the signed amount (capped at 10^29
/// either way), the position after it, and its number of digits.
fn signed_amount(v: &Vec<char>, at: usize, unit: char) -> (r: Option<(i128, usize, usize)>)
    requires
        at <= v.len(),
    ensures
        match signed_amount_spec(v@.skip(at as int), unit) {
            None => r is None,
            Some((a, c, n)) => r matches Some((x, e, k)) && e == at + c && k == n && (!amount_too_large(a)
                ==> x == a) && (amount_too_large(a) <==> amount_too_large(x as int))
                && -100_000_000_000_000_000_000_000_000_000 <= x <= 100_000_000_000_000_000_000_000_000_000,
        },
{
    let ghost s = v@.skip(at as int);
    if at >= v.len() || (v[at] != '+' && v[at] != '-') {
        return None;
    }
    let mut j = at + 1;
    while j < v.len() && '0' <= v[j] && v[j] <= '9'
        invariant
            at + 1 <= j <= v.len(),
            s == v@.skip(at as int),
            digit_run(s, 1) == (j - at - 1) + digit_run(s, (j - at) as int),
            forall|i: int| at + 1 <= i < j ==> '0' <= #[trigger] v@[i] <= '9',
        decreases v.len() - j,
    {
        j = j + 1;
    }
    assert(digit_run(s, (j - at) as int) == 0);
    let n = j - at - 1;
    if n == 0 || j >= v.len() || v[j] != unit {
        return None;
    }
    assert(s.subrange(1, 1 + n as int) == v@.subrange(at + 1, j as int));
    let value = digits_value_exec(v, at + 1, j) as i128;
    let amount = if v[at] == '-' {
        -value
    } else {
        value
    };
    Some((amount, j + 1, n))
}

/// Parses Faker's relative date strings (`+1y2M3w4d5h6m7s`, each part optional) into
/// seconds. Like `re.match`, only a prefix has to match. Amounts of 10^29 or more,
/// or totals beyond `i64`, are an overflow.
pub fn parse_date_string(value: &str) -> (r: Result<i64>)
    ensures
        ({
            let (found, long, secs) = date_string_seconds(value@);
            &&& !found ==> (r matches Err(Error::Parse(m)) && m@ == "Can't parse date string `"@ + value@ + "`"@)
            &&& found && (long || secs < i64::MIN || secs > i64::MAX) ==> (r matches Err(Error::Overflow(m)) && m@
                == "timedelta out of range"@)
            &&& found && !long && i64::MIN <= secs <= i64::MAX ==> r == Ok::<i64, Error>(secs as i64)
        }),
{
    let v = chars_of(value);
    let mut at: usize = 0;
    let mut found = false;
    let mut long = false;
    let mut acc: i128 = 0;
    let ghost total = date_string_seconds(value@);
    assert(v@.skip(0) == v@);
    proof {
        lemma_long_sticky_all(v@);
    }
    let mut k: usize = 0;
    while k < 7
        invariant
            v@ == value@,
            k <= 7,
            at <= v.len(),
            !long ==> -(k as int) * 3155673600000000000000000000000000000 <= acc <= (k as int) * 3155673600000000000000000000000000000,
            ({
                let rest = date_string_from(v@.skip(at as int), k as nat, found, long, acc as int);
                &&& rest.0 == total.0
                &&& rest.1 == total.1
                &&& !total.1 ==> rest.2 == total.2
            }),
        decreases 7 - k,
    {
        let unit: char = if k == 0 {
            'y'
        } else if k == 1 {
            'M'
        } else if k == 2 {
            'w'
        } else if k == 3 {
            'd'
        } else if k == 4 {
            'h'
        } else if k == 5 {
            'm'
        } else {
            's'
        };
        let secs: i128 = if k == 0 {
            31_556_736
        } else if k == 1 {
            2_628_288
        } else if k == 2 {
            604_800
        } else if k == 3 {
            86_400
        } else if k == 4 {
            3_600
        } else if k == 5 {
            60
        } else {
            1
        };
        assert(unit == unit_char(k as nat) && secs == unit_seconds(k as nat));
        let ghost old_long = long;
        let ghost old_acc = acc;
        let ghost old_found = found;
        match signed_amount(&v, at, unit) {
            Some((amount, end, n)) => {
                proof {
                    assert(v@.skip(at as int).skip((end - at) as int) == v@.skip(end as int));
                    let (a, c, nn) = signed_amount_spec(v@.skip(at as int), unit).unwrap();
                    let spec_acc = acc + a * unit_seconds(k as nat);
                    let big = amount_too_large(amount as int);
                    let exec_acc = if big || old_long { acc as int } else { acc + amount * secs };
                    lemma_date_string_flags(v@.skip(end as int), (k + 1) as nat, true, old_long || big, spec_acc, exec_acc);
                    if old_long || big {
                        lemma_long_sticky(v@.skip(end as int), (k + 1) as nat, true, spec_acc);
                    }
                }
                found = true;
                if amount >= 100_000_000_000_000_000_000_000_000_000 || amount
                    <= -100_000_000_000_000_000_000_000_000_000 {
                    long = true;
                } else if !long {
                    assert(-3155673600000000000000000000000000000 <= amount * secs <= 3155673600000000000000000000000000000) by (nonlinear_arith)
                        requires
                            -100_000_000_000_000_000_000_000_000_000 < amount < 100_000_000_000_000_000_000_000_000_000,
                            1 <= secs <= 31_556_736,
                    ;
                    acc = acc + amount * secs;
                }
                at = end;
            },
            None => {},
        }
        k = k + 1;
    }
    if !found {
        let mut m = "Can't parse date string `".to_owned();
        m.append(value);
        m.append("`");
        return Err(Error::Parse(m));
    }
    if long || acc < i64::MIN as i128 || acc > i64::MAX as i128 {
        return Err(Error::Overflow("timedelta out of range".to_owned()));
    }
    Ok(acc as i64)
}

/// The digits of `n`, zero-padded to `width`.
pub open spec fn padded(n: nat, width: nat) -> Seq<char> {
    zero_padded(digits_of(n, 10, false), width)
}

/// `n` in decimal, zero-padded to `width`.
pub(crate) fn pad(n: u32, width: usize) -> (r: String)
    ensures
        r@ == padded(n as nat, width as nat),
{
    let mut r = String::new();
    push_number(&mut r, n as u128, 10, false, width);
    r
}

/// The time part of Python's `isoformat` for a timespec; none for an unknown one.
pub open spec fn iso_time(t: NaiveTime, timespec: Seq<char>) -> Option<Seq<char>> {
    let h = padded(t.hour as nat, 2);
    let m = padded(t.minute as nat, 2);
    let s = padded(t.second as nat, 2);
    let us = padded(t.micro as nat, 6);
    if timespec == "auto"@ && t.micro == 0 {
        Some(h + seq![':'] + m + seq![':'] + s)
    } else if timespec == "auto"@ || timespec == "microseconds"@ {
        Some(h + seq![':'] + m + seq![':'] + s + seq!['.'] + us)
    } else if timespec == "hours"@ {
        Some(h)
    } else if timespec == "minutes"@ {
        Some(h + seq![':'] + m)
    } else if timespec == "seconds"@ {
        Some(h + seq![':'] + m + seq![':'] + s)
    } else if timespec == "milliseconds"@ {
        Some(h + seq![':'] + m + seq![':'] + s + seq!['.'] + padded((t.micro / 1000) as nat, 3))
    } else {
        None
    }
}

/// What `isoformat(dt, sep, timespec)` gives.
pub open spec fn iso_formatted(dt: NaiveDateTime, sep: Seq<char>, timespec: Seq<char>, r: Result<String>) -> bool {
    &&& iso_time(dt.time, timespec) is None ==> invalid_with(r, "Unknown timespec value"@)
    &&& iso_time(dt.time, timespec) matches Some(t) ==> r matches Ok(s) && s@ == ymd_text(
        dt.date.year as int,
        dt.date.month as nat,
        dt.date.day as nat,
    ) + sep + t
}

/// Python's `datetime.isoformat(sep, timespec)` for naive datetimes: the date as `chrono`
/// formats `%Y-%m-%d`, the separator, and the time to the given precision.
pub fn isoformat(dt: NaiveDateTime, sep: &str, timespec: &str) -> (r: Result<String>)
    requires
        dt.wf(),
    ensures
        iso_formatted(dt, sep@, timespec@, r),
{
    proof {
        reveal_strlit("auto");
        reveal_strlit("microseconds");
        reveal_strlit("hours");
        reveal_strlit("minutes");
        reveal_strlit("seconds");
        reveal_strlit("milliseconds");
    }
    let t = dt.time;
    let h = pad(t.hour, 2);
    let mut hm = h.clone();
    push_char(&mut hm, ':');
    hm.append(pad(t.minute, 2).as_str());
    let mut hms = hm.clone();
    push_char(&mut hms, ':');
    hms.append(pad(t.second, 2).as_str());
    let auto = str_eq(timespec, "auto");
    let time: String = if auto && t.micro == 0 {
        hms
    } else if auto || str_eq(timespec, "microseconds") {
        let mut x = hms;
        push_char(&mut x, '.');
        x.append(pad(t.micro, 6).as_str());
        x
    } else if str_eq(timespec, "hours") {
        h
    } else if str_eq(timespec, "minutes") {
        hm
    } else if str_eq(timespec, "seconds") {
        hms
    } else if str_eq(timespec, "milliseconds") {
        let mut x = hms;
        push_char(&mut x, '.');
        x.append(pad(t.micro / 1000, 3).as_str());
        x
    } else {
        return Err(invalid("Unknown timespec value"));
    };
    assert(iso_time(dt.time, timespec@) == Some(time@));
    match chrono_format_datetime(tuple_of(&dt), "%Y-%m-%d") {
        Some(date) => {
            let mut out = date;
            out.append(sep);
            out.append(time.as_str());
            Ok(out)
        },
        None => Err(invalid("cannot format with \"%Y-%m-%d\"")),
    }
}

/// What formatting with `pattern` gives, when `chrono` would write `text`: an error for a
/// pattern `chrono` does not read, or for a failed write.
pub open spec fn strftime_result(text: Option<Seq<char>>, pattern: Seq<char>, r: Result<String>) -> bool {
    &&& !strftime_parses(pattern) ==> invalid_with(r, "invalid format string "@ + debug_quoted(pattern))
    &&& strftime_parses(pattern) ==> match text {
        Some(s) => r matches Ok(x) && x@ == s,
        None => invalid_with(r, "cannot format with "@ + debug_quoted(pattern)),
    }
}

/// Formats a datetime with a `strftime` pattern, rejecting invalid specifiers instead of
/// panicking.
pub fn strftime(value: &NaiveDateTime, pattern: &str) -> (r: Result<String>)
    requires
        value.wf(),
    ensures
        strftime_result(formatted_datetime(value.tuple(), pattern@), pattern@, r),
{
    if !chrono_strftime_parses(pattern) {
        let mut m = "invalid format string ".to_owned();
        m.append(debug_str(pattern).as_str());
        return Err(Error::InvalidArgument(m));
    }
    match chrono_format_datetime(tuple_of(value), pattern) {
        Some(s) => Ok(s),
        None => {
            let mut m = "cannot format with ".to_owned();
            m.append(debug_str(pattern).as_str());
            Err(Error::InvalidArgument(m))
        },
    }
}

/// Formats a time of day with a `strftime` pattern, rejecting invalid specifiers.
pub fn strftime_time(value: &NaiveTime, pattern: &str) -> (r: Result<String>)
    requires
        value.wf(),
    ensures
        strftime_result(formatted_time((value.hour, value.minute, value.second, value.micro), pattern@), pattern@, r),
{
    if !chrono_strftime_parses(pattern) {
        let mut m = "invalid format string ".to_owned();
        m.append(debug_str(pattern).as_str());
        return Err(Error::InvalidArgument(m));
    }
    match chrono_format_time((value.hour, value.minute, value.second, value.micro), pattern) {
        Some(s) => Ok(s),
        None => {
            let mut m = "cannot format with ".to_owned();
            m.append(debug_str(pattern).as_str());
            Err(Error::InvalidArgument(m))
        },
    }
}

/// A datetime of fields `t` when its year is one Faker allows (1 to 9999).
pub open spec fn naive_result(o: Option<(i32, u32, u32, u32, u32, u32, u32)>) -> Option<NaiveDateTime> {
    match o {
        Some(t) => if 1 <= t.0 <= 9999 {
            Some(datetime_of(t))
        } else {
            None
        },
        None => None,
    }
}

/// `r` is an overflow error with message `msg`.
pub open spec fn overflow_with<T>(r: Result<T>, msg: Seq<char>) -> bool {
    r matches Err(Error::Overflow(m)) && m@ == msg
}

/// `r` is an invalid-argument error with message `msg`.
pub open spec fn invalid_with<T>(r: Result<T>, msg: Seq<char>) -> bool {
    r matches Err(Error::InvalidArgument(m)) && m@ == msg
}

/// Checks that a datetime's year is one Faker allows (1 to 9999).
pub fn check_year(dt: NaiveDateTime) -> (r: Result<NaiveDateTime>)
    ensures
        1 <= dt.date.year <= 9999 ==> r == Ok::<NaiveDateTime, Error>(dt),
        !(1 <= dt.date.year <= 9999) ==> overflow_with(r, "date value out of range"@),
{
    if 1 <= dt.date.year && dt.date.year <= MAX_YEAR {
        return Ok(dt);
    }
    Err(Error::Overflow("date value out of range".to_owned()))
}

/// The Unix timestamp of a datetime read as UTC.
pub open spec fn ts_of(dt: NaiveDateTime) -> int {
    utc_seconds_of(dt.date.year, dt.date.month, dt.date.day, dt.time.hour, dt.time.minute, dt.time.second) as int
}

/// What `datetime(1970, 1, 1) + timedelta(microseconds=us)` gives: a datetime whose
/// timestamp is `us` in whole seconds, or an overflow.
pub open spec fn naive_at(us: i128, r: Result<NaiveDateTime>) -> bool {
    &&& !(i64::MIN <= us <= i64::MAX) ==> overflow_with(r, "timedelta out of range"@)
    &&& i64::MIN <= us <= i64::MAX ==> match naive_result(naive_of_micros(us as i64)) {
        Some(dt) => r == Ok::<NaiveDateTime, Error>(dt) && dt.wf() && ts_of(dt) == us / 1_000_000,
        None => overflow_with(r, "date value out of range"@),
    }
}

/// `datetime(1970, 1, 1) + timedelta(microseconds=us)`.
pub fn timestamp_to_naive(us: i128) -> (r: Result<NaiveDateTime>)
    ensures
        naive_at(us, r),
{
    if us < i64::MIN as i128 || us > i64::MAX as i128 {
        return Err(Error::Overflow("timedelta out of range".to_owned()));
    }
    match chrono_from_micros(us as i64) {
        Some(t) => check_year(from_tuple(t)),
        None => Err(Error::Overflow("date value out of range".to_owned())),
    }
}

/// A datetime plus `us` microseconds.
pub fn add_micros(dt: NaiveDateTime, us: i64) -> (r: Result<NaiveDateTime>)
    requires
        dt.wf(),
    ensures
        match naive_result(naive_plus_micros(dt.tuple(), us)) {
            Some(x) => r == Ok::<NaiveDateTime, Error>(x) && x.wf(),
            None => overflow_with(r, "date value out of range"@),
        },
{
    match chrono_add_micros(tuple_of(&dt), us) {
        Some(t) => check_year(from_tuple(t)),
        None => Err(Error::Overflow("date value out of range".to_owned())),
    }
}

/// The local wall-clock time.
pub fn now_naive() -> (r: NaiveDateTime)
    ensures
        r.wf(),
{
    from_tuple(chrono_now_local())
}

/// Today's local date.
pub fn today() -> (r: NaiveDate)
    ensures
        r.wf(),
{
    let t = chrono_today();
    NaiveDate { year: t.0, month: t.1, day: t.2 }
}

/// The Unix timestamp of a naive datetime read as UTC.
pub fn floor_timestamp(dt: &NaiveDateTime) -> (r: i64)
    requires
        dt.wf(),
    ensures
        r == utc_seconds_of(dt.date.year, dt.date.month, dt.date.day, dt.time.hour, dt.time.minute, dt.time.second),
        -10_000_000_000_000 <= r <= 10_000_000_000_000,
{
    proof {
        lemma_unix_seconds_bounds(
            dt.date.year as int,
            dt.date.month as int,
            dt.date.day as int,
            dt.time.hour as int,
            dt.time.minute as int,
            dt.time.second as int,
        );
    }
    chrono_utc_seconds(dt.date.year, dt.date.month, dt.date.day, dt.time.hour, dt.time.minute, dt.time.second, dt.time.micro)
}

/// What "now" may read as a timestamp on `clock`.
pub open spec fn now_reading(clock: Clock, n: i64) -> bool {
    &&& -10_000_000_000_000 <= n <= 10_000_000_000_000
    &&& match clock {
        Clock::NaiveLocal => exists|dt: NaiveDateTime| dt.wf() && n == #[trigger] utc_seconds_of(
            dt.date.year,
            dt.date.month,
            dt.date.day,
            dt.time.hour,
            dt.time.minute,
            dt.time.second,
        ),
        Clock::Utc => true,
    }
}

/// `timegm(datetime.now(tz).timetuple())` for the given clock.
pub fn now_timestamp(clock: Clock) -> (r: i64)
    ensures
        now_reading(clock, r),
{
    match clock {
        Clock::NaiveLocal => {
            let now = now_naive();
            floor_timestamp(&now)
        },
        Clock::Utc => chrono_now_utc_seconds(),
    }
}

/// What shifting now by `us` microseconds may give on `clock`.
pub open spec fn shifted(clock: Clock, us: i64, r: Result<i64>) -> bool {
    match clock {
        Clock::NaiveLocal => exists|now: NaiveDateTime|
            now.wf() && match #[trigger] naive_result(naive_plus_micros(now.tuple(), us)) {
                Some(x) => r == Ok::<i64, Error>(
                    utc_seconds_of(x.date.year, x.date.month, x.date.day, x.time.hour, x.time.minute, x.time.second),
                ),
                None => overflow_with(r, "date value out of range"@),
            },
        Clock::Utc => exists|n: i64| #[trigger] now_reading(clock, n) && r == Ok::<i64, Error>((n + us / 1_000_000) as i64),
    }
}

/// `timegm((datetime.now(tz) + timedelta(microseconds=us)).timetuple())`.
fn shift_now(us: i64, clock: Clock) -> (r: Result<i64>)
    ensures
        shifted(clock, us, r),
        r matches Ok(t) ==> -20_000_000_000_000 <= t <= 20_000_000_000_000,
{
    match clock {
        Clock::NaiveLocal => {
            let now = now_naive();
            match add_micros(now, us) {
                Ok(x) => Ok(floor_timestamp(&x)),
                Err(e) => Err(e),
            }
        },
        Clock::Utc => {
            let n = now_timestamp(clock);
            let whole = floor_div(us, 1_000_000);
            Ok(n + whole)
        },
    }
}

/// What a relative date string resolves to, in seconds and then microseconds.
pub open spec fn string_micros(s: Seq<char>) -> Result<i64> {
    let (found, long, secs) = date_string_seconds(s);
    if !found {
        Err(Error::EmptySequence)
    } else if long || secs < i64::MIN || secs > i64::MAX || secs * 1_000_000 < i64::MIN || secs * 1_000_000 > i64::MAX {
        Err(Error::EmptySequence)
    } else {
        Ok((secs * 1_000_000) as i64)
    }
}

/// What `parse_date_time_with(value, clock)` may give.
pub open spec fn resolves(value: DateTimeValue, clock: Clock, r: Result<i64>) -> bool {
    match value {
        DateTimeValue::Timestamp(ts) => r == Ok::<i64, Error>(ts),
        DateTimeValue::DateTime(dt) => r == Ok::<i64, Error>(
            utc_seconds_of(dt.date.year, dt.date.month, dt.date.day, dt.time.hour, dt.time.minute, dt.time.second),
        ),
        DateTimeValue::Date(d) => r == Ok::<i64, Error>(utc_seconds_of(d.year, d.month, d.day, 0, 0, 0)),
        DateTimeValue::Delta(us) => shifted(clock, us, r),
        DateTimeValue::Str(s) => if s@ == "now"@ {
            r matches Ok(n) && now_reading(clock, n)
        } else {
            let (found, long, secs) = date_string_seconds(s@);
            if !found {
                r matches Err(Error::Parse(m)) && m@ == "Can't parse date string `"@ + s@ + "`"@
            } else {
                match string_micros(s@) {
                    Ok(us) => shifted(clock, us, r),
                    Err(_) => overflow_with(r, "timedelta out of range"@),
                }
            }
        },
    }
}

/// Seconds to microseconds, when they fit.
fn seconds_to_micros(secs: i64) -> (r: Result<i64>)
    ensures
        secs * 1_000_000 < i64::MIN || secs * 1_000_000 > i64::MAX ==> overflow_with(r, "timedelta out of range"@),
        i64::MIN <= secs * 1_000_000 <= i64::MAX ==> r == Ok::<i64, Error>((secs * 1_000_000) as i64),
{
    let us = secs as i128 * 1_000_000;
    if us < i64::MIN as i128 || us > i64::MAX as i128 {
        return Err(Error::Overflow("timedelta out of range".to_owned()));
    }
    Ok(us as i64)
}

/// Faker's `_parse_date_time`: a value to an integer timestamp, relative to the local clock.
pub fn parse_date_time(value: DateTimeValue) -> (r: Result<i64>)
    requires
        value.wf(),
    ensures
        resolves(value, Clock::NaiveLocal, r),
        !(value is Timestamp) ==> (r matches Ok(t) ==> -20_000_000_000_000 <= t <= 20_000_000_000_000),
{
    parse_date_time_with(value, Clock::NaiveLocal)
}

/// Faker's `_parse_date_time(value, tzinfo)`: relative values resolve against `clock`.
pub fn parse_date_time_with(value: DateTimeValue, clock: Clock) -> (r: Result<i64>)
    requires
        value.wf(),
    ensures
        resolves(value, clock, r),
        !(value is Timestamp) ==> (r matches Ok(t) ==> -20_000_000_000_000 <= t <= 20_000_000_000_000),
{
    match value {
        DateTimeValue::Timestamp(ts) => Ok(ts),
        DateTimeValue::DateTime(dt) => Ok(floor_timestamp(&dt)),
        DateTimeValue::Date(date) => {
            let midnight = date.and_time(NaiveTime::midnight());
            Ok(floor_timestamp(&midnight))
        },
        DateTimeValue::Delta(us) => shift_now(us, clock),
        DateTimeValue::Str(s) => {
            if str_eq(s, "now") {
                return Ok(now_timestamp(clock));
            }
            let secs = match parse_date_string(s) {
                Ok(v) => v,
                Err(e) => {
                    return Err(e);
                },
            };
            let us = match seconds_to_micros(secs) {
                Ok(v) => v,
                Err(e) => {
                    return Err(e);
                },
            };
            shift_now(us, clock)
        },
    }
}

/// The days of `us` microseconds, rounded down (`timedelta.days`).
fn whole_days(us: i64) -> (r: i64)
    ensures
        r == us / 86_400_000_000,
        -MAX_DELTA_DAYS <= r <= MAX_DELTA_DAYS,
{
    floor_div(us, 86_400_000_000)
}

/// `x / d` rounded towards negative infinity, as Python's `//` does.
fn floor_div(x: i64, d: i64) -> (r: i64)
    requires
        d > 0,
    ensures
        r == x / d,
{
    if x >= 0 {
        return x / d;
    }
    let q: i128 = (-(x as i128) + (d as i128) - 1) / (d as i128);
    proof {
        let rem: int = x + d * q;
        assert(0 <= rem < d && x == -(q as int) * d + rem && 0 <= q <= -x) by (nonlinear_arith)
            requires
                d > 0,
                x < 0,
                q == (-x + d - 1) / (d as int),
                rem == x + d * q,
        ;
        vstd::arithmetic::div_mod::lemma_fundamental_div_mod_converse(x as int, d as int, -(q as int), rem);
    }
    let r: i128 = -q;
    r as i64
}

/// `today` plus `days` days, or an overflow.
pub open spec fn added_days(today: NaiveDate, days: i64, r: Result<NaiveDate>) -> bool {
    match date_plus_days(today.year, today.month, today.day, days) {
        Some(t) => r == Ok::<NaiveDate, Error>(NaiveDate { year: t.0, month: t.1, day: t.2 }),
        None => overflow_with(r, "date value out of range"@),
    }
}

/// What `parse_date(value)` may give against the date `today`.
pub open spec fn date_resolves(value: DateTimeValue, today: NaiveDate, r: Result<NaiveDate>) -> bool {
    match value {
        DateTimeValue::DateTime(dt) => r == Ok::<NaiveDate, Error>(dt.date),
        DateTimeValue::Date(d) => r == Ok::<NaiveDate, Error>(d),
        DateTimeValue::Delta(us) => added_days(today, (us / 86_400_000_000) as i64, r),
        DateTimeValue::Str(s) => if s@ == "today"@ || s@ == "now"@ {
            r == Ok::<NaiveDate, Error>(today)
        } else {
            let (found, long, secs) = date_string_seconds(s@);
            if !found {
                r matches Err(Error::Parse(m)) && m@ == "Can't parse date string `"@ + s@ + "`"@
            } else {
                match string_micros(s@) {
                    Ok(us) => added_days(today, (us / 86_400_000_000) as i64, r),
                    Err(_) => overflow_with(r, "timedelta out of range"@),
                }
            }
        },
        DateTimeValue::Timestamp(days) => added_days(today, days, r),
    }
}

/// Values `parse_date` takes: dates `chrono` holds, and day counts `chrono` can add.
pub open spec fn date_value_ok(value: DateTimeValue) -> bool {
    value.wf() && (value matches DateTimeValue::Timestamp(days) ==> -MAX_DELTA_DAYS <= days <= MAX_DELTA_DAYS)
}

/// What `parse_date(value)` may give, for some valid date as today.
pub open spec fn date_parsed(value: DateTimeValue, r: Result<NaiveDate>) -> bool {
    &&& exists|today: NaiveDate| today.wf() && #[trigger] date_resolves(value, today, r)
    &&& r matches Ok(d) ==> d.wf()
}

/// Faker's `_parse_date`: a value to a date, relative to today's local date.
pub fn parse_date(value: DateTimeValue) -> (r: Result<NaiveDate>)
    requires
        date_value_ok(value),
    ensures
        date_parsed(value, r),
{
    let t = chrono_today();
    let today = NaiveDate { year: t.0, month: t.1, day: t.2 };
    let r = match value {
        DateTimeValue::DateTime(dt) => Ok(dt.date),
        DateTimeValue::Date(date) => Ok(date),
        DateTimeValue::Delta(us) => add_days(today, whole_days(us)),
        DateTimeValue::Str(s) => {
            if str_eq(s, "today") || str_eq(s, "now") {
                Ok(today)
            } else {
                match parse_date_string(s) {
                    Ok(secs) => match seconds_to_micros(secs) {
                        Ok(us) => add_days(today, whole_days(us)),
                        Err(e) => Err(e),
                    },
                    Err(e) => Err(e),
                }
            }
        },
        DateTimeValue::Timestamp(days) => add_days(today, days),
    };
    assert(date_resolves(value, today, r));
    r
}

/// `today` plus `days` days.
fn add_days(today: NaiveDate, days: i64) -> (r: Result<NaiveDate>)
    requires
        today.wf(),
        -MAX_DELTA_DAYS <= days <= MAX_DELTA_DAYS,
    ensures
        added_days(today, days, r),
        r matches Ok(d) ==> d.wf(),
{
    match chrono_add_days(today.year, today.month, today.day, days) {
        Some((y, m, d)) => Ok(NaiveDate { year: y, month: m, day: d }),
        None => Err(Error::Overflow("date value out of range".to_owned())),
    }
}

/// The message for a year out of range.
pub open spec fn year_message(year: int) -> Seq<char> {
    "year "@ + crate::fmt::decimal(year) + " is out of range"@
}

/// What moving `date` by `diff` years gives: the same day (March 1 when that day does not
/// exist), or an error for a year out of range.
pub open spec fn year_changed(date: NaiveDate, diff: int, r: Result<NaiveDate>) -> bool {
    let year = date.year + diff;
    &&& !(i32::MIN <= year <= i32::MAX) ==> invalid_with(r, "year out of range"@)
    &&& i32::MIN <= year <= i32::MAX && year < 1 ==> invalid_with(r, year_message(year))
    &&& i32::MIN <= year <= i32::MAX && year >= 1 ==> if valid_date(year, date.month as int, date.day as int) {
        r == Ok::<NaiveDate, Error>(NaiveDate { year: year as i32, month: date.month, day: date.day })
    } else if valid_date(year, 3, 1) {
        r == Ok::<NaiveDate, Error>(NaiveDate { year: year as i32, month: 3, day: 1 })
    } else {
        invalid_with(r, year_message(year))
    }
}

/// The same day `diff` years later (March 1 when that day does not exist).
pub fn change_year(date: NaiveDate, diff: i64) -> (r: Result<NaiveDate>)
    requires
        date.wf(),
    ensures
        year_changed(date, diff as int, r),
        r matches Ok(d) ==> d.wf(),
{
    let sum = date.year as i128 + diff as i128;
    if sum < i32::MIN as i128 || sum > i32::MAX as i128 {
        return Err(invalid("year out of range"));
    }
    let year = sum as i32;
    let mut msg = "year ".to_owned();
    crate::fmt::push_decimal(&mut msg, year as i128);
    msg.append(" is out of range");
    if year < 1 {
        return Err(Error::InvalidArgument(msg));
    }
    if chrono_with_year_exists(date.year, date.month, date.day, year) {
        return Ok(NaiveDate { year, month: date.month, day: date.day });
    }
    match NaiveDate::from_ymd_opt(year, 3, 1) {
        Some(d) => Ok(d),
        None => Err(Error::InvalidArgument(msg)),
    }
}

/// The date of `year`, `month` and `day`, or an overflow.
pub fn ymd(year: i32, month: u32, day: u32) -> (r: Result<NaiveDate>)
    ensures
        valid_date(year as int, month as int, day as int) ==> r == Ok::<NaiveDate, Error>(NaiveDate { year, month, day }),
        !valid_date(year as int, month as int, day as int) ==> overflow_with(r, "date value out of range"@),
        r matches Ok(d) ==> d.wf(),
{
    match NaiveDate::from_ymd_opt(year, month, day) {
        Some(d) => Ok(d),
        None => Err(Error::Overflow("date value out of range".to_owned())),
    }
}
} // verus!
