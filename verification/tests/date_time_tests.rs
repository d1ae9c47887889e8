use chrono::{Datelike, Local, TimeDelta};
use rusty_faker_core::date_time::{
    floor_timestamp, isoformat, now_naive, parse_date, parse_date_string, parse_date_time, strftime, today, NaiveDate,
    NaiveDateTime,
};
use rusty_faker_core::date_time_gen::{period_bounds, period_window, Period};
use rusty_faker_core::{now_timestamp, timestamp_to_naive, Clock, DateTimeValue, Error, Generator};

fn g() -> Generator {
    Generator::seeded("en_US", 10).unwrap()
}

fn chrono_date(d: NaiveDate) -> chrono::NaiveDate {
    chrono::NaiveDate::from_ymd_opt(d.year, d.month, d.day).unwrap()
}

fn chrono_datetime(dt: NaiveDateTime) -> chrono::NaiveDateTime {
    chrono_date(dt.date).and_hms_micro_opt(dt.time.hour, dt.time.minute, dt.time.second, dt.time.micro).unwrap()
}

#[test]
fn date_strings_parse_like_faker() {
    assert_eq!(parse_date_string("+1d").unwrap(), 86_400);
    assert_eq!(parse_date_string("-2w+3h").unwrap(), -2 * 604_800 + 3 * 3600);
    // Every part needs its own sign, so "3h" is ignored here.
    assert_eq!(parse_date_string("-2w3h").unwrap(), -2 * 604_800);
    // 365.24 days.
    assert_eq!(parse_date_string("+1y").unwrap(), 31_556_736);
    assert_eq!(parse_date_string("+5sjunk").unwrap(), 5);
    assert!(matches!(parse_date_string("5d"), Err(Error::Parse(_))));
    assert!(matches!(parse_date_string("soon"), Err(Error::Parse(_))));
}

#[test]
fn ranges_hold() {
    let mut g = g();
    let now = floor_timestamp(&now_naive());
    for _ in 0..500 {
        let dt = g.date_time(None).unwrap();
        assert!(floor_timestamp(&dt) <= now && dt.date.year >= 1970);
        let past = g.past_date(DateTimeValue::Str("-30d")).unwrap();
        assert!(chrono_date(past) < Local::now().date_naive());
        let future = g.future_datetime(DateTimeValue::Str("+30d")).unwrap();
        assert!(chrono_datetime(future) > chrono_datetime(now_naive()) - TimeDelta::seconds(1));
        let dob = g.date_of_birth(18, 30).unwrap();
        let age = Local::now().date_naive().years_since(chrono_date(dob)).unwrap();
        assert!((18..=30).contains(&age), "{dob:?}");
        let this_year = g.date_this_year(true, false).unwrap();
        assert_eq!(this_year.year, Local::now().year());
    }
    // An end before the start yields `start + random()`, like Faker.
    let odd = g.date_time_between(DateTimeValue::Str("now"), DateTimeValue::Str("-1d")).unwrap();
    assert!((floor_timestamp(&odd) - now).abs() <= 2);
    assert!(g.date_time_between_dates(Some(DateTimeValue::Str("now")), Some(DateTimeValue::Str("-1d"))).is_err());
    assert!(g.date_of_birth(5, 1).is_err());
}

#[test]
fn aware_clock_resolves_against_utc() {
    let mut g = g();
    let utc_now = chrono::Utc::now().timestamp();
    assert!((rusty_faker_core::date_time::parse_date_time_with(DateTimeValue::Str("now"), Clock::Utc).unwrap() - utc_now).abs() <= 1);
    let in_two_days = rusty_faker_core::date_time::parse_date_time_with(DateTimeValue::Str("+2d"), Clock::Utc).unwrap();
    assert!((in_two_days - (utc_now + 2 * 86_400)).abs() <= 1);
    let ts = g.date_time_between_ts(DateTimeValue::Str("-1d"), DateTimeValue::Str("now"), Clock::Utc).unwrap();
    // Microseconds.
    assert!(i128::from(utc_now - 86_401) * 1_000_000 <= ts && ts <= i128::from(utc_now) * 1_000_000);
    let pinned = g
        .date_time_between_dates_ts(Some(DateTimeValue::Timestamp(42)), Some(DateTimeValue::Timestamp(42)), Clock::Utc)
        .unwrap();
    assert_eq!(pinned, 42_000_000);
}

#[test]
fn formatting() {
    let dt = NaiveDate::from_ymd_opt(2001, 2, 3).unwrap().and_hms_micro_opt(4, 5, 6, 7).unwrap();
    assert_eq!(isoformat(dt, "T", "auto").unwrap(), "2001-02-03T04:05:06.000007");
    assert_eq!(isoformat(dt, " ", "minutes").unwrap(), "2001-02-03 04:05");
    assert!(isoformat(dt, "T", "bogus").is_err());
    assert_eq!(strftime(&dt, "%A %B %p").unwrap(), "Saturday February AM");
    assert!(strftime(&dt, "%Q").is_err());
    let mut g = g();
    assert_eq!(g.year().unwrap().len(), 4);
    assert!(["AM", "PM"].contains(&g.am_pm().unwrap()));
    assert!(g.timezone().contains('/'));
}

#[test]
fn isoformat_timespecs() {
    let dt = NaiveDate::from_ymd_opt(2001, 2, 3).unwrap().and_hms_micro_opt(4, 5, 6, 7_000).unwrap();
    assert_eq!(isoformat(dt, "T", "hours").unwrap(), "2001-02-03T04");
    assert_eq!(isoformat(dt, "T", "seconds").unwrap(), "2001-02-03T04:05:06");
    assert_eq!(isoformat(dt, "T", "milliseconds").unwrap(), "2001-02-03T04:05:06.007");
    assert_eq!(isoformat(dt, "T", "microseconds").unwrap(), "2001-02-03T04:05:06.007000");
    let whole = NaiveDate::from_ymd_opt(2001, 2, 3).unwrap().and_hms_micro_opt(4, 5, 6, 0).unwrap();
    assert_eq!(isoformat(whole, "T", "auto").unwrap(), "2001-02-03T04:05:06");
    assert_eq!(isoformat(dt, "T", "bogus").unwrap_err().message(), "Unknown timespec value");
    assert_eq!(strftime(&dt, "%Q").unwrap_err().message(), "invalid format string \"%Q\"");
}

#[test]
fn relative_strings_and_limits() {
    assert_eq!(parse_date_string("+1M").unwrap(), 2_628_288);
    assert_eq!(parse_date_string("-1y+2M-3w+4d-5h+6m-7s").unwrap(), -31_556_736 + 2 * 2_628_288 - 3 * 604_800 + 4 * 86_400 - 5 * 3600 + 6 * 60 - 7);
    assert_eq!(parse_date_string("soon").unwrap_err().message(), "Can't parse date string `soon`");
    assert!(matches!(parse_date_string("+99999999999999999999999999999999y"), Err(Error::Overflow(_))));
    assert_eq!(parse_date_time(DateTimeValue::Timestamp(7)).unwrap(), 7);
    let epoch = NaiveDate::from_ymd_opt(1970, 1, 2).unwrap();
    assert_eq!(parse_date_time(DateTimeValue::Date(epoch)).unwrap(), 86_400);
    assert_eq!(parse_date(DateTimeValue::Date(epoch)).unwrap(), epoch);
    assert_eq!(parse_date(DateTimeValue::Str("today")).unwrap(), today());
    assert!(matches!(parse_date(DateTimeValue::Str("bad")), Err(Error::Parse(_))));
}

#[test]
fn timestamps_and_dates() {
    let dt = timestamp_to_naive(86_400_000_001).unwrap();
    assert_eq!(dt.date, NaiveDate::from_ymd_opt(1970, 1, 2).unwrap());
    assert_eq!(dt.time.micro, 1);
    assert_eq!(floor_timestamp(&dt), 86_400);
    let before = timestamp_to_naive(-1).unwrap();
    assert_eq!(floor_timestamp(&before), -1);
    assert_eq!(before.time.micro, 999_999);
    assert_eq!(timestamp_to_naive(i128::from(i64::MAX) + 1).unwrap_err().message(), "timedelta out of range");
    assert_eq!(timestamp_to_naive(-62_135_596_801_000_000).unwrap_err().message(), "date value out of range");
    assert!(now_timestamp(Clock::Utc) > 1_600_000_000);
    assert_eq!(NaiveDate::from_ymd_opt(2023, 2, 29), None);
    assert_eq!(NaiveDate::from_ymd_opt(2024, 2, 29).unwrap().succ_opt().unwrap(), NaiveDate::from_ymd_opt(2024, 3, 1).unwrap());
}

#[test]
fn generator_dates() {
    let mut g = g();
    let start = NaiveDate::from_ymd_opt(2000, 1, 1).unwrap();
    let end = NaiveDate::from_ymd_opt(2000, 12, 31).unwrap();
    for _ in 0..200 {
        let d = g.date_between(DateTimeValue::Date(start), DateTimeValue::Date(end)).unwrap();
        assert!(start <= d && d <= end, "{d:?}");
        let ad = g.date_time_ad(None, None).unwrap();
        assert!(ad.date.year >= 1);
        let delta = g.time_delta(Some(DateTimeValue::Str("+1d"))).unwrap();
        assert!((0..=86_401_000_000).contains(&delta));
        let u = g.unix_time(Some(DateTimeValue::Timestamp(100)), Some(DateTimeValue::Timestamp(50))).unwrap();
        assert!((50_000_000..=100_000_000).contains(&u));
        let born = g.date_of_birth_from(start, 0, 0).unwrap();
        assert!(NaiveDate::from_ymd_opt(1999, 1, 1).unwrap() < born && born <= start, "{born:?}");
    }
    assert_eq!(
        g.unix_time(Some(DateTimeValue::Timestamp(1)), Some(DateTimeValue::Timestamp(2))).unwrap_err().message(),
        "empty range for _rand_seconds: start datetime must be before than end datetime"
    );
    assert_eq!(
        g.date_of_birth(-1, 5).unwrap_err().message(),
        "minimum_age must be greater than or equal to zero."
    );
    assert_eq!(g.date_of_birth(1, -5).unwrap_err().message(), "maximum_age must be greater than or equal to zero.");
    assert_eq!(g.date_of_birth(6, 5).unwrap_err().message(), "minimum_age must be less than or equal to maximum_age.");
    assert_eq!(g.date_this_month(false, false).unwrap(), today());
    let month = g.month().unwrap();
    assert!(month.len() == 2 && (1..=12).contains(&month.parse::<u32>().unwrap()));
    assert_eq!(g.day_of_month().unwrap().len(), 2);
    assert!(!g.day_of_week().unwrap().is_empty());
    assert!(!g.month_name().unwrap().is_empty());
    assert!(g.century().chars().all(|c| "IVX".contains(c)));
    assert!(g.iso8601(None, "T", "seconds").unwrap().contains('T'));
    assert!(g.date("%Y", None).unwrap().len() == 4);
    assert!(g.time("%H:%M", None).unwrap().len() == 5);
    assert!(g.date_object(None).unwrap().year >= 1970);
    assert!(g.time_object(None).unwrap().hour < 24);
    let decade = g.date_time_this_decade(true, true).unwrap();
    assert_eq!(decade.date.year / 10, Local::now().year() / 10);
    let century = g.date_this_century(true, true).unwrap();
    assert_eq!(century.year / 100, Local::now().year() / 100);
}

#[test]
fn calendar_steps_come_from_chrono() {
    let today = today();
    assert_eq!(parse_date(DateTimeValue::Str("+1d")).unwrap(), today.succ_opt().unwrap());
    assert_eq!(parse_date(DateTimeValue::Timestamp(0)).unwrap(), today);
    // One microsecond back is yesterday, in whole days rounded down.
    let yesterday = chrono_date(today).pred_opt().unwrap();
    assert_eq!(
        parse_date(DateTimeValue::Delta(-1)).unwrap(),
        NaiveDate { year: yesterday.year(), month: yesterday.month(), day: yesterday.day() }
    );
    assert_eq!(NaiveDate::from_ymd_opt(2024, 1, 1).unwrap().and_hms_micro_opt(24, 0, 0, 0), None);
    let leap = NaiveDate::from_ymd_opt(2024, 2, 29).unwrap();
    let mut g = g();
    for _ in 0..100 {
        let dob = g.date_of_birth_from(leap, 0, 0).unwrap();
        assert!(NaiveDate::from_ymd_opt(2023, 3, 2).unwrap() <= dob && dob <= leap, "{dob:?}");
    }
    let now = floor_timestamp(&now_naive());
    let soon = parse_date_time(DateTimeValue::Delta(3_600_000_000)).unwrap();
    assert!((soon - now - 3600).abs() <= 2);
}

#[test]
fn period_helpers() {
    assert_eq!(period_bounds(Period::Century, 2024, 5, true), (2000, 1, 2100, 1));
    assert_eq!(period_bounds(Period::Century, 9950, 5, true), (9900, 1, 9999, 1));
    assert_eq!(period_bounds(Period::Century, 9950, 5, false), (9900, 1, 10000, 1));
    assert_eq!(period_bounds(Period::Decade, -5, 3, false), (-10, 1, 0, 1));
    assert_eq!(period_bounds(Period::Year, 2024, 5, true), (2024, 1, 2025, 1));
    assert_eq!(period_bounds(Period::Month, 2024, 12, true), (2024, 12, 2025, 1));
    assert_eq!(period_bounds(Period::Month, 2024, 5, true), (2024, 5, 2024, 6));
    assert_eq!(period_window(true, true, 1, 9, 5), Some((1, 9)));
    assert_eq!(period_window(false, true, 1, 9, 5), Some((5, 9)));
    assert_eq!(period_window(true, false, 1, 9, 5), Some((1, 5)));
    assert_eq!(period_window(false, false, 1, 9, 5), None);
}

#[test]
fn leading_zeros_do_not_make_an_amount_large() {
    let zeros = "0".repeat(40);
    assert_eq!(parse_date_string(&format!("+{zeros}1s")).unwrap(), 1);
    assert!(parse_date_string(&format!("+1{zeros}s")).is_err());
}

#[test]
fn isoformat_years_outside_four_digits() {
    let early = NaiveDate::from_ymd_opt(12, 3, 4).unwrap().and_hms_micro_opt(0, 0, 0, 0).unwrap();
    assert_eq!(isoformat(early, "T", "seconds").unwrap(), "0012-03-04T00:00:00");
    let late = NaiveDate::from_ymd_opt(12345, 1, 2).unwrap().and_hms_micro_opt(0, 0, 0, 0).unwrap();
    assert_eq!(isoformat(late, "T", "hours").unwrap(), "+12345-01-02T00");
    let before = NaiveDate::from_ymd_opt(-1, 1, 2).unwrap().and_hms_micro_opt(0, 0, 0, 0).unwrap();
    assert_eq!(isoformat(before, "T", "hours").unwrap(), "-0001-01-02T00");
}

#[test]
fn time_delta_far_in_the_future_overflows() {
    let mut g = g();
    assert_eq!(
        g.time_delta(Some(DateTimeValue::Timestamp(i64::MAX - 5))),
        Err(Error::Overflow("timedelta out of range".into()))
    );
}
