use bsaver::bangla_date::{
    format_gregorian_date, get_bangla_weekday, region_date_supported, BanglaDate,
};
use bsaver::calendar::{
    CivilDate, LocalDateTime, UtcDateTime, MAX_TIMESTAMP_SECONDS, MIN_TIMESTAMP_SECONDS,
};
use bsaver::config::CalendarRegion;
use chrono::{Datelike, NaiveDate, Timelike};

/// Day number of a date: 1 for 1 January of year 1.
fn day_number(y: i64, m: i64, d: i64) -> i64 {
    let x = y - 1;
    let before_year = 365 * x + x.div_euclid(4) - x.div_euclid(100) + x.div_euclid(400);
    let leap = (y.rem_euclid(4) == 0 && y.rem_euclid(100) != 0) || y.rem_euclid(400) == 0;
    let lengths = [31, if leap { 29 } else { 28 }, 31, 30, 31, 30, 31, 31, 30, 31, 30, 31];
    let before_month: i64 = lengths[..(m - 1) as usize].iter().sum();
    before_year + before_month + d
}

fn civil(y: i32, m: u32, d: u32) -> CivilDate {
    CivilDate::from_ymd_opt(y, m, d).unwrap()
}

fn next(date: CivilDate) -> CivilDate {
    let n = NaiveDate::from_ymd_opt(date.year, date.month, date.day).unwrap().succ_opt().unwrap();
    civil(n.year(), n.month(), n.day())
}

#[test]
fn day_number_of_known_dates() {
    assert_eq!(day_number(1, 1, 1), 1);
    assert_eq!(day_number(1970, 1, 1), 719163);
    assert_eq!(day_number(2000, 3, 1) - day_number(2000, 2, 28), 2);
    assert_eq!(day_number(1900, 3, 1) - day_number(1900, 2, 28), 1);
    assert_eq!(day_number(2026, 1, 26) - day_number(2025, 4, 14), 287);
}

#[test]
fn chrono_day_differences_are_day_number_differences() {
    let mut dates = Vec::new();
    for y in (-262143..=262142).step_by(9973).chain([-262143, -1, 0, 1, 1600, 1900, 2000, 2024, 262142]) {
        for (m, d) in [(1, 1), (2, 28), (3, 1), (4, 14), (4, 15), (12, 31)] {
            dates.push((y, m, d));
        }
    }
    for &(y1, m1, d1) in &dates {
        for &(y2, m2, d2) in dates.iter().step_by(7) {
            let a = NaiveDate::from_ymd_opt(y1, m1, d1).unwrap();
            let b = NaiveDate::from_ymd_opt(y2, m2, d2).unwrap();
            let expected = day_number(y1 as i64, m1 as i64, d1 as i64) - day_number(y2 as i64, m2 as i64, d2 as i64);
            assert_eq!((a - b).num_days(), expected, "{:?} - {:?}", (y1, m1, d1), (y2, m2, d2));
        }
    }
}

#[test]
fn chrono_local_fields_follow_the_day_split() {
    let offsets = [0, 19800, 21600, -18000, 86399, -86399];
    let mut timestamps = vec![
        0i64, -1, 86399, 86400, -86400, 1769420000, 8_000_000_000_000, -8_000_000_000_000,
        MIN_TIMESTAMP_SECONDS, MAX_TIMESTAMP_SECONDS,
    ];
    let mut t = -8_000_000_000_000i64;
    while t < 8_000_000_000_000 {
        timestamps.push(t);
        t += 987_654_321_987;
    }
    for &ts in &timestamps {
        for &off in &offsets {
            let tz = chrono::FixedOffset::east_opt(off).unwrap();
            let dt = chrono::DateTime::from_timestamp(ts, 0).unwrap().with_timezone(&tz);
            let local = ts + off as i64;
            let days = local.div_euclid(86400);
            let secs = local.rem_euclid(86400);
            assert_eq!(day_number(dt.year() as i64, dt.month() as i64, dt.day() as i64), days + 719163);
            assert_eq!(dt.hour() as i64, secs / 3600);
            assert_eq!(dt.minute() as i64, secs % 3600 / 60);
            assert_eq!(dt.second() as i64, secs % 60);
            assert_eq!(dt.weekday().num_days_from_sunday() as i64, (days + 4).rem_euclid(7));
            assert!((-262144..=262143).contains(&dt.year()));
        }
    }
}

#[test]
fn local_fields_reach_the_library() {
    // 2026-01-26 09:30:15 at GMT+6 is a Monday
    let ts = 1769398215;
    let now = LocalDateTime { timestamp: ts, offset_seconds: 21600 };
    assert_eq!(get_bangla_weekday(now), "সোমবার");
    assert_eq!(format_gregorian_date(now, false, false), "26 January 2026");
    // One second before midnight UTC on 1969-12-31, seen in UTC
    let eve = LocalDateTime { timestamp: -1, offset_seconds: 0 };
    assert_eq!(format_gregorian_date(eve, false, false), "31 December 1969");
    assert_eq!(get_bangla_weekday(eve), "বুধবার");
    let b = BanglaDate::from_utc_with_region(UtcDateTime { timestamp: ts }, CalendarRegion::Bangladesh);
    assert_eq!((b.year, b.month, b.day), (1432, 9, 13));
}

#[test]
fn consecutive_gregorian_days_are_consecutive_bangla_days() {
    for region in [CalendarRegion::Bangladesh, CalendarRegion::India] {
        let mut d = civil(2022, 1, 1);
        while d != civil(2029, 1, 1) {
            let e = next(d);
            let b = BanglaDate::from_date_with_region(d, region);
            let n = BanglaDate::from_date_with_region(e, region);
            let len = BanglaDate::get_month_lengths(b.year + 594)[b.month];
            let expected = if b.day < len {
                (b.year, b.month, b.day + 1)
            } else if b.month < 11 {
                (b.year, b.month + 1, 1)
            } else {
                (b.year + 1, 0, 1)
            };
            assert_eq!((n.year, n.month, n.day), expected, "{:?} in {:?}", d, region);
            d = e;
        }
    }
}

#[test]
fn india_runs_one_day_behind_bangladesh() {
    let mut d = civil(2023, 12, 25);
    while d != civil(2025, 5, 1) {
        let e = next(d);
        let india = BanglaDate::from_date_with_region(e, CalendarRegion::India);
        let bangladesh = BanglaDate::from_date_with_region(d, CalendarRegion::Bangladesh);
        assert_eq!(india, bangladesh, "{:?}", d);
        d = e;
    }
}

#[test]
fn last_day_of_choitro_then_pohela_boishakh() {
    // 2024 is a leap year, so Choitro 1430 has 31 days
    let b = BanglaDate::from_date_with_region(civil(2024, 4, 13), CalendarRegion::Bangladesh);
    assert_eq!((b.year, b.month, b.day), (1430, 11, 31));
    let b = BanglaDate::from_date_with_region(civil(2024, 4, 14), CalendarRegion::Bangladesh);
    assert_eq!((b.year, b.month, b.day), (1431, 0, 1));
    let b = BanglaDate::from_date_with_region(civil(2025, 4, 13), CalendarRegion::Bangladesh);
    assert_eq!((b.year, b.month, b.day), (1431, 11, 30));
}

#[test]
fn timestamp_range_is_chronos() {
    assert!(chrono::DateTime::from_timestamp(MIN_TIMESTAMP_SECONDS, 0).is_some());
    assert!(chrono::DateTime::from_timestamp(MIN_TIMESTAMP_SECONDS - 1, 0).is_none());
    assert!(chrono::DateTime::from_timestamp(MAX_TIMESTAMP_SECONDS, 0).is_some());
    assert!(chrono::DateTime::from_timestamp(MAX_TIMESTAMP_SECONDS + 1, 0).is_none());
    assert_eq!(day_number(-262143, 1, 1), (MIN_TIMESTAMP_SECONDS / 86400) + 719163);
}

#[test]
fn dates_at_the_ends_of_the_range() {
    // The last second, six hours ahead, is already in the year after chrono's last one
    let last = LocalDateTime { timestamp: MAX_TIMESTAMP_SECONDS, offset_seconds: 21600 };
    assert_eq!(format_gregorian_date(last, false, false), "1 January 262143");
    assert!(!region_date_supported(MAX_TIMESTAMP_SECONDS, CalendarRegion::Bangladesh));
    assert!(!region_date_supported(MAX_TIMESTAMP_SECONDS, CalendarRegion::India));
    // The first second, an hour behind, is the day before chrono's first date
    let first = LocalDateTime { timestamp: MIN_TIMESTAMP_SECONDS, offset_seconds: -3600 };
    assert_eq!(format_gregorian_date(first, false, false), "31 December -262144");
    // Before Pohela Boishakh of chrono's first year the Bangla year began before it
    assert!(!region_date_supported(MIN_TIMESTAMP_SECONDS, CalendarRegion::Bangladesh));
    let may = MIN_TIMESTAMP_SECONDS + 150 * 86400;
    assert!(region_date_supported(may, CalendarRegion::Bangladesh));
    let b = BanglaDate::from_utc_with_region(UtcDateTime { timestamp: may }, CalendarRegion::Bangladesh);
    assert_eq!(b.year, -262143 - 593);
    // Instants far beyond 8e12 seconds work as well
    let late = 8_200_000_000_000;
    assert!(region_date_supported(late, CalendarRegion::India));
    let b = BanglaDate::from_utc_with_region(UtcDateTime { timestamp: late }, CalendarRegion::India);
    let dt = chrono::DateTime::from_timestamp(late, 0).unwrap();
    assert!(b.year == dt.year() - 593 || b.year == dt.year() - 594);
    assert_eq!(get_bangla_weekday(LocalDateTime { timestamp: late, offset_seconds: 0 }).is_empty(), false);
}
