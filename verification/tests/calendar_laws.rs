use bsaver::bangla_date::{
    bangla_weekday, format_gregorian_date, format_gregorian_ymd, get_bangla_ordinal_suffix,
    get_bangla_weekday, BanglaDate,
};
use bsaver::calendar::{CivilDate, LocalDateTime, UtcDateTime};
use bsaver::config::{CalendarRegion, Config, FontSize};
use bsaver::bangla_date::to_bangla_digits;
use chrono::{Datelike, FixedOffset, TimeZone};

fn ymd(y: i32, m: u32, d: u32) -> CivilDate {
    CivilDate::from_ymd_opt(y, m, d).unwrap()
}

fn bd(y: i32, m: u32, d: u32) -> BanglaDate {
    BanglaDate::from_date_with_region(ymd(y, m, d), CalendarRegion::Bangladesh)
}

fn local(offset: i32, y: i32, mo: u32, d: u32, h: u32, mi: u32, s: u32) -> LocalDateTime {
    let tz = FixedOffset::east_opt(offset).unwrap();
    let dt = tz.with_ymd_and_hms(y, mo, d, h, mi, s).unwrap();
    LocalDateTime { timestamp: dt.timestamp(), offset_seconds: offset }
}

#[test]
fn civil_date_validity() {
    assert!(CivilDate::from_ymd_opt(2015, 3, 14).is_some());
    assert!(CivilDate::from_ymd_opt(2015, 0, 14).is_none());
    assert!(CivilDate::from_ymd_opt(2015, 2, 29).is_none());
    assert!(CivilDate::from_ymd_opt(2016, 2, 29).is_some());
    assert!(CivilDate::from_ymd_opt(1900, 2, 29).is_none());
    assert!(CivilDate::from_ymd_opt(2000, 2, 29).is_some());
    assert!(CivilDate::from_ymd_opt(-4, 2, 29).is_some());
    assert!(CivilDate::from_ymd_opt(2023, 4, 31).is_none());
    assert!(CivilDate::from_ymd_opt(400000, 1, 1).is_none());
    assert!(CivilDate::from_ymd_opt(-400000, 1, 1).is_none());
    assert!(ymd(2026, 1, 26).is_before(&ymd(2026, 4, 14)));
    assert!(!ymd(2026, 4, 14).is_before(&ymd(2026, 4, 14)));
}

#[test]
fn leap_years() {
    assert!(BanglaDate::is_leap_year(2024));
    assert!(!BanglaDate::is_leap_year(2025));
    assert!(!BanglaDate::is_leap_year(1900));
    assert!(BanglaDate::is_leap_year(2000));
    assert!(BanglaDate::is_leap_year(-4));
    assert!(!BanglaDate::is_leap_year(-1));
}

#[test]
fn month_lengths_follow_revised_calendar() {
    assert_eq!(
        BanglaDate::get_month_lengths(2025),
        [31, 31, 31, 31, 31, 30, 30, 30, 30, 30, 30, 30]
    );
    assert_eq!(
        BanglaDate::get_month_lengths(2024),
        [31, 31, 31, 31, 31, 30, 30, 30, 30, 30, 30, 31]
    );
    let total: u32 = BanglaDate::get_month_lengths(2025).iter().map(|&d| d as u32).sum();
    assert_eq!(total, 365);
    let total: u32 = BanglaDate::get_month_lengths(2024).iter().map(|&d| d as u32).sum();
    assert_eq!(total, 366);
}

#[test]
fn pohela_boishakh_starts_every_year() {
    for year in [1971, 2000, 2024, 2025, 2026, 2100] {
        let b = bd(year, 4, 14);
        assert_eq!((b.year, b.month, b.day), (year - 593, 0, 1));
        let i = BanglaDate::from_date_with_region(ymd(year, 4, 15), CalendarRegion::India);
        assert_eq!((i.year, i.month, i.day), (year - 593, 0, 1));
    }
}

#[test]
fn last_day_of_choitro_depends_on_leap_year() {
    // Choitro of 1430 falls in the leap year 2024: 31 days
    let b = bd(2024, 4, 13);
    assert_eq!((b.year, b.month, b.day), (1430, 11, 31));
    // Choitro of 1431 falls in 2025: 30 days
    let b = bd(2025, 4, 13);
    assert_eq!((b.year, b.month, b.day), (1431, 11, 30));
    // Choitro starts on 15 March in a common year, on 14 March in a leap year
    let b = bd(2025, 3, 15);
    assert_eq!((b.month, b.day), (11, 1));
    let b = bd(2025, 3, 14);
    assert_eq!((b.month, b.day), (10, 30));
    let b = bd(2024, 3, 14);
    assert_eq!((b.month, b.day), (11, 1));
}

#[test]
fn month_starts_in_bangladesh_calendar() {
    // The first day of each month in Bangla year 1432 (from 14 April 2025)
    let starts = [
        (2025, 4, 14),
        (2025, 5, 15),
        (2025, 6, 15),
        (2025, 7, 16),
        (2025, 8, 16),
        (2025, 9, 16),
        (2025, 10, 16),
        (2025, 11, 15),
        (2025, 12, 15),
        (2026, 1, 14),
        (2026, 2, 13),
        (2026, 3, 15),
    ];
    for (i, (y, m, d)) in starts.iter().enumerate() {
        let b = bd(*y, *m, *d);
        assert_eq!((b.year, b.month, b.day), (1432, i, 1), "start of month {}", i);
    }
}

#[test]
fn day_offsets_outside_the_year_give_first_day() {
    let b = BanglaDate::from_days_since_pohela(1432, 2025, -1);
    assert_eq!((b.year, b.month, b.day), (1432, 0, 1));
    let b = BanglaDate::from_days_since_pohela(1432, 2025, 365);
    assert_eq!((b.year, b.month, b.day), (1432, 0, 1));
    let b = BanglaDate::from_days_since_pohela(1432, 2025, 364);
    assert_eq!((b.year, b.month, b.day), (1432, 11, 30));
    let b = BanglaDate::from_days_since_pohela(1430, 2023, 365);
    assert_eq!((b.year, b.month, b.day), (1430, 11, 31));
    let b = BanglaDate::from_days_since_pohela(1430, 2023, 366);
    assert_eq!((b.year, b.month, b.day), (1430, 0, 1));
    let b = BanglaDate::from_days_since_pohela(1432, 2025, 287);
    assert_eq!((b.year, b.month, b.day), (1432, 9, 13));
}

#[test]
fn utc_and_local_agree_on_the_instant() {
    // 23:00 on 25 January 2026 in New York is 10:00 on 26 January in Dhaka
    let ny = local(-5 * 3600, 2026, 1, 25, 23, 0, 0);
    let from_local = BanglaDate::from_local_with_region(ny, CalendarRegion::Bangladesh);
    let from_utc = BanglaDate::from_utc_with_region(
        UtcDateTime { timestamp: ny.timestamp },
        CalendarRegion::Bangladesh,
    );
    assert_eq!(from_local, from_utc);
    assert_eq!((from_local.month, from_local.day), (9, 13));
    // 20:00 UTC on 25 January is already 26 January in Dhaka (GMT+6) but 26 January 01:30 in India
    let late = chrono::Utc.with_ymd_and_hms(2026, 1, 25, 18, 15, 0).unwrap();
    let b = BanglaDate::from_utc_with_region(UtcDateTime { timestamp: late.timestamp() }, CalendarRegion::Bangladesh);
    assert_eq!((b.month, b.day), (9, 13));
    let i = BanglaDate::from_utc_with_region(UtcDateTime { timestamp: late.timestamp() }, CalendarRegion::India);
    assert_eq!((i.month, i.day), (9, 11));
}

#[test]
fn month_and_season_names() {
    let names = [
        "বৈশাখ", "জ্যৈষ্ঠ", "আষাঢ়", "শ্রাবণ", "ভাদ্র", "আশ্বিন", "কার্তিক", "অগ্রহায়ণ", "পৌষ", "মাঘ", "ফাল্গুন",
        "চৈত্র",
    ];
    let seasons = ["গ্রীষ্মকাল", "বর্ষাকাল", "শরৎকাল", "হেমন্তকাল", "শীতকাল", "বসন্তকাল"];
    for month in 0..12 {
        let b = BanglaDate { year: 1432, month, day: 1 };
        assert_eq!(b.get_month_name(), names[month]);
        assert_eq!(b.get_season(), seasons[month / 2]);
    }
}

#[test]
fn ordinal_suffixes() {
    assert_eq!(get_bangla_ordinal_suffix(1), "লা");
    assert_eq!(get_bangla_ordinal_suffix(2), "রা");
    assert_eq!(get_bangla_ordinal_suffix(3), "রা");
    assert_eq!(get_bangla_ordinal_suffix(4), "ঠা");
    assert_eq!(get_bangla_ordinal_suffix(5), "ই");
    assert_eq!(get_bangla_ordinal_suffix(13), "ই");
    assert_eq!(get_bangla_ordinal_suffix(31), "ই");
}

#[test]
fn format_bangla_example() {
    let b = BanglaDate { year: 1432, month: 9, day: 13 };
    assert_eq!(b.format_bangla(true), "১৩ই মাঘ, ১৪৩২ বঙ্গাব্দ");
    assert_eq!(b.format_bangla(false), "13ই মাঘ, 1432 বঙ্গাব্দ");
    let b = BanglaDate { year: 1433, month: 0, day: 1 };
    assert_eq!(b.format_bangla(true), "১লা বৈশাখ, ১৪৩৩ বঙ্গাব্দ");
    let b = BanglaDate { year: -5, month: 11, day: 4 };
    assert_eq!(b.format_bangla(false), "4ঠা চৈত্র, -5 বঙ্গাব্দ");
}

#[test]
fn gregorian_date_text() {
    assert_eq!(format_gregorian_ymd(2026, 1, 26, false, false), "26 January 2026");
    assert_eq!(format_gregorian_ymd(2026, 1, 26, true, true), "২৬ জানুয়ারি ২০২৬ ঈসায়ী");
    assert_eq!(format_gregorian_ymd(2025, 12, 5, false, true), "৫ December ২০২৫");
    assert_eq!(format_gregorian_ymd(2025, 8, 15, true, false), "15 আগস্ট 2025 ঈসায়ী");
    // Local date-time: 00:30 on 26 January in Dhaka, still 25 January in UTC
    let dhaka = local(6 * 3600, 2026, 1, 26, 0, 30, 0);
    assert_eq!(format_gregorian_date(dhaka, false, false), "26 January 2026");
    let utc = LocalDateTime { timestamp: dhaka.timestamp, offset_seconds: 0 };
    assert_eq!(format_gregorian_date(utc, false, false), "25 January 2026");
}

#[test]
fn weekday_names() {
    assert_eq!(bangla_weekday(0), "রবিবার");
    assert_eq!(bangla_weekday(1), "সোমবার");
    assert_eq!(bangla_weekday(4), "বৃহস্পতিবার");
    assert_eq!(bangla_weekday(6), "শনিবার");
    // 26 January 2026 is a Monday
    assert_eq!(get_bangla_weekday(local(6 * 3600, 2026, 1, 26, 10, 0, 0)), "সোমবার");
    // 1 January 1970 was a Thursday
    assert_eq!(get_bangla_weekday(LocalDateTime { timestamp: 0, offset_seconds: 0 }), "বৃহস্পতিবার");
}

#[test]
fn bangla_digits_leave_other_characters() {
    assert_eq!(to_bangla_digits("abc 09-8 ১"), "abc ০৯-৮ ১");
    assert_eq!(to_bangla_digits(""), "");
    assert_eq!(to_bangla_digits(&to_bangla_digits("12:30")), to_bangla_digits("12:30"));
}

#[test]
fn config_enums() {
    assert_eq!(FontSize::Small.next(), FontSize::Regular);
    assert_eq!(FontSize::ExtraLarge.next(), FontSize::Small);
    assert_eq!(FontSize::Regular.next().next().next().next(), FontSize::Regular);
    assert_eq!(FontSize::ExtraLarge.display_name_en(), "Extra Large");
    assert_eq!(FontSize::default(), FontSize::Regular);
    assert_eq!(CalendarRegion::Bangladesh.toggle(), CalendarRegion::India);
    assert_eq!(CalendarRegion::India.toggle().toggle(), CalendarRegion::India);
    assert_eq!(CalendarRegion::Bangladesh.pohela_boishakh_day(), 14);
    assert_eq!(CalendarRegion::India.pohela_boishakh_day(), 15);
    assert_eq!(CalendarRegion::Bangladesh.timezone_offset_seconds(), 21600);
    assert_eq!(CalendarRegion::India.timezone_offset_seconds(), 19800);
    assert_eq!(CalendarRegion::India.display_name(), "India (15 Apr)");
    assert_eq!(CalendarRegion::default(), CalendarRegion::Bangladesh);
    let c = Config::default();
    assert!(c.show_seconds && c.use_12_hour && c.use_bangla_names && c.use_bangla_numerals);
    assert_eq!(c.calendar_region, CalendarRegion::Bangladesh);
    assert_eq!(c.font_size, FontSize::Regular);
    assert_eq!(c.text_color, [255, 255, 255]);
    assert_eq!(c.background_color, [0, 0, 0]);
}

fn civil(d: chrono::NaiveDate) -> CivilDate {
    ymd(d.year(), d.month(), d.day())
}

#[test]
fn days_advance_one_by_one_through_a_year() {
    for start_year in [2023, 2024, 2025] {
        let mut day = chrono::NaiveDate::from_ymd_opt(start_year, 4, 14).unwrap();
        let mut prev = bd(start_year, 4, 14);
        assert_eq!((prev.month, prev.day), (0, 1));
        let mut count = 1;
        loop {
            day = day.succ_opt().unwrap();
            let next = BanglaDate::from_date_with_region(civil(day), CalendarRegion::Bangladesh);
            if next.month == 0 && next.day == 1 {
                assert_eq!(next.year, prev.year + 1);
                break;
            }
            let lengths = BanglaDate::get_month_lengths(start_year + 1);
            if prev.day < lengths[prev.month] {
                assert_eq!((next.month, next.day), (prev.month, prev.day + 1));
            } else {
                assert_eq!((next.month, next.day), (prev.month + 1, 1));
            }
            prev = next;
            count += 1;
        }
        let leap = BanglaDate::is_leap_year(start_year + 1);
        assert_eq!(count, if leap { 366 } else { 365 });
    }
}

#[test]
fn india_runs_one_day_behind() {
    let mut day = chrono::NaiveDate::from_ymd_opt(2025, 1, 1).unwrap();
    for _ in 0..730 {
        let d = civil(day);
        let b = BanglaDate::from_date_with_region(d, CalendarRegion::Bangladesh);
        let i = BanglaDate::from_date_with_region(d, CalendarRegion::India);
        if !(day.month() == 4 && day.day() == 14) && b.day > 1 {
            assert_eq!((i.year, i.month, i.day), (b.year, b.month, b.day - 1), "on {}", day);
        }
        day = day.succ_opt().unwrap();
    }
}
