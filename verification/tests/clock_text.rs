use bsaver::bangla_date::BanglaDate;
use bsaver::calendar::LocalDateTime;
use bsaver::clock::{
    combined_date_string_at, day_string_at, get_combined_date_string, get_day_string,
    get_season_string, get_time_period_index, get_time_period_string, get_time_string,
    season_string_at, time_period_string_at, time_string_at,
};
use bsaver::config::{CalendarRegion, Config};
use chrono::{FixedOffset, TimeZone};

fn config() -> Config {
    Config::default()
}

fn local(offset: i32, y: i32, mo: u32, d: u32, h: u32, mi: u32, s: u32) -> LocalDateTime {
    let tz = FixedOffset::east_opt(offset).unwrap();
    let dt = tz.with_ymd_and_hms(y, mo, d, h, mi, s).unwrap();
    LocalDateTime { timestamp: dt.timestamp(), offset_seconds: offset }
}

#[test]
fn time_periods_by_hour() {
    let expected = [5, 5, 5, 5, 0, 0, 1, 1, 1, 1, 1, 1, 2, 2, 2, 3, 3, 3, 4, 4, 5, 5, 5, 5];
    for hour in 0..24u32 {
        assert_eq!(get_time_period_index(hour), expected[hour as usize], "hour {}", hour);
    }
    assert_eq!(get_time_period_index(99), 5);
    let mut c = config();
    assert_eq!(time_period_string_at(&c, 5), "ভোর");
    assert_eq!(time_period_string_at(&c, 13), "দুপুর");
    assert_eq!(time_period_string_at(&c, 19), "সন্ধ্যা");
    c.use_bangla_names = false;
    assert_eq!(time_period_string_at(&c, 8), "Morning");
    assert_eq!(time_period_string_at(&c, 16), "Afternoon");
    assert_eq!(time_period_string_at(&c, 23), "Night");
}

#[test]
fn twelve_and_twenty_four_hour_clock() {
    let mut c = config();
    c.use_bangla_numerals = false;
    assert_eq!(time_string_at(&c, 0, 5, 9), "12:05:09");
    assert_eq!(time_string_at(&c, 12, 30, 45), "12:30:45");
    assert_eq!(time_string_at(&c, 13, 0, 0), "01:00:00");
    assert_eq!(time_string_at(&c, 23, 59, 59), "11:59:59");
    c.use_12_hour = false;
    assert_eq!(time_string_at(&c, 0, 5, 9), "00:05:09");
    assert_eq!(time_string_at(&c, 23, 59, 59), "23:59:59");
    c.show_seconds = false;
    assert_eq!(time_string_at(&c, 7, 3, 59), "07:03");
    c.use_bangla_numerals = true;
    assert_eq!(time_string_at(&c, 12, 30, 45), "১২:৩০");
    c.show_seconds = true;
    assert_eq!(time_string_at(&c, 12, 30, 45), "১২:৩০:৪৫");
}

#[test]
fn clock_strings_read_the_local_time() {
    let now = local(6 * 3600, 2026, 1, 26, 14, 7, 3);
    let mut c = config();
    assert_eq!(get_time_string(&c, &now), "০২:০৭:০৩");
    assert_eq!(get_time_period_string(&c, &now), "দুপুর");
    c.use_bangla_numerals = false;
    c.use_12_hour = false;
    assert_eq!(get_time_string(&c, &now), "14:07:03");
    // The same instant seen from UTC is 08:07
    let utc = LocalDateTime { timestamp: now.timestamp, offset_seconds: 0 };
    assert_eq!(get_time_string(&c, &utc), "08:07:03");
}

#[test]
fn season_and_day_lines() {
    let magh = BanglaDate { year: 1432, month: 9, day: 13 };
    let mut c = config();
    assert_eq!(season_string_at(&c, &magh), "শীতকাল");
    assert_eq!(day_string_at(&c, 1, &magh), "সোমবার, শীতকাল");
    c.show_season = false;
    assert_eq!(day_string_at(&c, 1, &magh), "সোমবার");
    c.use_bangla_names = false;
    assert_eq!(day_string_at(&c, 0, &magh), "Sunday");
    c.show_season = true;
    assert_eq!(day_string_at(&c, 6, &magh), "Saturday, Winter");
    let kartik = BanglaDate { year: 1432, month: 7, day: 1 };
    assert_eq!(season_string_at(&c, &kartik), "Late Autumn");

    // 26 January 2026, 10:00 in Dhaka: Monday, 13 Magh (winter)
    let now = local(6 * 3600, 2026, 1, 26, 10, 0, 0);
    let c = config();
    assert_eq!(get_day_string(&c, &now), "সোমবার, শীতকাল");
    assert_eq!(get_season_string(&c, &now), "শীতকাল");
}

#[test]
fn combined_date_line() {
    let magh = BanglaDate { year: 1432, month: 9, day: 13 };
    let mut c = config();
    let english = String::from("২৬ জানুয়ারি ২০২৬ ঈসায়ী");
    assert_eq!(
        combined_date_string_at(&c, english.clone(), &magh),
        "২৬ জানুয়ারি ২০২৬ ঈসায়ী  |  ১৩ই মাঘ, ১৪৩২ বঙ্গাব্দ"
    );
    c.show_english_date = false;
    assert_eq!(combined_date_string_at(&c, english.clone(), &magh), "১৩ই মাঘ, ১৪৩২ বঙ্গাব্দ");
    c.show_bangla_date = false;
    assert_eq!(combined_date_string_at(&c, english.clone(), &magh), "");
    c.show_english_date = true;
    assert_eq!(combined_date_string_at(&c, english.clone(), &magh), english);

    let now = local(6 * 3600, 2026, 1, 26, 10, 0, 0);
    let c = config();
    assert_eq!(
        get_combined_date_string(&c, &now),
        "২৬ জানুয়ারি ২০২৬ ঈসায়ী  |  ১৩ই মাঘ, ১৪৩২ বঙ্গাব্দ"
    );
    let mut india = config();
    india.calendar_region = CalendarRegion::India;
    india.use_bangla_names = false;
    india.use_bangla_numerals = false;
    assert_eq!(get_combined_date_string(&india, &now), "26 January 2026  |  12ই মাঘ, 1432 বঙ্গাব্দ");
}
