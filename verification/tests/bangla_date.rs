use bsaver::bangla_date::BanglaDate;
use bsaver::calendar::{CivilDate, UtcDateTime};
use bsaver::config::CalendarRegion;
use bsaver::bangla_date::to_bangla_digits;
use chrono::{DateTime, Datelike, FixedOffset, TimeZone, Utc};

/// Helper to create a timezone offset
fn tz(hours: i32, minutes: i32) -> FixedOffset {
    FixedOffset::east_opt(hours * 3600 + minutes * 60).unwrap()
}

fn tz_usa_est() -> FixedOffset {
    tz(-5, 0)
}
fn tz_usa_pst() -> FixedOffset {
    tz(-8, 0)
}
fn tz_uk() -> FixedOffset {
    tz(0, 0)
}
fn tz_india() -> FixedOffset {
    tz(5, 30)
}
fn tz_bangladesh() -> FixedOffset {
    tz(6, 0)
}
fn tz_china() -> FixedOffset {
    tz(8, 0)
}
fn tz_russia_msk() -> FixedOffset {
    tz(3, 0)
}
fn tz_canada_est() -> FixedOffset {
    tz(-5, 0)
}

fn utc(dt: DateTime<Utc>) -> UtcDateTime {
    UtcDateTime { timestamp: dt.timestamp() }
}

fn ymd(y: i32, m: u32, d: u32) -> CivilDate {
    CivilDate::from_ymd_opt(y, m, d).unwrap()
}

#[test]
fn test_pohela_boishakh_bangladesh() {
    // April 14, 2026 in Bangladesh = 1 Boishakh 1433
    let date = ymd(2026, 4, 14);
    let bangla = BanglaDate::from_date_with_region(date, CalendarRegion::Bangladesh);

    assert_eq!(bangla.year, 1433);
    assert_eq!(bangla.month, 0);
    assert_eq!(bangla.day, 1);
    assert_eq!(bangla.get_month_name(), "বৈশাখ");
}

#[test]
fn test_pohela_boishakh_india() {
    // April 15, 2026 in India = 1 Boishakh 1433
    let date = ymd(2026, 4, 15);
    let bangla = BanglaDate::from_date_with_region(date, CalendarRegion::India);

    assert_eq!(bangla.year, 1433);
    assert_eq!(bangla.month, 0);
    assert_eq!(bangla.day, 1);
    assert_eq!(bangla.get_month_name(), "বৈশাখ");
}

#[test]
fn test_digit_conversion() {
    assert_eq!(to_bangla_digits("2026"), "২০২৬");
    assert_eq!(to_bangla_digits("12:30:45"), "১২:৩০:৪৫");
}

/// January 26, 2026 at 8:00 AM in different timezones: what users in different
/// countries would see
#[test]
fn test_timezone_conversion_morning() {
    println!("\n========================================");
    println!("Bangla Date Display Test - Morning Time");
    println!("Local Time: 8:00 AM on January 26, 2026");
    println!("========================================\n");

    let test_cases = vec![
        ("Bangladesh (Dhaka)", tz_bangladesh(), "GMT+6"),
        ("India (Kolkata)", tz_india(), "GMT+5:30"),
        ("China (Beijing)", tz_china(), "GMT+8"),
        ("Russia (Moscow)", tz_russia_msk(), "GMT+3"),
        ("UK (London)", tz_uk(), "GMT+0"),
        ("USA (New York)", tz_usa_est(), "GMT-5"),
        ("USA (Los Angeles)", tz_usa_pst(), "GMT-8"),
        ("Canada (Toronto)", tz_canada_est(), "GMT-5"),
    ];

    for (country, local_tz, tz_name) in test_cases {
        let local_time = local_tz.with_ymd_and_hms(2026, 1, 26, 8, 0, 0).unwrap();
        let utc_time = local_time.with_timezone(&Utc);

        let bd_time = utc_time.with_timezone(&tz_bangladesh());
        let in_time = utc_time.with_timezone(&tz_india());

        let bd_bangla = BanglaDate::from_utc_with_region(utc(utc_time), CalendarRegion::Bangladesh);
        let in_bangla = BanglaDate::from_utc_with_region(utc(utc_time), CalendarRegion::India);

        println!("📍 {} ({})", country, tz_name);
        println!("   Local: {} 8:00 AM", local_time.format("%Y-%m-%d"));
        println!("   UTC:   {}", utc_time.format("%Y-%m-%d %H:%M"));
        println!("   → Bangladesh Time: {}", bd_time.format("%Y-%m-%d %H:%M"));
        println!("   → India Time:      {}", in_time.format("%Y-%m-%d %H:%M"));
        println!(
            "   📅 Bangladesh Calendar: {} {} {}",
            bd_bangla.day,
            bd_bangla.get_month_name(),
            bd_bangla.year
        );
        println!(
            "   📅 India Calendar:      {} {} {}",
            in_bangla.day,
            in_bangla.get_month_name(),
            in_bangla.year
        );
        println!();
    }
}

/// Edge case: late night in New York is already the next day in Bangladesh
#[test]
fn test_date_boundary_crossing() {
    println!("\n========================================");
    println!("Date Boundary Test - Late Night in BD");
    println!("========================================\n");

    // 11:00 PM on Jan 25, 2026 in New York is 10:00 AM on Jan 26, 2026 in Bangladesh
    let ny_time = tz_usa_est().with_ymd_and_hms(2026, 1, 25, 23, 0, 0).unwrap();
    let utc_time = ny_time.with_timezone(&Utc);
    let bd_time = utc_time.with_timezone(&tz_bangladesh());

    let bd_bangla = BanglaDate::from_utc_with_region(utc(utc_time), CalendarRegion::Bangladesh);

    println!("🗽 New York: {} (Jan 25, 11:00 PM)", ny_time.format("%Y-%m-%d %H:%M"));
    println!("🌍 UTC:      {}", utc_time.format("%Y-%m-%d %H:%M"));
    println!("🇧🇩 Bangladesh: {} (Next day!)", bd_time.format("%Y-%m-%d %H:%M"));
    println!(
        "📅 Bangla Date: {}ই {} {}",
        bd_bangla.day,
        bd_bangla.get_month_name(),
        bd_bangla.year
    );

    // Magh starts Jan 14, so Jan 26 = day 13
    assert_eq!(bd_time.day(), 26);
    assert_eq!(bd_bangla.day, 13);
}

/// January 26, 2026 = 13 Magh for the Bangladesh calendar
#[test]
fn test_january_26_2026_bangladesh() {
    let date = ymd(2026, 1, 26);
    let bangla = BanglaDate::from_date_with_region(date, CalendarRegion::Bangladesh);

    assert_eq!(bangla.day, 13);
    assert_eq!(bangla.month, 9);
    assert_eq!(bangla.get_month_name(), "মাঘ");
    assert_eq!(bangla.year, 1432);

    println!(
        "✓ January 26, 2026 (Bangladesh) = {}ই {} {} বঙ্গাব্দ",
        bangla.day,
        bangla.get_month_name(),
        bangla.year
    );
}

/// January 26, 2026 = 12 Magh for the India calendar (Pohela Boishakh on April 15)
#[test]
fn test_january_26_2026_india() {
    let date = ymd(2026, 1, 26);
    let bangla = BanglaDate::from_date_with_region(date, CalendarRegion::India);

    assert_eq!(bangla.day, 12);
    assert_eq!(bangla.month, 9);
    assert_eq!(bangla.get_month_name(), "মাঘ");
    assert_eq!(bangla.year, 1432);

    println!(
        "✓ January 26, 2026 (India) = {}ই {} {} বঙ্গাব্দ",
        bangla.day,
        bangla.get_month_name(),
        bangla.year
    );
}

/// All regions at UTC midnight, using the Bangladesh calendar
#[test]
fn test_world_clock_utc_midnight() {
    println!("\n========================================");
    println!("World Clock - UTC Midnight Jan 26, 2026");
    println!("========================================\n");

    let utc_midnight = Utc.with_ymd_and_hms(2026, 1, 26, 0, 0, 0).unwrap();

    let regions = vec![
        ("Bangladesh (Dhaka)", tz_bangladesh(), CalendarRegion::Bangladesh),
        ("India (Kolkata)", tz_india(), CalendarRegion::Bangladesh),
        ("China (Beijing)", tz_china(), CalendarRegion::Bangladesh),
        ("Russia (Moscow)", tz_russia_msk(), CalendarRegion::Bangladesh),
        ("UK (London)", tz_uk(), CalendarRegion::Bangladesh),
        ("USA (New York)", tz_usa_est(), CalendarRegion::Bangladesh),
        ("Canada (Toronto)", tz_canada_est(), CalendarRegion::Bangladesh),
    ];

    println!("UTC Time: {}", utc_midnight.format("%Y-%m-%d %H:%M:%S"));
    println!("All showing BANGLADESH calendar (Pohela Boishakh = Apr 14)\n");

    for (country, local_tz, calendar) in regions {
        let local_time = utc_midnight.with_timezone(&local_tz);
        let bangla = BanglaDate::from_utc_with_region(utc(utc_midnight), calendar);

        println!("📍 {}", country);
        println!("   Local Time: {}", local_time.format("%Y-%m-%d %H:%M"));
        println!("   System Date: {}", local_time.format("%B %d, %Y"));
        println!(
            "   📅 Bangla: {}ই {}, {} বঙ্গাব্দ",
            bangla.day,
            bangla.get_month_name(),
            bangla.year
        );
        println!();
    }
}
