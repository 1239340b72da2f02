//! Bangla calendar conversion and formatting
//!
//! Implements conversion from Gregorian to Bangla calendar dates,
//! including seasons, months, and proper formatting.
//!
//! The Bangla date is calculated in the timezone of the calendar region:
//! - Bangladesh calendar uses GMT+6 (Bangladesh Standard Time)
//! - India calendar uses GMT+5:30 (Indian Standard Time)
use crate::calendar::{
    calendar_date, chrono_day_difference, day_number, days_in_month_spec, is_leap_year_spec,
    lemma_april_a_year_later,
    lemma_day_number_next, lemma_day_number_order, local_civil_time, local_fields, next_ymd,
    valid_ymd, ymd_before, CivilDate, LocalDateTime, UtcDateTime, CHRONO_MAX_YEAR,
    CHRONO_MIN_YEAR, MAX_TIMESTAMP_SECONDS, MIN_TIMESTAMP_SECONDS,
};
use crate::config::{pohela_day_of, region_offset_of, CalendarRegion};
use crate::text::{number_text, numerals, signed_decimal};
pub use crate::text::to_bangla_digits;
use vstd::prelude::*;

verus! {

/// Represents a Bangla calendar date
#[derive(Debug, Clone, Copy, PartialEq, Eq, Structural)]
pub struct BanglaDate {
    pub year: i32,
    /// 0-11 index (0 = Boishakh)
    pub month: usize,
    /// 1-based day of the month
    pub day: u8,
}

/// Bangla month names (0 = Boishakh, 11 = Choitro).
pub open spec fn bangla_month_name(month: int) -> Seq<char> {
    if month == 0 {
        "বৈশাখ"@
    } else if month == 1 {
        "জ্যৈষ্ঠ"@
    } else if month == 2 {
        "আষাঢ়"@
    } else if month == 3 {
        "শ্রাবণ"@
    } else if month == 4 {
        "ভাদ্র"@
    } else if month == 5 {
        "আশ্বিন"@
    } else if month == 6 {
        "কার্তিক"@
    } else if month == 7 {
        "অগ্রহায়ণ"@
    } else if month == 8 {
        "পৌষ"@
    } else if month == 9 {
        "মাঘ"@
    } else if month == 10 {
        "ফাল্গুন"@
    } else {
        "চৈত্র"@
    }
}

/// Bangla season names: each season spans two consecutive months, starting with
/// summer (Boishakh, Jyoishtho).
pub open spec fn bangla_season_name(season: int) -> Seq<char> {
    if season == 0 {
        "গ্রীষ্মকাল"@
    } else if season == 1 {
        "বর্ষাকাল"@
    } else if season == 2 {
        "শরৎকাল"@
    } else if season == 3 {
        "হেমন্তকাল"@
    } else if season == 4 {
        "শীতকাল"@
    } else {
        "বসন্তকাল"@
    }
}

/// Bangla ordinal suffix of a day of the month: ১লা, ২রা, ৩রা, ৪ঠা, then ই.
pub open spec fn ordinal_suffix(day: int) -> Seq<char> {
    if day == 1 {
        "লা"@
    } else if day == 2 || day == 3 {
        "রা"@
    } else if day == 4 {
        "ঠা"@
    } else {
        "ই"@
    }
}

/// Length of Bangla month `month` (0-11) in the Bangla year whose Choitro falls in
/// Gregorian year `gregorian_year` (revised Bangladesh calendar 2019): the first five months
/// have 31 days, the last seven 30, and Choitro has 31 in a Gregorian leap year.
pub open spec fn bangla_month_len(gregorian_year: int, month: int) -> int {
    if month < 5 {
        31
    } else if month == 11 && is_leap_year_spec(gregorian_year) {
        31
    } else {
        30
    }
}

/// Number of days of the Bangla year before month `month` starts.
pub open spec fn days_before_month(gregorian_year: int, month: int) -> int
    decreases month,
{
    if month <= 0 {
        0
    } else {
        days_before_month(gregorian_year, month - 1) + bangla_month_len(gregorian_year, month - 1)
    }
}

/// `date` lies `day_offset` days after the start of Bangla year `bangla_year`, whose months
/// have the lengths for Gregorian year `gregorian_year`. An offset outside the year
/// (negative, or past its last day) gives the first day of the year.
pub open spec fn placed_at(date: BanglaDate, bangla_year: int, gregorian_year: int, day_offset: int) -> bool {
    &&& date.year == bangla_year
    &&& if 0 <= day_offset < days_before_month(gregorian_year, 12) {
        &&& date.month < 12
        &&& days_before_month(gregorian_year, date.month as int) <= day_offset
        &&& day_offset < days_before_month(gregorian_year, date.month as int + 1)
        &&& date.day == day_offset - days_before_month(gregorian_year, date.month as int) + 1
    } else {
        date.month == 0 && date.day == 1
    }
}

/// Where the Gregorian date `year`-`month`-`day` lies in the Bangla calendar of `region`:
/// (Bangla year, Gregorian year whose leap day decides Choitro's length, days since the most
/// recent Pohela Boishakh). The Bangla year starts on Pohela Boishakh (April 14 or 15);
/// before it the Bangla year is the Gregorian year minus 594, from it on minus 593.
pub open spec fn region_placement(year: int, month: int, day: int, region: CalendarRegion) -> (int, int, int) {
    let pday = pohela_day_of(region) as int;
    let before = month < 4 || (month == 4 && day < pday);
    let ref_year = if before { year - 1 } else { year };
    let bangla_year = if before { year - 594 } else { year - 593 };
    (bangla_year, ref_year + 1, day_number(year, month, day) - day_number(ref_year, 4, pday))
}

/// `date` is the Bangla date of the Gregorian date `year`-`month`-`day` in `region`.
pub open spec fn bangla_date_of(year: int, month: int, day: int, region: CalendarRegion, date: BanglaDate) -> bool {
    let p = region_placement(year, month, day, region);
    placed_at(date, p.0, p.1, p.2)
}

/// The Bangla date of the instant `timestamp`, seen in the standard time of `region`.
pub open spec fn bangla_date_at(timestamp: int, region: CalendarRegion, date: BanglaDate) -> bool {
    let f = local_fields(timestamp, region_offset_of(region) as int);
    bangla_date_of(f.0, f.1, f.2, region, date)
}

/// Lemma: the days before a month add up the month lengths, in closed form.
pub proof fn lemma_days_before_month(gregorian_year: int, month: int)
    requires
        0 <= month <= 12,
    ensures
        days_before_month(gregorian_year, month) == if month <= 5 {
            31 * month
        } else if month <= 11 {
            155 + 30 * (month - 5)
        } else if is_leap_year_spec(gregorian_year) {
            366
        } else {
            365
        },
    decreases month,
{
    if month > 0 {
        lemma_days_before_month(gregorian_year, month - 1);
    }
}

/// A Bangla year has 365 days, 366 when its Choitro falls in a Gregorian leap year.
pub proof fn lemma_bangla_year_length(gregorian_year: int)
    ensures
        days_before_month(gregorian_year, 12) == if is_leap_year_spec(gregorian_year) {
            366int
        } else {
            365int
        },
{
    lemma_days_before_month(gregorian_year, 12);
}

/// Days move forward one at a time through the Bangla year: the day after a day of the year
/// is the next day of the same month, or the first day of the next month when the month has
/// ended.
pub proof fn lemma_next_day(
    bangla_year: int,
    gregorian_year: int,
    day_offset: int,
    today: BanglaDate,
    tomorrow: BanglaDate,
)
    requires
        0 <= day_offset,
        day_offset + 1 < days_before_month(gregorian_year, 12),
        placed_at(today, bangla_year, gregorian_year, day_offset),
        placed_at(tomorrow, bangla_year, gregorian_year, day_offset + 1),
    ensures
        (today.day as int) < bangla_month_len(gregorian_year, today.month as int) ==> (
        tomorrow.month == today.month && tomorrow.day == today.day + 1),
        (today.day as int) == bangla_month_len(gregorian_year, today.month as int) ==> (
        tomorrow.month == today.month + 1 && tomorrow.day == 1),
{
    lemma_days_before_month(gregorian_year, today.month as int);
    lemma_days_before_month(gregorian_year, today.month as int + 1);
    lemma_days_before_month(gregorian_year, tomorrow.month as int);
    lemma_days_before_month(gregorian_year, tomorrow.month as int + 1);
    lemma_days_before_month(gregorian_year, 12);
}

proof fn lemma_divisible_by_magnitude(y: int, d: int)
    requires
        d > 0,
    ensures
        (y % d == 0) == ((if y < 0 { -y } else { y }) % d == 0),
{
    if y < 0 {
        vstd::arithmetic::div_mod::lemma_fundamental_div_mod(y, d);
        vstd::arithmetic::div_mod::lemma_fundamental_div_mod(-y, d);
        if y % d == 0 {
            vstd::arithmetic::div_mod::lemma_mod_multiples_vanish(-(y / d), 0, d);
            assert(d * (-(y / d)) + 0 == -y) by (nonlinear_arith)
                requires
                    y % d == 0,
                    d > 0,
                    y == d * (y / d) + y % d,
            ;
        }
        if (-y) % d == 0 {
            vstd::arithmetic::div_mod::lemma_mod_multiples_vanish(-((-y) / d), 0, d);
            assert(d * (-((-y) / d)) + 0 == y) by (nonlinear_arith)
                requires
                    (-y) % d == 0,
                    d > 0,
                    -y == d * ((-y) / d) + (-y) % d,
            ;
        }
    }
}

/// A day offset places at most one Bangla date: the placement determines the date.
pub proof fn lemma_placement_unique(
    bangla_year: int,
    gregorian_year: int,
    day_offset: int,
    a: BanglaDate,
    b: BanglaDate,
)
    requires
        placed_at(a, bangla_year, gregorian_year, day_offset),
        placed_at(b, bangla_year, gregorian_year, day_offset),
    ensures
        a == b,
{
    if 0 <= day_offset < days_before_month(gregorian_year, 12) {
        if a.month < b.month {
            lemma_days_before_monotone(gregorian_year, a.month as int + 1, b.month as int);
        } else if b.month < a.month {
            lemma_days_before_monotone(gregorian_year, b.month as int + 1, a.month as int);
        }
    }
}

proof fn lemma_days_before_monotone(gregorian_year: int, i: int, j: int)
    requires
        0 <= i <= j <= 12,
    ensures
        days_before_month(gregorian_year, i) <= days_before_month(gregorian_year, j),
    decreases j - i,
{
    if i < j {
        lemma_days_before_monotone(gregorian_year, i, j - 1);
    }
}

/// An instant has at most one Bangla date in a region.
pub proof fn lemma_bangla_date_unique(timestamp: int, region: CalendarRegion, a: BanglaDate, b: BanglaDate)
    requires
        bangla_date_at(timestamp, region, a),
        bangla_date_at(timestamp, region, b),
    ensures
        a == b,
{
    let f = local_fields(timestamp, region_offset_of(region) as int);
    let p = region_placement(f.0, f.1, f.2, region);
    lemma_placement_unique(p.0, p.1, p.2, a, b);
}

/// Every calendar date lies in the Bangla year its placement names: on or after that year's
/// Pohela Boishakh and before the next one, so its day offset is a day of that year.
pub proof fn lemma_placement_in_year(year: int, month: int, day: int, region: CalendarRegion)
    requires
        calendar_date(year, month, day),
    ensures
        ({
            let p = region_placement(year, month, day, region);
            let pday = pohela_day_of(region) as int;
            &&& p.0 == p.1 - 594
            &&& day_number(p.1 - 1, 4, pday) <= day_number(year, month, day) < day_number(p.1, 4, pday)
            &&& p.2 == day_number(year, month, day) - day_number(p.1 - 1, 4, pday)
            &&& 0 <= p.2 < days_before_month(p.1, 12)
        }),
{
    let pday = pohela_day_of(region) as int;
    let p = region_placement(year, month, day, region);
    lemma_day_number_order((year, month, day), (p.1 - 1, 4, pday));
    lemma_day_number_order((year, month, day), (p.1, 4, pday));
    lemma_april_a_year_later(p.1 - 1, pday);
    lemma_bangla_year_length(p.1);
}

/// The Bangla year of a date is fixed by the Pohela Boishakh days around it: a date on or
/// after Pohela Boishakh of Gregorian year `r` and before the next one belongs to the Bangla
/// year that starts in `r`.
proof fn lemma_placement_ref(year: int, month: int, day: int, region: CalendarRegion, r: int)
    requires
        calendar_date(year, month, day),
        day_number(r, 4, pohela_day_of(region) as int) <= day_number(year, month, day),
        day_number(year, month, day) < day_number(r + 1, 4, pohela_day_of(region) as int),
    ensures
        region_placement(year, month, day, region).1 == r + 1,
{
    let pday = pohela_day_of(region) as int;
    let q = region_placement(year, month, day, region);
    lemma_placement_in_year(year, month, day, region);
    if r + 1 < q.1 {
        lemma_day_number_order((r + 1, 4, pday), (q.1 - 1, 4, pday));
    } else if q.1 < r + 1 {
        lemma_day_number_order((q.1, 4, pday), (r, 4, pday));
    }
}

/// Consecutive Gregorian days are consecutive Bangla days: the Bangla date of the day after
/// a date is the next day of the same Bangla month, or the first day of the next month when
/// the month has ended, or Pohela Boishakh of the next Bangla year after the last day of
/// Choitro.
pub proof fn lemma_next_gregorian_day(date: CivilDate, region: CalendarRegion, today: BanglaDate, tomorrow: BanglaDate)
    requires
        calendar_date(date.year as int, date.month as int, date.day as int),
        bangla_date_of(date.year as int, date.month as int, date.day as int, region, today),
        ({
            let n = next_ymd(date.year as int, date.month as int, date.day as int);
            bangla_date_of(n.0, n.1, n.2, region, tomorrow)
        }),
    ensures
        (tomorrow.year as int, tomorrow.month as int, tomorrow.day as int) == if (today.day as int)
            < bangla_month_len(today.year + 594, today.month as int) {
            (today.year as int, today.month as int, today.day + 1)
        } else if today.month < 11 {
            (today.year as int, today.month + 1, 1int)
        } else {
            (today.year + 1, 0int, 1int)
        },
{
    let (y, m, d) = (date.year as int, date.month as int, date.day as int);
    let n = next_ymd(y, m, d);
    let pday = pohela_day_of(region) as int;
    let p = region_placement(y, m, d, region);
    let q = region_placement(n.0, n.1, n.2, region);
    lemma_day_number_next(y, m, d);
    lemma_placement_in_year(y, m, d, region);
    lemma_placement_in_year(n.0, n.1, n.2, region);
    lemma_days_before_month(p.1, 12);
    lemma_days_before_month(p.1, 11);
    lemma_days_before_month(p.1, today.month as int);
    lemma_days_before_month(p.1, today.month as int + 1);
    lemma_days_before_month(q.1, tomorrow.month as int);
    lemma_days_before_month(q.1, tomorrow.month as int + 1);
    if n.1 == 4 && n.2 == pday {
        lemma_day_number_order(n, (p.1, 4, pday));
        lemma_day_number_order(n, (p.1 - 1, 4, pday));
        lemma_april_a_year_later(p.1 - 1, pday);
        lemma_bangla_year_length(p.1);
    } else {
        lemma_day_number_order(n, (p.1, 4, pday));
        lemma_placement_ref(n.0, n.1, n.2, region, p.1 - 1);
        lemma_next_day(p.0, p.1, p.2, today, tomorrow);
    }
}

/// The India calendar runs exactly one day behind the Bangladesh calendar: the India date of
/// the day after a Gregorian date is that date's Bangladesh date.
pub proof fn lemma_india_day_after(date: CivilDate, bangladesh: BanglaDate, india: BanglaDate)
    requires
        calendar_date(date.year as int, date.month as int, date.day as int),
        bangla_date_of(date.year as int, date.month as int, date.day as int, CalendarRegion::Bangladesh, bangladesh),
        ({
            let n = next_ymd(date.year as int, date.month as int, date.day as int);
            bangla_date_of(n.0, n.1, n.2, CalendarRegion::India, india)
        }),
    ensures
        india == bangladesh,
{
    let (y, m, d) = (date.year as int, date.month as int, date.day as int);
    let n = next_ymd(y, m, d);
    let p = region_placement(y, m, d, CalendarRegion::Bangladesh);
    lemma_day_number_next(y, m, d);
    lemma_placement_in_year(y, m, d, CalendarRegion::Bangladesh);
    lemma_placement_ref(n.0, n.1, n.2, CalendarRegion::India, p.1 - 1);
    lemma_placement_in_year(n.0, n.1, n.2, CalendarRegion::India);
    lemma_placement_unique(p.0, p.1, p.2, india, bangladesh);
}

/// Outside 14 April the India calendar runs one day behind the Bangladesh calendar: when a
/// day sits one day later in its Bangla year for Bangladesh than for India, and is not the
/// first of its Bangladesh month, its India date is the day before in the same month.
pub proof fn lemma_india_one_day_behind(
    bangla_year: int,
    gregorian_year: int,
    bangladesh_offset: int,
    india: BanglaDate,
    bangladesh: BanglaDate,
)
    requires
        placed_at(bangladesh, bangla_year, gregorian_year, bangladesh_offset),
        placed_at(india, bangla_year, gregorian_year, bangladesh_offset - 1),
        bangladesh.day > 1,
    ensures
        india.year == bangladesh.year,
        india.month == bangladesh.month,
        india.day == bangladesh.day - 1,
{
    let expected = BanglaDate {
        year: bangladesh.year,
        month: bangladesh.month,
        day: (bangladesh.day - 1) as u8,
    };
    lemma_days_before_month(gregorian_year, 12);
    lemma_days_before_month(gregorian_year, bangladesh.month as int);
    lemma_days_before_month(gregorian_year, bangladesh.month as int + 1);
    assert(placed_at(expected, bangla_year, gregorian_year, bangladesh_offset - 1));
    lemma_placement_unique(bangla_year, gregorian_year, bangladesh_offset - 1, india, expected);
}

/// The Bangla date depends only on the instant and the region, not on the time zone the
/// instant was observed in: two local date-times of the same instant, whatever their offsets,
/// have the same Bangla date.
pub proof fn lemma_local_offset_irrelevant(
    first: LocalDateTime,
    second: LocalDateTime,
    region: CalendarRegion,
    a: BanglaDate,
    b: BanglaDate,
)
    requires
        first.timestamp == second.timestamp,
        bangla_date_at(first.timestamp as int, region, a),
        bangla_date_at(second.timestamp as int, region, b),
    ensures
        a == b,
{
    lemma_bangla_date_unique(first.timestamp as int, region, a, b);
}

/// Bangla ordinal suffixes for dates
pub fn get_bangla_ordinal_suffix(day: u8) -> (suffix: &'static str)
    ensures
        suffix@ == ordinal_suffix(day as int),
{
    match day {
        1 => "লা",
        2 | 3 => "রা",
        4 => "ঠা",
        _ => "ই",
    }
}

/// The instant's date in the standard time of `region` is one `chrono` can hold and, in
/// `chrono`'s first year, not before Pohela Boishakh: the Bangla year of such a date began
/// in a year `chrono` cannot hold.
pub open spec fn region_date_in_range(timestamp: int, region: CalendarRegion) -> bool {
    let f = local_fields(timestamp, region_offset_of(region) as int);
    &&& valid_ymd(f.0, f.1, f.2)
    &&& f.0 == CHRONO_MIN_YEAR ==> !ymd_before((f.0, f.1, f.2), (f.0, 4, pohela_day_of(region) as int))
}

/// Whether the Bangla date of an instant in `region` can be computed (`region_date_in_range`).
pub fn region_date_supported(timestamp: i64, region: CalendarRegion) -> (ok: bool)
    requires
        MIN_TIMESTAMP_SECONDS <= timestamp <= MAX_TIMESTAMP_SECONDS,
    ensures
        ok == region_date_in_range(timestamp as int, region),
{
    let t = local_civil_time(timestamp, region.timezone_offset_seconds());
    if t.year < CHRONO_MIN_YEAR || t.year > CHRONO_MAX_YEAR {
        return false;
    }
    let date = CivilDate { year: t.year, month: t.month, day: t.day };
    let pohela = CivilDate { year: t.year, month: 4, day: region.pohela_boishakh_day() };
    !(t.year == CHRONO_MIN_YEAR && date.is_before(&pohela))
}

impl BanglaDate {
    /// Convert a local date-time to a Bangla date.
    ///
    /// The instant is first converted to the calendar region's timezone
    /// (GMT+6 for Bangladesh, GMT+5:30 for India), so users worldwide see the Bangla date
    /// of the actual date in Bangladesh or India, not of their local system date.
    pub fn from_local_with_region(dt: LocalDateTime, region: CalendarRegion) -> (date: Self)
        requires
            dt.wf(),
            region_date_in_range(dt.timestamp as int, region),
        ensures
            bangla_date_at(dt.timestamp as int, region, date),
            date.month < 12,
            1 <= date.day <= 31,
    {
        Self::from_utc_with_region(UtcDateTime { timestamp: dt.timestamp }, region)
    }

    /// Convert a UTC date-time to the Bangla date for the specified region
    pub fn from_utc_with_region(dt: UtcDateTime, region: CalendarRegion) -> (date: Self)
        requires
            dt.wf(),
            region_date_in_range(dt.timestamp as int, region),
        ensures
            bangla_date_at(dt.timestamp as int, region, date),
            date.month < 12,
            1 <= date.day <= 31,
    {
        let region_time = local_civil_time(dt.timestamp, region.timezone_offset_seconds());
        let region_date = CivilDate {
            year: region_time.year,
            month: region_time.month,
            day: region_time.day,
        };
        Self::from_date_with_region(region_date, region)
    }

    /// Convert a date (already in the region's timezone) to the Bangla date
    pub fn from_date_with_region(current_date: CivilDate, region: CalendarRegion) -> (date: Self)
        requires
            current_date.wf(),
            current_date.year == CHRONO_MIN_YEAR ==> !current_date.before(
                CivilDate { year: current_date.year, month: 4, day: pohela_day_of(region) },
            ),
        ensures
            bangla_date_of(
                current_date.year as int,
                current_date.month as int,
                current_date.day as int,
                region,
                date,
            ),
            date.month < 12,
            1 <= date.day <= 31,
            current_date.month == 4 && current_date.day == pohela_day_of(region) ==> date
                == (BanglaDate { year: (current_date.year - 593) as i32, month: 0, day: 1 }),
            region == CalendarRegion::India && !(current_date.month == 4 && current_date.day
                == 14) ==> ({
                let p = region_placement(
                    current_date.year as int,
                    current_date.month as int,
                    current_date.day as int,
                    CalendarRegion::Bangladesh,
                );
                placed_at(date, p.0, p.1, p.2 - 1)
            }),
    {
        let g_year = current_date.year;
        let pohela_day = region.pohela_boishakh_day();

        // Pohela Boishakh date varies by region
        let pohela_boishakh = CivilDate { year: g_year, month: 4, day: pohela_day };

        let is_before_pohela = current_date.is_before(&pohela_boishakh);
        let bangla_year = if is_before_pohela {
            g_year - 594
        } else {
            g_year - 593
        };

        // Reference year for calculation
        let ref_year = if is_before_pohela {
            g_year - 1
        } else {
            g_year
        };
        let ref_pohela = CivilDate { year: ref_year, month: 4, day: pohela_day };

        proof {
            lemma_placement_in_year(
                current_date.year as int,
                current_date.month as int,
                current_date.day as int,
                region,
            );
            lemma_days_before_month(ref_year + 1, 12);
        }
        // Days since Pohela Boishakh
        let day_diff = chrono_day_difference(current_date, ref_pohela) as i32;

        let date = Self::from_days_since_pohela(bangla_year, ref_year, day_diff);
        proof {
            lemma_days_before_month(ref_year + 1, date.month as int);
            lemma_days_before_month(ref_year + 1, date.month as int + 1);
        }
        date
    }

    /// The Bangla date `day_diff` days after Pohela Boishakh of Gregorian year `ref_year`,
    /// in Bangla year `bangla_year`. A negative `day_diff` gives the first day of the year,
    /// and so does one past the end of the year.
    pub fn from_days_since_pohela(bangla_year: i32, ref_year: i32, day_diff: i32) -> (date: Self)
        requires
            ref_year < i32::MAX,
        ensures
            placed_at(date, bangla_year as int, ref_year + 1, day_diff as int),
            date.month < 12,
            1 <= date.day <= 31,
            0 <= day_diff < days_before_month(ref_year + 1, 12) ==> (date.day as int)
                <= bangla_month_len(ref_year + 1, date.month as int),
    {
        let ghost g = ref_year + 1;
        proof {
            lemma_days_before_month(g, 12);
        }
        // Handle negative day difference
        if day_diff < 0 {
            return BanglaDate { year: bangla_year, month: 0, day: 1 };
        }
        // Get month lengths for this Bangla year
        let month_lengths = Self::get_month_lengths(ref_year + 1);

        let mut remaining_days = day_diff;
        let mut month_index: usize = 0;

        // Find the month
        while month_index < 12 && remaining_days >= month_lengths[month_index] as i32
            invariant
                month_index <= 12,
                0 <= remaining_days,
                remaining_days == day_diff - days_before_month(g, month_index as int),
                forall|i: int| 0 <= i < 12 ==> month_lengths[i] == bangla_month_len(g, i),
            decreases 12 - month_index,
        {
            remaining_days -= month_lengths[month_index] as i32;
            month_index += 1;
        }
        proof {
            lemma_days_before_month(g, month_index as int);
            if month_index < 12 {
                lemma_days_before_month(g, month_index as int + 1);
            }
        }

        // Handle overflow to next year
        if month_index >= 12 {
            month_index = 0;
            remaining_days = 0;
        }
        BanglaDate { year: bangla_year, month: month_index, day: (remaining_days + 1) as u8 }
    }

    /// Get month lengths accounting for leap year
    pub fn get_month_lengths(gregorian_year: i32) -> (lengths: [u8; 12])
        ensures
            forall|i: int| 0 <= i < 12 ==> lengths[i] == bangla_month_len(gregorian_year as int, i),
    {
        let mut lengths: [u8; 12] = [31, 31, 31, 31, 31, 30, 30, 30, 30, 30, 30, 30];
        // Choitro (index 11) has 31 days if the Gregorian year is a leap year
        if Self::is_leap_year(gregorian_year) {
            lengths[11] = 31;
        }
        lengths
    }

    /// Check if a year is a leap year
    pub fn is_leap_year(year: i32) -> (leap: bool)
        ensures
            leap == is_leap_year_spec(year as int),
    {
        // Divisibility does not depend on the sign, so test the magnitude.
        let magnitude: u64 = if year < 0 {
            (0i64 - year as i64) as u64
        } else {
            year as u64
        };
        proof {
            lemma_divisible_by_magnitude(year as int, 4);
            lemma_divisible_by_magnitude(year as int, 100);
            lemma_divisible_by_magnitude(year as int, 400);
        }
        (magnitude % 4 == 0 && magnitude % 100 != 0) || (magnitude % 400 == 0)
    }

    /// Get the month name
    pub fn get_month_name(&self) -> (name: &'static str)
        requires
            self.month < 12,
        ensures
            name@ == bangla_month_name(self.month as int),
    {
        match self.month {
            0 => "বৈশাখ",
            1 => "জ্যৈষ্ঠ",
            2 => "আষাঢ়",
            3 => "শ্রাবণ",
            4 => "ভাদ্র",
            5 => "আশ্বিন",
            6 => "কার্তিক",
            7 => "অগ্রহায়ণ",
            8 => "পৌষ",
            9 => "মাঘ",
            10 => "ফাল্গুন",
            _ => "চৈত্র",
        }
    }

    /// Get the season based on month
    pub fn get_season(&self) -> (name: &'static str)
        requires
            self.month < 12,
        ensures
            name@ == bangla_season_name(self.month as int / 2),
    {
        match self.month / 2 {
            0 => "গ্রীষ্মকাল",
            1 => "বর্ষাকাল",
            2 => "শরৎকাল",
            3 => "হেমন্তকাল",
            4 => "শীতকাল",
            _ => "বসন্তকাল",
        }
    }

    /// Format the date in Bangla (e.g., "১৩ই মাঘ, ১৪৩২ বঙ্গাব্দ")
    pub fn format_bangla(&self, use_bangla_numerals: bool) -> (text: String)
        requires
            self.month < 12,
        ensures
            text@ == numerals(signed_decimal(self.day as int), use_bangla_numerals) + ordinal_suffix(
                self.day as int,
            ) + " "@ + bangla_month_name(self.month as int) + ", "@ + numerals(
                signed_decimal(self.year as int),
                use_bangla_numerals,
            ) + " বঙ্গাব্দ"@,
    {
        let day_str = number_text(self.day as i64, use_bangla_numerals);
        let suffix = get_bangla_ordinal_suffix(self.day);
        let year_str = number_text(self.year as i64, use_bangla_numerals);

        let mut text = day_str;
        text.append(suffix);
        text.append(" ");
        text.append(self.get_month_name());
        text.append(", ");
        text.append(year_str.as_str());
        text.append(" বঙ্গাব্দ");
        text
    }
}

/// Bangla weekday names (0 = Sunday).
pub open spec fn bangla_weekday_name(weekday: int) -> Seq<char> {
    if weekday == 0 {
        "রবিবার"@
    } else if weekday == 1 {
        "সোমবার"@
    } else if weekday == 2 {
        "মঙ্গলবার"@
    } else if weekday == 3 {
        "বুধবার"@
    } else if weekday == 4 {
        "বৃহস্পতিবার"@
    } else if weekday == 5 {
        "শুক্রবার"@
    } else {
        "শনিবার"@
    }
}

/// English names of the Gregorian months (1 = January).
pub open spec fn english_month_name(month: int) -> Seq<char> {
    if month == 1 {
        "January"@
    } else if month == 2 {
        "February"@
    } else if month == 3 {
        "March"@
    } else if month == 4 {
        "April"@
    } else if month == 5 {
        "May"@
    } else if month == 6 {
        "June"@
    } else if month == 7 {
        "July"@
    } else if month == 8 {
        "August"@
    } else if month == 9 {
        "September"@
    } else if month == 10 {
        "October"@
    } else if month == 11 {
        "November"@
    } else {
        "December"@
    }
}

/// Bangla names of the Gregorian months (1 = January).
pub open spec fn bangla_english_month_name(month: int) -> Seq<char> {
    if month == 1 {
        "জানুয়ারি"@
    } else if month == 2 {
        "ফেব্রুয়ারি"@
    } else if month == 3 {
        "মার্চ"@
    } else if month == 4 {
        "এপ্রিল"@
    } else if month == 5 {
        "মে"@
    } else if month == 6 {
        "জুন"@
    } else if month == 7 {
        "জুলাই"@
    } else if month == 8 {
        "আগস্ট"@
    } else if month == 9 {
        "সেপ্টেম্বর"@
    } else if month == 10 {
        "অক্টোবর"@
    } else if month == 11 {
        "নভেম্বর"@
    } else {
        "ডিসেম্বর"@
    }
}

/// The Gregorian date text: day, month name and year separated by spaces, with the
/// " ঈসায়ী" era suffix when Bangla names are used.
pub open spec fn gregorian_date_text(
    year: int,
    month: int,
    day: int,
    use_bangla_names: bool,
    use_bangla_numerals: bool,
) -> Seq<char> {
    numerals(signed_decimal(day), use_bangla_numerals) + " "@ + (if use_bangla_names {
        bangla_english_month_name(month)
    } else {
        english_month_name(month)
    }) + " "@ + numerals(signed_decimal(year), use_bangla_numerals) + (if use_bangla_names {
        " ঈসায়ী"@
    } else {
        ""@
    })
}

/// The English month names are twelve different names: no two months share one.
pub proof fn lemma_english_month_names_distinct(a: int, b: int)
    requires
        1 <= a <= 12,
        1 <= b <= 12,
        english_month_name(a) == english_month_name(b),
    ensures
        a == b,
{
    reveal_strlit("January");
    reveal_strlit("February");
    reveal_strlit("March");
    reveal_strlit("April");
    reveal_strlit("May");
    reveal_strlit("June");
    reveal_strlit("July");
    reveal_strlit("August");
    reveal_strlit("September");
    reveal_strlit("October");
    reveal_strlit("November");
    reveal_strlit("December");
    assert(english_month_name(1).len() != english_month_name(2).len());
    assert(english_month_name(1).len() != english_month_name(3).len());
    assert(english_month_name(1).len() != english_month_name(4).len());
    assert(english_month_name(1).len() != english_month_name(5).len());
    assert(english_month_name(1).len() != english_month_name(6).len());
    assert(english_month_name(1).len() != english_month_name(7).len());
    assert(english_month_name(1).len() != english_month_name(8).len());
    assert(english_month_name(1).len() != english_month_name(9).len());
    assert(english_month_name(1)[0] != english_month_name(10)[0]);
    assert(english_month_name(1).len() != english_month_name(11).len());
    assert(english_month_name(1).len() != english_month_name(12).len());
    assert(english_month_name(2).len() != english_month_name(3).len());
    assert(english_month_name(2).len() != english_month_name(4).len());
    assert(english_month_name(2).len() != english_month_name(5).len());
    assert(english_month_name(2).len() != english_month_name(6).len());
    assert(english_month_name(2).len() != english_month_name(7).len());
    assert(english_month_name(2).len() != english_month_name(8).len());
    assert(english_month_name(2).len() != english_month_name(9).len());
    assert(english_month_name(2).len() != english_month_name(10).len());
    assert(english_month_name(2)[0] != english_month_name(11)[0]);
    assert(english_month_name(2)[0] != english_month_name(12)[0]);
    assert(english_month_name(3)[0] != english_month_name(4)[0]);
    assert(english_month_name(3).len() != english_month_name(5).len());
    assert(english_month_name(3).len() != english_month_name(6).len());
    assert(english_month_name(3).len() != english_month_name(7).len());
    assert(english_month_name(3).len() != english_month_name(8).len());
    assert(english_month_name(3).len() != english_month_name(9).len());
    assert(english_month_name(3).len() != english_month_name(10).len());
    assert(english_month_name(3).len() != english_month_name(11).len());
    assert(english_month_name(3).len() != english_month_name(12).len());
    assert(english_month_name(4).len() != english_month_name(5).len());
    assert(english_month_name(4).len() != english_month_name(6).len());
    assert(english_month_name(4).len() != english_month_name(7).len());
    assert(english_month_name(4).len() != english_month_name(8).len());
    assert(english_month_name(4).len() != english_month_name(9).len());
    assert(english_month_name(4).len() != english_month_name(10).len());
    assert(english_month_name(4).len() != english_month_name(11).len());
    assert(english_month_name(4).len() != english_month_name(12).len());
    assert(english_month_name(5).len() != english_month_name(6).len());
    assert(english_month_name(5).len() != english_month_name(7).len());
    assert(english_month_name(5).len() != english_month_name(8).len());
    assert(english_month_name(5).len() != english_month_name(9).len());
    assert(english_month_name(5).len() != english_month_name(10).len());
    assert(english_month_name(5).len() != english_month_name(11).len());
    assert(english_month_name(5).len() != english_month_name(12).len());
    assert(english_month_name(6)[2] != english_month_name(7)[2]);
    assert(english_month_name(6).len() != english_month_name(8).len());
    assert(english_month_name(6).len() != english_month_name(9).len());
    assert(english_month_name(6).len() != english_month_name(10).len());
    assert(english_month_name(6).len() != english_month_name(11).len());
    assert(english_month_name(6).len() != english_month_name(12).len());
    assert(english_month_name(7).len() != english_month_name(8).len());
    assert(english_month_name(7).len() != english_month_name(9).len());
    assert(english_month_name(7).len() != english_month_name(10).len());
    assert(english_month_name(7).len() != english_month_name(11).len());
    assert(english_month_name(7).len() != english_month_name(12).len());
    assert(english_month_name(8).len() != english_month_name(9).len());
    assert(english_month_name(8).len() != english_month_name(10).len());
    assert(english_month_name(8).len() != english_month_name(11).len());
    assert(english_month_name(8).len() != english_month_name(12).len());
    assert(english_month_name(9).len() != english_month_name(10).len());
    assert(english_month_name(9).len() != english_month_name(11).len());
    assert(english_month_name(9).len() != english_month_name(12).len());
    assert(english_month_name(10).len() != english_month_name(11).len());
    assert(english_month_name(10).len() != english_month_name(12).len());
    assert(english_month_name(11)[0] != english_month_name(12)[0]);
}

/// The English month names follow the calendar. January opens the year and December closes
/// it; each month is named for the one after the month before it. Thirty days have April,
/// June, September and November; February alone has fewer; all the rest have 31.
pub proof fn lemma_english_month_names_in_calendar_order(year: int, m: int)
    requires
        1 <= m <= 12,
    ensures
        (english_month_name(m) == "January"@) <==> m == 1,
        (english_month_name(m) == "December"@) <==> m == 12,
        m > 1 ==> ((english_month_name(m) == "February"@) <==> (english_month_name(m - 1) == "January"@)),
        m > 1 ==> ((english_month_name(m) == "March"@) <==> (english_month_name(m - 1) == "February"@)),
        m > 1 ==> ((english_month_name(m) == "April"@) <==> (english_month_name(m - 1) == "March"@)),
        m > 1 ==> ((english_month_name(m) == "May"@) <==> (english_month_name(m - 1) == "April"@)),
        m > 1 ==> ((english_month_name(m) == "June"@) <==> (english_month_name(m - 1) == "May"@)),
        m > 1 ==> ((english_month_name(m) == "July"@) <==> (english_month_name(m - 1) == "June"@)),
        m > 1 ==> ((english_month_name(m) == "August"@) <==> (english_month_name(m - 1) == "July"@)),
        m > 1 ==> ((english_month_name(m) == "September"@) <==> (english_month_name(m - 1) == "August"@)),
        m > 1 ==> ((english_month_name(m) == "October"@) <==> (english_month_name(m - 1) == "September"@)),
        m > 1 ==> ((english_month_name(m) == "November"@) <==> (english_month_name(m - 1) == "October"@)),
        m > 1 ==> ((english_month_name(m) == "December"@) <==> (english_month_name(m - 1) == "November"@)),
        (days_in_month_spec(year, m) == 30) <==> (english_month_name(m) == "April"@ || english_month_name(m) == "June"@
            || english_month_name(m) == "September"@ || english_month_name(m) == "November"@),
        (days_in_month_spec(year, m) < 30) <==> (english_month_name(m) == "February"@),
        days_in_month_spec(year, m) == 30 || days_in_month_spec(year, m) < 30 || days_in_month_spec(year, m) == 31,
{
    reveal_strlit("January");
    reveal_strlit("February");
    reveal_strlit("March");
    reveal_strlit("April");
    reveal_strlit("May");
    reveal_strlit("June");
    reveal_strlit("July");
    reveal_strlit("August");
    reveal_strlit("September");
    reveal_strlit("October");
    reveal_strlit("November");
    reveal_strlit("December");
    assert(english_month_name(1) == "January"@);
    assert(english_month_name(2) == "February"@);
    assert(english_month_name(3) == "March"@);
    assert(english_month_name(4) == "April"@);
    assert(english_month_name(5) == "May"@);
    assert(english_month_name(6) == "June"@);
    assert(english_month_name(7) == "July"@);
    assert(english_month_name(8) == "August"@);
    assert(english_month_name(9) == "September"@);
    assert(english_month_name(10) == "October"@);
    assert(english_month_name(11) == "November"@);
    assert(english_month_name(12) == "December"@);
    assert forall|i: int, j: int| 1 <= i <= 12 && 1 <= j <= 12 && #[trigger] english_month_name(i) == #[trigger] english_month_name(j) implies i == j by {
        lemma_english_month_names_distinct(i, j);
    }
}

/// The Bangla names of the Gregorian months are twelve different names.
pub proof fn lemma_bangla_english_month_names_distinct(a: int, b: int)
    requires
        1 <= a <= 12,
        1 <= b <= 12,
        bangla_english_month_name(a) == bangla_english_month_name(b),
    ensures
        a == b,
{
    reveal_strlit("জানুয়ারি");
    reveal_strlit("ফেব্রুয়ারি");
    reveal_strlit("মার্চ");
    reveal_strlit("এপ্রিল");
    reveal_strlit("মে");
    reveal_strlit("জুন");
    reveal_strlit("জুলাই");
    reveal_strlit("আগস্ট");
    reveal_strlit("সেপ্টেম্বর");
    reveal_strlit("অক্টোবর");
    reveal_strlit("নভেম্বর");
    reveal_strlit("ডিসেম্বর");
    assert(bangla_english_month_name(1).len() != bangla_english_month_name(2).len());
    assert(bangla_english_month_name(1).len() != bangla_english_month_name(3).len());
    assert(bangla_english_month_name(1).len() != bangla_english_month_name(4).len());
    assert(bangla_english_month_name(1).len() != bangla_english_month_name(5).len());
    assert(bangla_english_month_name(1).len() != bangla_english_month_name(6).len());
    assert(bangla_english_month_name(1).len() != bangla_english_month_name(7).len());
    assert(bangla_english_month_name(1).len() != bangla_english_month_name(8).len());
    assert(bangla_english_month_name(1).len() != bangla_english_month_name(9).len());
    assert(bangla_english_month_name(1).len() != bangla_english_month_name(10).len());
    assert(bangla_english_month_name(1).len() != bangla_english_month_name(11).len());
    assert(bangla_english_month_name(1).len() != bangla_english_month_name(12).len());
    assert(bangla_english_month_name(2).len() != bangla_english_month_name(3).len());
    assert(bangla_english_month_name(2).len() != bangla_english_month_name(4).len());
    assert(bangla_english_month_name(2).len() != bangla_english_month_name(5).len());
    assert(bangla_english_month_name(2).len() != bangla_english_month_name(6).len());
    assert(bangla_english_month_name(2).len() != bangla_english_month_name(7).len());
    assert(bangla_english_month_name(2).len() != bangla_english_month_name(8).len());
    assert(bangla_english_month_name(2).len() != bangla_english_month_name(9).len());
    assert(bangla_english_month_name(2).len() != bangla_english_month_name(10).len());
    assert(bangla_english_month_name(2).len() != bangla_english_month_name(11).len());
    assert(bangla_english_month_name(2).len() != bangla_english_month_name(12).len());
    assert(bangla_english_month_name(3).len() != bangla_english_month_name(4).len());
    assert(bangla_english_month_name(3).len() != bangla_english_month_name(5).len());
    assert(bangla_english_month_name(3).len() != bangla_english_month_name(6).len());
    assert(bangla_english_month_name(3)[0] != bangla_english_month_name(7)[0]);
    assert(bangla_english_month_name(3)[0] != bangla_english_month_name(8)[0]);
    assert(bangla_english_month_name(3).len() != bangla_english_month_name(9).len());
    assert(bangla_english_month_name(3).len() != bangla_english_month_name(10).len());
    assert(bangla_english_month_name(3).len() != bangla_english_month_name(11).len());
    assert(bangla_english_month_name(3).len() != bangla_english_month_name(12).len());
    assert(bangla_english_month_name(4).len() != bangla_english_month_name(5).len());
    assert(bangla_english_month_name(4).len() != bangla_english_month_name(6).len());
    assert(bangla_english_month_name(4).len() != bangla_english_month_name(7).len());
    assert(bangla_english_month_name(4).len() != bangla_english_month_name(8).len());
    assert(bangla_english_month_name(4).len() != bangla_english_month_name(9).len());
    assert(bangla_english_month_name(4).len() != bangla_english_month_name(10).len());
    assert(bangla_english_month_name(4).len() != bangla_english_month_name(11).len());
    assert(bangla_english_month_name(4).len() != bangla_english_month_name(12).len());
    assert(bangla_english_month_name(5).len() != bangla_english_month_name(6).len());
    assert(bangla_english_month_name(5).len() != bangla_english_month_name(7).len());
    assert(bangla_english_month_name(5).len() != bangla_english_month_name(8).len());
    assert(bangla_english_month_name(5).len() != bangla_english_month_name(9).len());
    assert(bangla_english_month_name(5).len() != bangla_english_month_name(10).len());
    assert(bangla_english_month_name(5).len() != bangla_english_month_name(11).len());
    assert(bangla_english_month_name(5).len() != bangla_english_month_name(12).len());
    assert(bangla_english_month_name(6).len() != bangla_english_month_name(7).len());
    assert(bangla_english_month_name(6).len() != bangla_english_month_name(8).len());
    assert(bangla_english_month_name(6).len() != bangla_english_month_name(9).len());
    assert(bangla_english_month_name(6).len() != bangla_english_month_name(10).len());
    assert(bangla_english_month_name(6).len() != bangla_english_month_name(11).len());
    assert(bangla_english_month_name(6).len() != bangla_english_month_name(12).len());
    assert(bangla_english_month_name(7)[0] != bangla_english_month_name(8)[0]);
    assert(bangla_english_month_name(7).len() != bangla_english_month_name(9).len());
    assert(bangla_english_month_name(7).len() != bangla_english_month_name(10).len());
    assert(bangla_english_month_name(7).len() != bangla_english_month_name(11).len());
    assert(bangla_english_month_name(7).len() != bangla_english_month_name(12).len());
    assert(bangla_english_month_name(8).len() != bangla_english_month_name(9).len());
    assert(bangla_english_month_name(8).len() != bangla_english_month_name(10).len());
    assert(bangla_english_month_name(8).len() != bangla_english_month_name(11).len());
    assert(bangla_english_month_name(8).len() != bangla_english_month_name(12).len());
    assert(bangla_english_month_name(9).len() != bangla_english_month_name(10).len());
    assert(bangla_english_month_name(9).len() != bangla_english_month_name(11).len());
    assert(bangla_english_month_name(9).len() != bangla_english_month_name(12).len());
    assert(bangla_english_month_name(10)[0] != bangla_english_month_name(11)[0]);
    assert(bangla_english_month_name(10).len() != bangla_english_month_name(12).len());
    assert(bangla_english_month_name(11).len() != bangla_english_month_name(12).len());
}

/// Each Gregorian month has its English name and the Bangla spelling of that same name.
pub proof fn lemma_month_names_agree(m: int)
    requires
        1 <= m <= 12,
    ensures
        (english_month_name(m) == "January"@) <==> (bangla_english_month_name(m) == "জানুয়ারি"@),
        (english_month_name(m) == "February"@) <==> (bangla_english_month_name(m) == "ফেব্রুয়ারি"@),
        (english_month_name(m) == "March"@) <==> (bangla_english_month_name(m) == "মার্চ"@),
        (english_month_name(m) == "April"@) <==> (bangla_english_month_name(m) == "এপ্রিল"@),
        (english_month_name(m) == "May"@) <==> (bangla_english_month_name(m) == "মে"@),
        (english_month_name(m) == "June"@) <==> (bangla_english_month_name(m) == "জুন"@),
        (english_month_name(m) == "July"@) <==> (bangla_english_month_name(m) == "জুলাই"@),
        (english_month_name(m) == "August"@) <==> (bangla_english_month_name(m) == "আগস্ট"@),
        (english_month_name(m) == "September"@) <==> (bangla_english_month_name(m) == "সেপ্টেম্বর"@),
        (english_month_name(m) == "October"@) <==> (bangla_english_month_name(m) == "অক্টোবর"@),
        (english_month_name(m) == "November"@) <==> (bangla_english_month_name(m) == "নভেম্বর"@),
        (english_month_name(m) == "December"@) <==> (bangla_english_month_name(m) == "ডিসেম্বর"@),
{
    reveal_strlit("January");
    reveal_strlit("February");
    reveal_strlit("March");
    reveal_strlit("April");
    reveal_strlit("May");
    reveal_strlit("June");
    reveal_strlit("July");
    reveal_strlit("August");
    reveal_strlit("September");
    reveal_strlit("October");
    reveal_strlit("November");
    reveal_strlit("December");
    assert(english_month_name(1) == "January"@);
    assert(english_month_name(2) == "February"@);
    assert(english_month_name(3) == "March"@);
    assert(english_month_name(4) == "April"@);
    assert(english_month_name(5) == "May"@);
    assert(english_month_name(6) == "June"@);
    assert(english_month_name(7) == "July"@);
    assert(english_month_name(8) == "August"@);
    assert(english_month_name(9) == "September"@);
    assert(english_month_name(10) == "October"@);
    assert(english_month_name(11) == "November"@);
    assert(english_month_name(12) == "December"@);
    reveal_strlit("জানুয়ারি");
    reveal_strlit("ফেব্রুয়ারি");
    reveal_strlit("মার্চ");
    reveal_strlit("এপ্রিল");
    reveal_strlit("মে");
    reveal_strlit("জুন");
    reveal_strlit("জুলাই");
    reveal_strlit("আগস্ট");
    reveal_strlit("সেপ্টেম্বর");
    reveal_strlit("অক্টোবর");
    reveal_strlit("নভেম্বর");
    reveal_strlit("ডিসেম্বর");
    assert(bangla_english_month_name(1) == "জানুয়ারি"@);
    assert(bangla_english_month_name(2) == "ফেব্রুয়ারি"@);
    assert(bangla_english_month_name(3) == "মার্চ"@);
    assert(bangla_english_month_name(4) == "এপ্রিল"@);
    assert(bangla_english_month_name(5) == "মে"@);
    assert(bangla_english_month_name(6) == "জুন"@);
    assert(bangla_english_month_name(7) == "জুলাই"@);
    assert(bangla_english_month_name(8) == "আগস্ট"@);
    assert(bangla_english_month_name(9) == "সেপ্টেম্বর"@);
    assert(bangla_english_month_name(10) == "অক্টোবর"@);
    assert(bangla_english_month_name(11) == "নভেম্বর"@);
    assert(bangla_english_month_name(12) == "ডিসেম্বর"@);
    assert forall|i: int, j: int| 1 <= i <= 12 && 1 <= j <= 12 && #[trigger] english_month_name(i) == #[trigger] english_month_name(j) implies i == j by {
        lemma_english_month_names_distinct(i, j);
    }
    assert forall|i: int, j: int| 1 <= i <= 12 && 1 <= j <= 12 && #[trigger] bangla_english_month_name(i) == #[trigger] bangla_english_month_name(j) implies i == j by {
        lemma_bangla_english_month_names_distinct(i, j);
    }
}

/// The twelve Bangla months have twelve different names.
pub proof fn lemma_bangla_month_names_distinct(a: int, b: int)
    requires
        0 <= a <= 11,
        0 <= b <= 11,
        bangla_month_name(a) == bangla_month_name(b),
    ensures
        a == b,
{
    reveal_strlit("বৈশাখ");
    reveal_strlit("জ্যৈষ্ঠ");
    reveal_strlit("আষাঢ়");
    reveal_strlit("শ্রাবণ");
    reveal_strlit("ভাদ্র");
    reveal_strlit("আশ্বিন");
    reveal_strlit("কার্তিক");
    reveal_strlit("অগ্রহায়ণ");
    reveal_strlit("পৌষ");
    reveal_strlit("মাঘ");
    reveal_strlit("ফাল্গুন");
    reveal_strlit("চৈত্র");
    assert(bangla_month_name(0).len() != bangla_month_name(1).len());
    assert(bangla_month_name(0)[0] != bangla_month_name(2)[0]);
    assert(bangla_month_name(0).len() != bangla_month_name(3).len());
    assert(bangla_month_name(0)[0] != bangla_month_name(4)[0]);
    assert(bangla_month_name(0).len() != bangla_month_name(5).len());
    assert(bangla_month_name(0).len() != bangla_month_name(6).len());
    assert(bangla_month_name(0).len() != bangla_month_name(7).len());
    assert(bangla_month_name(0).len() != bangla_month_name(8).len());
    assert(bangla_month_name(0).len() != bangla_month_name(9).len());
    assert(bangla_month_name(0).len() != bangla_month_name(10).len());
    assert(bangla_month_name(0)[0] != bangla_month_name(11)[0]);
    assert(bangla_month_name(1).len() != bangla_month_name(2).len());
    assert(bangla_month_name(1).len() != bangla_month_name(3).len());
    assert(bangla_month_name(1).len() != bangla_month_name(4).len());
    assert(bangla_month_name(1).len() != bangla_month_name(5).len());
    assert(bangla_month_name(1)[0] != bangla_month_name(6)[0]);
    assert(bangla_month_name(1).len() != bangla_month_name(7).len());
    assert(bangla_month_name(1).len() != bangla_month_name(8).len());
    assert(bangla_month_name(1).len() != bangla_month_name(9).len());
    assert(bangla_month_name(1)[0] != bangla_month_name(10)[0]);
    assert(bangla_month_name(1).len() != bangla_month_name(11).len());
    assert(bangla_month_name(2).len() != bangla_month_name(3).len());
    assert(bangla_month_name(2)[0] != bangla_month_name(4)[0]);
    assert(bangla_month_name(2).len() != bangla_month_name(5).len());
    assert(bangla_month_name(2).len() != bangla_month_name(6).len());
    assert(bangla_month_name(2).len() != bangla_month_name(7).len());
    assert(bangla_month_name(2).len() != bangla_month_name(8).len());
    assert(bangla_month_name(2).len() != bangla_month_name(9).len());
    assert(bangla_month_name(2).len() != bangla_month_name(10).len());
    assert(bangla_month_name(2)[0] != bangla_month_name(11)[0]);
    assert(bangla_month_name(3).len() != bangla_month_name(4).len());
    assert(bangla_month_name(3)[0] != bangla_month_name(5)[0]);
    assert(bangla_month_name(3).len() != bangla_month_name(6).len());
    assert(bangla_month_name(3).len() != bangla_month_name(7).len());
    assert(bangla_month_name(3).len() != bangla_month_name(8).len());
    assert(bangla_month_name(3).len() != bangla_month_name(9).len());
    assert(bangla_month_name(3).len() != bangla_month_name(10).len());
    assert(bangla_month_name(3).len() != bangla_month_name(11).len());
    assert(bangla_month_name(4).len() != bangla_month_name(5).len());
    assert(bangla_month_name(4).len() != bangla_month_name(6).len());
    assert(bangla_month_name(4).len() != bangla_month_name(7).len());
    assert(bangla_month_name(4).len() != bangla_month_name(8).len());
    assert(bangla_month_name(4).len() != bangla_month_name(9).len());
    assert(bangla_month_name(4).len() != bangla_month_name(10).len());
    assert(bangla_month_name(4)[0] != bangla_month_name(11)[0]);
    assert(bangla_month_name(5).len() != bangla_month_name(6).len());
    assert(bangla_month_name(5).len() != bangla_month_name(7).len());
    assert(bangla_month_name(5).len() != bangla_month_name(8).len());
    assert(bangla_month_name(5).len() != bangla_month_name(9).len());
    assert(bangla_month_name(5).len() != bangla_month_name(10).len());
    assert(bangla_month_name(5).len() != bangla_month_name(11).len());
    assert(bangla_month_name(6).len() != bangla_month_name(7).len());
    assert(bangla_month_name(6).len() != bangla_month_name(8).len());
    assert(bangla_month_name(6).len() != bangla_month_name(9).len());
    assert(bangla_month_name(6)[0] != bangla_month_name(10)[0]);
    assert(bangla_month_name(6).len() != bangla_month_name(11).len());
    assert(bangla_month_name(7).len() != bangla_month_name(8).len());
    assert(bangla_month_name(7).len() != bangla_month_name(9).len());
    assert(bangla_month_name(7).len() != bangla_month_name(10).len());
    assert(bangla_month_name(7).len() != bangla_month_name(11).len());
    assert(bangla_month_name(8)[0] != bangla_month_name(9)[0]);
    assert(bangla_month_name(8).len() != bangla_month_name(10).len());
    assert(bangla_month_name(8).len() != bangla_month_name(11).len());
    assert(bangla_month_name(9).len() != bangla_month_name(10).len());
    assert(bangla_month_name(9).len() != bangla_month_name(11).len());
    assert(bangla_month_name(10).len() != bangla_month_name(11).len());
}

/// The six Bangla seasons have six different names.
pub proof fn lemma_bangla_season_names_distinct(a: int, b: int)
    requires
        0 <= a <= 5,
        0 <= b <= 5,
        bangla_season_name(a) == bangla_season_name(b),
    ensures
        a == b,
{
    reveal_strlit("গ্রীষ্মকাল");
    reveal_strlit("বর্ষাকাল");
    reveal_strlit("শরৎকাল");
    reveal_strlit("হেমন্তকাল");
    reveal_strlit("শীতকাল");
    reveal_strlit("বসন্তকাল");
    assert(bangla_season_name(0).len() != bangla_season_name(1).len());
    assert(bangla_season_name(0).len() != bangla_season_name(2).len());
    assert(bangla_season_name(0).len() != bangla_season_name(3).len());
    assert(bangla_season_name(0).len() != bangla_season_name(4).len());
    assert(bangla_season_name(0).len() != bangla_season_name(5).len());
    assert(bangla_season_name(1).len() != bangla_season_name(2).len());
    assert(bangla_season_name(1).len() != bangla_season_name(3).len());
    assert(bangla_season_name(1).len() != bangla_season_name(4).len());
    assert(bangla_season_name(1)[1] != bangla_season_name(5)[1]);
    assert(bangla_season_name(2).len() != bangla_season_name(3).len());
    assert(bangla_season_name(2)[1] != bangla_season_name(4)[1]);
    assert(bangla_season_name(2).len() != bangla_season_name(5).len());
    assert(bangla_season_name(3).len() != bangla_season_name(4).len());
    assert(bangla_season_name(3).len() != bangla_season_name(5).len());
    assert(bangla_season_name(4).len() != bangla_season_name(5).len());
}

/// Each Bangla season spans two months: summer is Boishakh and Jyoishtho, the rains
/// Asharh and Srabon, autumn Bhadro and Ashshin, late autumn Kartik and Ogrohayon, winter
/// Poush and Magh, spring Falgun and Choitro.
pub proof fn lemma_seasons_of_bangla_months(m: int)
    requires
        0 <= m <= 11,
    ensures
        (bangla_season_name(m / 2) == "গ্রীষ্মকাল"@) <==> (bangla_month_name(m) == "বৈশাখ"@ || bangla_month_name(m) == "জ্যৈষ্ঠ"@),
        (bangla_season_name(m / 2) == "বর্ষাকাল"@) <==> (bangla_month_name(m) == "আষাঢ়"@ || bangla_month_name(m) == "শ্রাবণ"@),
        (bangla_season_name(m / 2) == "শরৎকাল"@) <==> (bangla_month_name(m) == "ভাদ্র"@ || bangla_month_name(m) == "আশ্বিন"@),
        (bangla_season_name(m / 2) == "হেমন্তকাল"@) <==> (bangla_month_name(m) == "কার্তিক"@ || bangla_month_name(m) == "অগ্রহায়ণ"@),
        (bangla_season_name(m / 2) == "শীতকাল"@) <==> (bangla_month_name(m) == "পৌষ"@ || bangla_month_name(m) == "মাঘ"@),
        (bangla_season_name(m / 2) == "বসন্তকাল"@) <==> (bangla_month_name(m) == "ফাল্গুন"@ || bangla_month_name(m) == "চৈত্র"@),
{
    reveal_strlit("বৈশাখ");
    reveal_strlit("জ্যৈষ্ঠ");
    reveal_strlit("আষাঢ়");
    reveal_strlit("শ্রাবণ");
    reveal_strlit("ভাদ্র");
    reveal_strlit("আশ্বিন");
    reveal_strlit("কার্তিক");
    reveal_strlit("অগ্রহায়ণ");
    reveal_strlit("পৌষ");
    reveal_strlit("মাঘ");
    reveal_strlit("ফাল্গুন");
    reveal_strlit("চৈত্র");
    assert(bangla_month_name(0) == "বৈশাখ"@);
    assert(bangla_month_name(1) == "জ্যৈষ্ঠ"@);
    assert(bangla_month_name(2) == "আষাঢ়"@);
    assert(bangla_month_name(3) == "শ্রাবণ"@);
    assert(bangla_month_name(4) == "ভাদ্র"@);
    assert(bangla_month_name(5) == "আশ্বিন"@);
    assert(bangla_month_name(6) == "কার্তিক"@);
    assert(bangla_month_name(7) == "অগ্রহায়ণ"@);
    assert(bangla_month_name(8) == "পৌষ"@);
    assert(bangla_month_name(9) == "মাঘ"@);
    assert(bangla_month_name(10) == "ফাল্গুন"@);
    assert(bangla_month_name(11) == "চৈত্র"@);
    reveal_strlit("গ্রীষ্মকাল");
    reveal_strlit("বর্ষাকাল");
    reveal_strlit("শরৎকাল");
    reveal_strlit("হেমন্তকাল");
    reveal_strlit("শীতকাল");
    reveal_strlit("বসন্তকাল");
    assert(bangla_season_name(0) == "গ্রীষ্মকাল"@);
    assert(bangla_season_name(1) == "বর্ষাকাল"@);
    assert(bangla_season_name(2) == "শরৎকাল"@);
    assert(bangla_season_name(3) == "হেমন্তকাল"@);
    assert(bangla_season_name(4) == "শীতকাল"@);
    assert(bangla_season_name(5) == "বসন্তকাল"@);
    assert forall|i: int, j: int| 0 <= i <= 11 && 0 <= j <= 11 && #[trigger] bangla_month_name(i) == #[trigger] bangla_month_name(j) implies i == j by {
        lemma_bangla_month_names_distinct(i, j);
    }
    assert forall|i: int, j: int| 0 <= i <= 5 && 0 <= j <= 5 && #[trigger] bangla_season_name(i) == #[trigger] bangla_season_name(j) implies i == j by {
        lemma_bangla_season_names_distinct(i, j);
    }
}

/// The seven days of the week have seven different Bangla names.
pub proof fn lemma_bangla_weekday_names_distinct(a: int, b: int)
    requires
        0 <= a <= 6,
        0 <= b <= 6,
        bangla_weekday_name(a) == bangla_weekday_name(b),
    ensures
        a == b,
{
    reveal_strlit("রবিবার");
    reveal_strlit("সোমবার");
    reveal_strlit("মঙ্গলবার");
    reveal_strlit("বুধবার");
    reveal_strlit("বৃহস্পতিবার");
    reveal_strlit("শুক্রবার");
    reveal_strlit("শনিবার");
    assert(bangla_weekday_name(0)[0] != bangla_weekday_name(1)[0]);
    assert(bangla_weekday_name(0).len() != bangla_weekday_name(2).len());
    assert(bangla_weekday_name(0)[0] != bangla_weekday_name(3)[0]);
    assert(bangla_weekday_name(0).len() != bangla_weekday_name(4).len());
    assert(bangla_weekday_name(0).len() != bangla_weekday_name(5).len());
    assert(bangla_weekday_name(0)[0] != bangla_weekday_name(6)[0]);
    assert(bangla_weekday_name(1).len() != bangla_weekday_name(2).len());
    assert(bangla_weekday_name(1)[0] != bangla_weekday_name(3)[0]);
    assert(bangla_weekday_name(1).len() != bangla_weekday_name(4).len());
    assert(bangla_weekday_name(1).len() != bangla_weekday_name(5).len());
    assert(bangla_weekday_name(1)[0] != bangla_weekday_name(6)[0]);
    assert(bangla_weekday_name(2).len() != bangla_weekday_name(3).len());
    assert(bangla_weekday_name(2).len() != bangla_weekday_name(4).len());
    assert(bangla_weekday_name(2)[0] != bangla_weekday_name(5)[0]);
    assert(bangla_weekday_name(2).len() != bangla_weekday_name(6).len());
    assert(bangla_weekday_name(3).len() != bangla_weekday_name(4).len());
    assert(bangla_weekday_name(3).len() != bangla_weekday_name(5).len());
    assert(bangla_weekday_name(3)[0] != bangla_weekday_name(6)[0]);
    assert(bangla_weekday_name(4).len() != bangla_weekday_name(5).len());
    assert(bangla_weekday_name(4).len() != bangla_weekday_name(6).len());
    assert(bangla_weekday_name(5).len() != bangla_weekday_name(6).len());
}

/// Every Bangla weekday name ends in "বার" (day).
pub proof fn lemma_bangla_weekday_names_end_in_bar(w: int)
    requires
        0 <= w <= 6,
    ensures
        bangla_weekday_name(w).len() > 3,
        bangla_weekday_name(w).subrange(bangla_weekday_name(w).len() - 3, bangla_weekday_name(w).len() as int) == "বার"@,
{
    reveal_strlit("বার");
    reveal_strlit("রবিবার");
    reveal_strlit("সোমবার");
    reveal_strlit("মঙ্গলবার");
    reveal_strlit("বুধবার");
    reveal_strlit("বৃহস্পতিবার");
    reveal_strlit("শুক্রবার");
    reveal_strlit("শনিবার");
    assert(bangla_weekday_name(0) == "রবিবার"@);
    assert(bangla_weekday_name(1) == "সোমবার"@);
    assert(bangla_weekday_name(2) == "মঙ্গলবার"@);
    assert(bangla_weekday_name(3) == "বুধবার"@);
    assert(bangla_weekday_name(4) == "বৃহস্পতিবার"@);
    assert(bangla_weekday_name(5) == "শুক্রবার"@);
    assert(bangla_weekday_name(6) == "শনিবার"@);
    assert(bangla_weekday_name(w).subrange(bangla_weekday_name(w).len() - 3, bangla_weekday_name(w).len() as int) =~= "বার"@);
}

/// The Bangla months follow the Bangla year. Boishakh opens it, on Pohela Boishakh, and
/// Choitro closes it; each month is named for the one after the month before it. Boishakh
/// to Bhadro have 31 days, and so does Choitro in a Gregorian leap year; every other month
/// has 30.
pub proof fn lemma_bangla_month_names_in_order(gregorian_year: int, m: int)
    requires
        0 <= m <= 11,
    ensures
        (bangla_month_name(m) == "বৈশাখ"@) <==> m == 0,
        (bangla_month_name(m) == "চৈত্র"@) <==> m == 11,
        m > 0 ==> ((bangla_month_name(m) == "জ্যৈষ্ঠ"@) <==> (bangla_month_name(m - 1) == "বৈশাখ"@)),
        m > 0 ==> ((bangla_month_name(m) == "আষাঢ়"@) <==> (bangla_month_name(m - 1) == "জ্যৈষ্ঠ"@)),
        m > 0 ==> ((bangla_month_name(m) == "শ্রাবণ"@) <==> (bangla_month_name(m - 1) == "আষাঢ়"@)),
        m > 0 ==> ((bangla_month_name(m) == "ভাদ্র"@) <==> (bangla_month_name(m - 1) == "শ্রাবণ"@)),
        m > 0 ==> ((bangla_month_name(m) == "আশ্বিন"@) <==> (bangla_month_name(m - 1) == "ভাদ্র"@)),
        m > 0 ==> ((bangla_month_name(m) == "কার্তিক"@) <==> (bangla_month_name(m - 1) == "আশ্বিন"@)),
        m > 0 ==> ((bangla_month_name(m) == "অগ্রহায়ণ"@) <==> (bangla_month_name(m - 1) == "কার্তিক"@)),
        m > 0 ==> ((bangla_month_name(m) == "পৌষ"@) <==> (bangla_month_name(m - 1) == "অগ্রহায়ণ"@)),
        m > 0 ==> ((bangla_month_name(m) == "মাঘ"@) <==> (bangla_month_name(m - 1) == "পৌষ"@)),
        m > 0 ==> ((bangla_month_name(m) == "ফাল্গুন"@) <==> (bangla_month_name(m - 1) == "মাঘ"@)),
        m > 0 ==> ((bangla_month_name(m) == "চৈত্র"@) <==> (bangla_month_name(m - 1) == "ফাল্গুন"@)),
        (bangla_month_len(gregorian_year, m) == 31) <==> (bangla_month_name(m) == "বৈশাখ"@ || bangla_month_name(m) == "জ্যৈষ্ঠ"@ || bangla_month_name(m) == "আষাঢ়"@ || bangla_month_name(m) == "শ্রাবণ"@ || bangla_month_name(m) == "ভাদ্র"@
            || (bangla_month_name(m) == "চৈত্র"@ && is_leap_year_spec(gregorian_year))),
        bangla_month_len(gregorian_year, m) == 30 || bangla_month_len(gregorian_year, m) == 31,
{
    reveal_strlit("বৈশাখ");
    reveal_strlit("জ্যৈষ্ঠ");
    reveal_strlit("আষাঢ়");
    reveal_strlit("শ্রাবণ");
    reveal_strlit("ভাদ্র");
    reveal_strlit("আশ্বিন");
    reveal_strlit("কার্তিক");
    reveal_strlit("অগ্রহায়ণ");
    reveal_strlit("পৌষ");
    reveal_strlit("মাঘ");
    reveal_strlit("ফাল্গুন");
    reveal_strlit("চৈত্র");
    assert(bangla_month_name(0) == "বৈশাখ"@);
    assert(bangla_month_name(1) == "জ্যৈষ্ঠ"@);
    assert(bangla_month_name(2) == "আষাঢ়"@);
    assert(bangla_month_name(3) == "শ্রাবণ"@);
    assert(bangla_month_name(4) == "ভাদ্র"@);
    assert(bangla_month_name(5) == "আশ্বিন"@);
    assert(bangla_month_name(6) == "কার্তিক"@);
    assert(bangla_month_name(7) == "অগ্রহায়ণ"@);
    assert(bangla_month_name(8) == "পৌষ"@);
    assert(bangla_month_name(9) == "মাঘ"@);
    assert(bangla_month_name(10) == "ফাল্গুন"@);
    assert(bangla_month_name(11) == "চৈত্র"@);
    assert forall|i: int, j: int| 0 <= i <= 11 && 0 <= j <= 11 && #[trigger] bangla_month_name(i) == #[trigger] bangla_month_name(j) implies i == j by {
        lemma_bangla_month_names_distinct(i, j);
    }
}

/// The Bangla ordinal of a day of the month: the 1st alone takes লা, the 2nd and 3rd take
/// রা, the 4th alone takes ঠা, and every later day takes ই.
pub proof fn lemma_ordinal_suffixes(day: int)
    requires
        1 <= day <= 31,
    ensures
        (ordinal_suffix(day) == "লা"@) <==> day == 1,
        (ordinal_suffix(day) == "রা"@) <==> (day == 2 || day == 3),
        (ordinal_suffix(day) == "ঠা"@) <==> day == 4,
        (ordinal_suffix(day) == "ই"@) <==> day >= 5,
{
    reveal_strlit("লা");
    reveal_strlit("রা");
    reveal_strlit("ঠা");
    reveal_strlit("ই");
    assert("লা"@[0] != "রা"@[0]);
    assert("লা"@[0] != "ঠা"@[0]);
    assert("রা"@[0] != "ঠা"@[0]);
    assert("লা"@.len() != "ই"@.len());
    assert("রা"@.len() != "ই"@.len());
    assert("ঠা"@.len() != "ই"@.len());
}

/// The Bangla name of a day of the week given as days since Sunday.
pub fn bangla_weekday(weekday: u32) -> (name: &'static str)
    requires
        weekday < 7,
    ensures
        name@ == bangla_weekday_name(weekday as int),
{
    match weekday {
        0 => "রবিবার",
        1 => "সোমবার",
        2 => "মঙ্গলবার",
        3 => "বুধবার",
        4 => "বৃহস্পতিবার",
        5 => "শুক্রবার",
        _ => "শনিবার",
    }
}

/// Get the Bangla weekday name
pub fn get_bangla_weekday(dt: LocalDateTime) -> (name: &'static str)
    requires
        dt.wf(),
    ensures
        name@ == bangla_weekday_name(dt.civil().6),
{
    let local = local_civil_time(dt.timestamp, dt.offset_seconds);
    bangla_weekday(local.weekday)
}

fn gregorian_month_name(month: u32, use_bangla_names: bool) -> (name: &'static str)
    requires
        1 <= month <= 12,
    ensures
        name@ == if use_bangla_names {
            bangla_english_month_name(month as int)
        } else {
            english_month_name(month as int)
        },
{
    if use_bangla_names {
        match month {
            1 => "জানুয়ারি",
            2 => "ফেব্রুয়ারি",
            3 => "মার্চ",
            4 => "এপ্রিল",
            5 => "মে",
            6 => "জুন",
            7 => "জুলাই",
            8 => "আগস্ট",
            9 => "সেপ্টেম্বর",
            10 => "অক্টোবর",
            11 => "নভেম্বর",
            _ => "ডিসেম্বর",
        }
    } else {
        match month {
            1 => "January",
            2 => "February",
            3 => "March",
            4 => "April",
            5 => "May",
            6 => "June",
            7 => "July",
            8 => "August",
            9 => "September",
            10 => "October",
            11 => "November",
            _ => "December",
        }
    }
}

/// Format a Gregorian date given by its year, month (1 = January) and day.
pub fn format_gregorian_ymd(
    year: i32,
    month: u32,
    day: u32,
    use_bangla_names: bool,
    use_bangla_numerals: bool,
) -> (text: String)
    requires
        1 <= month <= 12,
    ensures
        text@ == gregorian_date_text(
            year as int,
            month as int,
            day as int,
            use_bangla_names,
            use_bangla_numerals,
        ),
{
    let day_str = number_text(day as i64, use_bangla_numerals);
    let month_name = gregorian_month_name(month, use_bangla_names);
    let year_str = number_text(year as i64, use_bangla_numerals);
    let suffix = if use_bangla_names {
        " ঈসায়ী"
    } else {
        ""
    };
    let mut text = day_str;
    text.append(" ");
    text.append(month_name);
    text.append(" ");
    text.append(year_str.as_str());
    text.append(suffix);
    text
}

/// Format Gregorian date
pub fn format_gregorian_date(dt: LocalDateTime, use_bangla_names: bool, use_bangla_numerals: bool) -> (text: String)
    requires
        dt.wf(),
    ensures
        text@ == gregorian_date_text(
            dt.civil().0,
            dt.civil().1,
            dt.civil().2,
            use_bangla_names,
            use_bangla_numerals,
        ),
{
    let local = local_civil_time(dt.timestamp, dt.offset_seconds);
    format_gregorian_ymd(local.year, local.month, local.day, use_bangla_names, use_bangla_numerals)
}

} // verus!
