//! Gregorian calendar values and the calls into `chrono` that compute with them.
//!
//! `chrono`'s own types never appear in the library's signatures: a calendar date is a
//! [`CivilDate`], an instant is a UNIX timestamp in [`UtcDateTime`] or [`LocalDateTime`].
//! The calendar itself is modelled by day numbers of the proleptic Gregorian calendar.
//! What the library has `chrono` compute (the distance in days between two dates, the local
//! calendar fields of an instant) goes through the two trusted wrappers below, whose
//! contracts state the results over those day numbers.
use chrono::{Datelike, Timelike};
use vstd::prelude::*;

verus! {

/// The earliest year `chrono` can represent in a date.
pub const CHRONO_MIN_YEAR: i32 = -262143;

/// The latest year `chrono` can represent in a date.
pub const CHRONO_MAX_YEAR: i32 = 262142;

/// The earliest instant `chrono` can represent: 1 January of its earliest year, 00:00:00 UTC,
/// as a UNIX timestamp.
pub const MIN_TIMESTAMP_SECONDS: i64 = -8_334_601_228_800;

/// The latest instant `chrono` can represent: 31 December of its latest year, 23:59:59 UTC,
/// as a UNIX timestamp.
pub const MAX_TIMESTAMP_SECONDS: i64 = 8_210_266_876_799;

/// Gregorian leap year rule.
pub open spec fn is_leap_year_spec(year: int) -> bool {
    (year % 4 == 0 && year % 100 != 0) || year % 400 == 0
}

/// Number of days in a Gregorian month (1 = January).
pub open spec fn days_in_month_spec(year: int, month: int) -> int {
    if month == 2 {
        if is_leap_year_spec(year) { 29 } else { 28 }
    } else if month == 4 || month == 6 || month == 9 || month == 11 {
        30
    } else {
        31
    }
}

/// A valid calendar date within `chrono`'s range.
pub open spec fn valid_ymd(year: int, month: int, day: int) -> bool {
    &&& CHRONO_MIN_YEAR <= year <= CHRONO_MAX_YEAR
    &&& 1 <= month <= 12
    &&& 1 <= day <= days_in_month_spec(year, month)
}

/// A date of the proleptic Gregorian calendar (the values a `chrono::NaiveDate` holds).
#[derive(Debug, Clone, Copy, PartialEq, Eq, Structural)]
pub struct CivilDate {
    pub year: i32,
    /// 1 = January
    pub month: u32,
    /// 1-based day of the month
    pub day: u32,
}

impl CivilDate {
    /// The date is a real calendar date inside `chrono`'s range.
    pub open spec fn wf(&self) -> bool {
        valid_ymd(self.year as int, self.month as int, self.day as int)
    }

    /// Chronological order of dates: by year, then month, then day.
    pub open spec fn before(&self, other: CivilDate) -> bool {
        ||| self.year < other.year
        ||| (self.year == other.year && self.month < other.month)
        ||| (self.year == other.year && self.month == other.month && self.day < other.day)
    }

    /// Makes a date from year, month and day, or `None` when the day does not exist
    /// (for example 2023-04-31) or the year is outside `chrono`'s range.
    pub fn from_ymd_opt(year: i32, month: u32, day: u32) -> (r: Option<CivilDate>)
        ensures
            r is Some <==> valid_ymd(year as int, month as int, day as int),
            r matches Some(d) ==> d.year == year && d.month == month && d.day == day,
    {
        if year < CHRONO_MIN_YEAR || year > CHRONO_MAX_YEAR || month < 1 || month > 12 || day < 1 {
            return None;
        }
        let last: u32 = if month == 2 {
            if crate::bangla_date::BanglaDate::is_leap_year(year) { 29 } else { 28 }
        } else if month == 4 || month == 6 || month == 9 || month == 11 {
            30
        } else {
            31
        };
        if day > last {
            None
        } else {
            Some(CivilDate { year, month, day })
        }
    }

    /// Whether this date comes strictly before `other`.
    pub fn is_before(&self, other: &CivilDate) -> (r: bool)
        ensures
            r == self.before(*other),
    {
        self.year < other.year || (self.year == other.year && self.month < other.month) || (
        self.year == other.year && self.month == other.month && self.day < other.day)
    }
}

/// The date is a real date of the proleptic Gregorian calendar, in any year.
pub open spec fn calendar_date(year: int, month: int, day: int) -> bool {
    1 <= month <= 12 && 1 <= day <= days_in_month_spec(year, month)
}

/// Chronological order of (year, month, day) triples: by year, then month, then day.
pub open spec fn ymd_before(a: (int, int, int), b: (int, int, int)) -> bool {
    ||| a.0 < b.0
    ||| (a.0 == b.0 && a.1 < b.1)
    ||| (a.0 == b.0 && a.1 == b.1 && a.2 < b.2)
}

/// Days from 1 January of year 1 to 1 January of `year`, in the proleptic Gregorian
/// calendar (negative for earlier years).
pub open spec fn days_before_year(year: int) -> int {
    let y = year - 1;
    365 * y + y / 4 - y / 100 + y / 400
}

/// Days of `year` that pass before month `month` (1 = January) begins.
pub open spec fn days_before_gregorian_month(year: int, month: int) -> int
    decreases month,
{
    if month <= 1 {
        0
    } else {
        days_before_gregorian_month(year, month - 1) + days_in_month_spec(year, month - 1)
    }
}

/// The day number of a date: 1 for 1 January of year 1, one more for each day after it
/// (`chrono` calls it the number of days from the Common Era).
pub open spec fn day_number(year: int, month: int, day: int) -> int {
    days_before_year(year) + days_before_gregorian_month(year, month) + day
}

/// The day number of 1 January 1970, the UNIX epoch.
pub open spec fn unix_epoch_day_number() -> int {
    719163
}

/// The date that follows `year`-`month`-`day`.
pub open spec fn next_ymd(year: int, month: int, day: int) -> (int, int, int) {
    if day < days_in_month_spec(year, month) {
        (year, month, day + 1)
    } else if month < 12 {
        (year, month + 1, 1)
    } else {
        (year + 1, 1, 1)
    }
}

/// A year has 366 days in a leap year and 365 otherwise.
pub proof fn lemma_year_length(year: int)
    ensures
        days_before_year(year + 1) == days_before_year(year) + if is_leap_year_spec(year) {
            366int
        } else {
            365int
        },
        days_before_gregorian_month(year, 13) == if is_leap_year_spec(year) {
            366int
        } else {
            365int
        },
        days_before_gregorian_month(year, 4) == if is_leap_year_spec(year) {
            91int
        } else {
            90int
        },
{
    reveal_with_fuel(days_before_gregorian_month, 13);
}

proof fn lemma_days_before_year_monotone(a: int, b: int)
    requires
        a <= b,
    ensures
        days_before_year(a) + 365 * (b - a) <= days_before_year(b),
    decreases b - a,
{
    if a < b {
        lemma_days_before_year_monotone(a, b - 1);
        lemma_year_length(b - 1);
    }
}

proof fn lemma_days_before_month_monotone(year: int, i: int, j: int)
    requires
        1 <= i < j <= 13,
    ensures
        days_before_gregorian_month(year, i) + days_in_month_spec(year, i)
            <= days_before_gregorian_month(year, j),
    decreases j - i,
{
    if i + 1 < j {
        lemma_days_before_month_monotone(year, i, j - 1);
    }
}

/// The day after a date has the next day number.
pub proof fn lemma_day_number_next(year: int, month: int, day: int)
    requires
        calendar_date(year, month, day),
    ensures
        calendar_date(next_ymd(year, month, day).0, next_ymd(year, month, day).1, next_ymd(year, month, day).2),
        day_number(next_ymd(year, month, day).0, next_ymd(year, month, day).1, next_ymd(year, month, day).2)
            == day_number(year, month, day) + 1,
{
    lemma_year_length(year);
    if day == days_in_month_spec(year, month) && month == 12 {
        reveal_with_fuel(days_before_gregorian_month, 13);
    }
}

/// Day numbers follow the calendar: of two dates, the earlier one has the smaller day
/// number, and two dates with the same day number are the same date.
pub proof fn lemma_day_number_order(a: (int, int, int), b: (int, int, int))
    requires
        calendar_date(a.0, a.1, a.2),
        calendar_date(b.0, b.1, b.2),
    ensures
        ymd_before(a, b) <==> day_number(a.0, a.1, a.2) < day_number(b.0, b.1, b.2),
        a == b <==> day_number(a.0, a.1, a.2) == day_number(b.0, b.1, b.2),
{
    if ymd_before(a, b) {
        lemma_day_number_before(a, b);
    } else if ymd_before(b, a) {
        lemma_day_number_before(b, a);
    }
}

proof fn lemma_day_number_before(a: (int, int, int), b: (int, int, int))
    requires
        calendar_date(a.0, a.1, a.2),
        calendar_date(b.0, b.1, b.2),
        ymd_before(a, b),
    ensures
        day_number(a.0, a.1, a.2) < day_number(b.0, b.1, b.2),
{
    if a.0 < b.0 {
        lemma_days_before_month_monotone(a.0, a.1, 13);
        lemma_year_length(a.0);
        lemma_days_before_year_monotone(a.0 + 1, b.0);
        if b.1 > 1 {
            lemma_days_before_month_monotone(b.0, 1, b.1);
        }
    } else if a.1 < b.1 {
        lemma_days_before_month_monotone(a.0, a.1, b.1);
    }
}

/// A date whose day number lies from the day before `chrono`'s first date to the day after
/// its last date falls in a year from the one before `chrono`'s first to the one after its
/// last.
proof fn lemma_year_of_day_number(year: int, month: int, day: int)
    requires
        calendar_date(year, month, day),
        day_number(CHRONO_MIN_YEAR - 1, 12, 31) <= day_number(year, month, day),
        day_number(year, month, day) <= day_number(CHRONO_MAX_YEAR + 1, 1, 1),
    ensures
        CHRONO_MIN_YEAR - 1 <= year <= CHRONO_MAX_YEAR + 1,
{
    lemma_day_number_order((year, month, day), (CHRONO_MIN_YEAR - 1, 12, 31));
    lemma_day_number_order((year, month, day), (CHRONO_MAX_YEAR + 1, 1, 1));
}

/// The same day of April a year later is as many days later as the year from one to the
/// other has: 366 when that span holds 29 February, 365 otherwise.
pub proof fn lemma_april_a_year_later(year: int, day: int)
    ensures
        day_number(year + 1, 4, day) - day_number(year, 4, day) == if is_leap_year_spec(year + 1) {
            366int
        } else {
            365int
        },
{
    lemma_year_length(year);
    lemma_year_length(year + 1);
}

/// Calls `chrono::NaiveDate::from_ymd_opt` for both dates (both valid, so neither call
/// fails), subtracts them with `NaiveDate`'s `Sub` impl (`signed_duration_since`) and takes
/// `TimeDelta::num_days`.
///
/// Claimed of it: `chrono` counts days in the proleptic Gregorian calendar, so the result is
/// the difference of the two dates' day numbers.
#[verifier::external_body]
pub(crate) fn chrono_day_difference(later: CivilDate, earlier: CivilDate) -> (days: i64)
    requires
        later.wf(),
        earlier.wf(),
    ensures
        days == day_number(later.year as int, later.month as int, later.day as int) - day_number(
            earlier.year as int,
            earlier.month as int,
            earlier.day as int,
        ),
{
    let a = chrono::NaiveDate::from_ymd_opt(later.year, later.month, later.day).unwrap();
    let b = chrono::NaiveDate::from_ymd_opt(earlier.year, earlier.month, earlier.day).unwrap();
    (a - b).num_days()
}

/// An instant, held as a UNIX timestamp (the value a `chrono::DateTime<Utc>` denotes).
#[derive(Debug, Clone, Copy, PartialEq, Eq, Structural)]
pub struct UtcDateTime {
    /// Seconds since 1970-01-01 00:00:00 UTC
    pub timestamp: i64,
}

impl UtcDateTime {
    pub open spec fn wf(&self) -> bool {
        MIN_TIMESTAMP_SECONDS <= self.timestamp <= MAX_TIMESTAMP_SECONDS
    }
}

/// An instant together with the offset of the local time zone at that instant
/// (the values a `chrono::DateTime<Local>` denotes).
#[derive(Debug, Clone, Copy, PartialEq, Eq, Structural)]
pub struct LocalDateTime {
    /// Seconds since 1970-01-01 00:00:00 UTC
    pub timestamp: i64,
    /// Local time minus UTC, in seconds
    pub offset_seconds: i32,
}

impl LocalDateTime {
    pub open spec fn wf(&self) -> bool {
        &&& MIN_TIMESTAMP_SECONDS <= self.timestamp <= MAX_TIMESTAMP_SECONDS
        &&& -86400 < self.offset_seconds < 86400
    }
}

/// The calendar and clock fields of an instant seen at a fixed offset from UTC.
#[derive(Debug, Clone, Copy, PartialEq, Eq, Structural)]
pub struct CivilTime {
    pub year: i32,
    /// 1 = January
    pub month: u32,
    /// 1-based day of the month
    pub day: u32,
    pub hour: u32,
    pub minute: u32,
    pub second: u32,
    /// Days since Sunday (0 = Sunday, 6 = Saturday)
    pub weekday: u32,
}

impl CivilTime {
    /// The fields as plain integers.
    pub open spec fn fields(&self) -> (int, int, int, int, int, int, int) {
        (
            self.year as int,
            self.month as int,
            self.day as int,
            self.hour as int,
            self.minute as int,
            self.second as int,
            self.weekday as int,
        )
    }
}

/// `fields` are the local (year, month, day, hour, minute, second, days since Sunday) of the
/// UNIX timestamp `timestamp` seen at `offset_seconds` from UTC: the local seconds split into
/// whole days since the epoch and seconds into the day; the days give the date by its day
/// number and, counted from Thursday 1 January 1970, the day of the week.
pub open spec fn instant_fields(
    fields: (int, int, int, int, int, int, int),
    timestamp: int,
    offset_seconds: int,
) -> bool {
    let local = timestamp + offset_seconds;
    let days = local / 86400;
    let seconds = local % 86400;
    &&& calendar_date(fields.0, fields.1, fields.2)
    &&& day_number(fields.0, fields.1, fields.2) == days + unix_epoch_day_number()
    &&& fields.3 == seconds / 3600
    &&& fields.4 == seconds % 3600 / 60
    &&& fields.5 == seconds % 60
    &&& fields.6 == (days + 4) % 7
}

/// The local calendar and clock fields of a UNIX timestamp at a fixed offset from UTC.
pub open spec fn local_fields(timestamp: int, offset_seconds: int) -> (
    int,
    int,
    int,
    int,
    int,
    int,
    int,
) {
    choose|f: (int, int, int, int, int, int, int)| instant_fields(f, timestamp, offset_seconds)
}

/// An instant has one set of local fields at a given offset.
pub proof fn lemma_instant_fields_unique(
    f: (int, int, int, int, int, int, int),
    g: (int, int, int, int, int, int, int),
    timestamp: int,
    offset_seconds: int,
)
    requires
        instant_fields(f, timestamp, offset_seconds),
        instant_fields(g, timestamp, offset_seconds),
    ensures
        f == g,
{
    lemma_day_number_order((f.0, f.1, f.2), (g.0, g.1, g.2));
}

/// Fields that fit an instant are its local fields.
pub proof fn lemma_local_fields(f: (int, int, int, int, int, int, int), timestamp: int, offset_seconds: int)
    requires
        instant_fields(f, timestamp, offset_seconds),
    ensures
        local_fields(timestamp, offset_seconds) == f,
{
    let g = local_fields(timestamp, offset_seconds);
    lemma_instant_fields_unique(f, g, timestamp, offset_seconds);
}

/// Calls `chrono::DateTime::from_timestamp(timestamp, 0)` (in `chrono`'s range, so it is
/// `Some`), `FixedOffset::east_opt(offset_seconds)` (less than a day, so it is `Some`) and
/// `DateTime::with_timezone`, then reads the `Datelike`/`Timelike` fields and
/// `weekday().num_days_from_sunday()`. Those read the local date-time through
/// `overflowing_naive_local`, which goes on to the day before `chrono`'s first date or after
/// its last when the offset carries past them, so none of the calls panics.
///
/// Claimed of it: `chrono` splits the local seconds (timestamp plus offset) with Euclidean
/// division into days and seconds of the day, dates the days from 1 January 1970 in the
/// proleptic Gregorian calendar and names the weekday from that date, so the fields are the
/// `instant_fields` of the arguments.
#[verifier::external_body]
pub(crate) fn chrono_civil_time(timestamp: i64, offset_seconds: i32) -> (t: CivilTime)
    requires
        MIN_TIMESTAMP_SECONDS <= timestamp <= MAX_TIMESTAMP_SECONDS,
        -86400 < offset_seconds < 86400,
    ensures
        instant_fields(t.fields(), timestamp as int, offset_seconds as int),
{
    let offset = chrono::FixedOffset::east_opt(offset_seconds).unwrap();
    let dt = chrono::DateTime::from_timestamp(timestamp, 0).unwrap().with_timezone(&offset);
    CivilTime {
        year: dt.year(),
        month: dt.month(),
        day: dt.day(),
        hour: dt.hour(),
        minute: dt.minute(),
        second: dt.second(),
        weekday: dt.weekday().num_days_from_sunday(),
    }
}

/// Reads the local fields of an instant through `chrono` and proves them to be the instant's
/// `local_fields`, with the bounds every caller relies on. Near the ends of `chrono`'s range
/// the local date may be the day before its first date or after its last.
pub(crate) fn local_civil_time(timestamp: i64, offset_seconds: i32) -> (t: CivilTime)
    requires
        MIN_TIMESTAMP_SECONDS <= timestamp <= MAX_TIMESTAMP_SECONDS,
        -86400 < offset_seconds < 86400,
    ensures
        t.fields() == local_fields(timestamp as int, offset_seconds as int),
        calendar_date(t.year as int, t.month as int, t.day as int),
        CHRONO_MIN_YEAR - 1 <= t.year <= CHRONO_MAX_YEAR + 1,
        t.hour < 24,
        t.minute < 60,
        t.second < 60,
        t.weekday < 7,
{
    let t = chrono_civil_time(timestamp, offset_seconds);
    proof {
        lemma_local_fields(t.fields(), timestamp as int, offset_seconds as int);
        lemma_day_number_next(CHRONO_MIN_YEAR - 1, 12, 31);
        lemma_day_number_next(CHRONO_MAX_YEAR as int, 12, 31);
        lemma_year_of_day_number(t.year as int, t.month as int, t.day as int);
    }
    t
}

impl LocalDateTime {
    /// The local calendar fields of this instant.
    pub open spec fn civil(&self) -> (int, int, int, int, int, int, int) {
        local_fields(self.timestamp as int, self.offset_seconds as int)
    }
}

} // verus!
