//! Clock time formatting
//!
//! Each text of the clock face has two functions: one that reads the fields of the current
//! date-time it is given (`get_*`), and one that builds the text from those fields (`*_at`).
use crate::bangla_date::{
    region_date_in_range,
    bangla_date_at, bangla_season_name, bangla_weekday, bangla_weekday_name, format_gregorian_date,
    gregorian_date_text, ordinal_suffix, BanglaDate,
};
use crate::calendar::{day_number, instant_fields, local_civil_time, unix_epoch_day_number, LocalDateTime};
use crate::config::Config;
use crate::text::{numerals, push_two_digit, to_bangla_digits, two_digit};
use vstd::prelude::*;

verus! {

/// The part of the day an hour (0-23) belongs to:
/// 0 dawn (4-5), 1 morning (6-11), 2 noon (12-14), 3 afternoon (15-17), 4 evening (18-19),
/// 5 night (20-3).
pub open spec fn time_period_of(hour: int) -> int {
    if 4 <= hour <= 5 {
        0
    } else if 6 <= hour <= 11 {
        1
    } else if 12 <= hour <= 14 {
        2
    } else if 15 <= hour <= 17 {
        3
    } else if 18 <= hour <= 19 {
        4
    } else {
        5
    }
}

/// Names of the parts of the day, in Bangla or English.
pub open spec fn time_period_name(period: int, use_bangla_names: bool) -> Seq<char> {
    if use_bangla_names {
        if period == 0 {
            "ভোর"@
        } else if period == 1 {
            "সকাল"@
        } else if period == 2 {
            "দুপুর"@
        } else if period == 3 {
            "বিকাল"@
        } else if period == 4 {
            "সন্ধ্যা"@
        } else {
            "রাত"@
        }
    } else {
        if period == 0 {
            "Dawn"@
        } else if period == 1 {
            "Morning"@
        } else if period == 2 {
            "Noon"@
        } else if period == 3 {
            "Afternoon"@
        } else if period == 4 {
            "Evening"@
        } else {
            "Night"@
        }
    }
}

/// The seven days of the week have seven different English names.
pub proof fn lemma_english_weekday_names_distinct(a: int, b: int)
    requires
        0 <= a <= 6,
        0 <= b <= 6,
        english_weekday_name(a) == english_weekday_name(b),
    ensures
        a == b,
{
    reveal_strlit("Sunday");
    reveal_strlit("Monday");
    reveal_strlit("Tuesday");
    reveal_strlit("Wednesday");
    reveal_strlit("Thursday");
    reveal_strlit("Friday");
    reveal_strlit("Saturday");
    assert(english_weekday_name(0)[0] != english_weekday_name(1)[0]);
    assert(english_weekday_name(0).len() != english_weekday_name(2).len());
    assert(english_weekday_name(0).len() != english_weekday_name(3).len());
    assert(english_weekday_name(0).len() != english_weekday_name(4).len());
    assert(english_weekday_name(0)[0] != english_weekday_name(5)[0]);
    assert(english_weekday_name(0).len() != english_weekday_name(6).len());
    assert(english_weekday_name(1).len() != english_weekday_name(2).len());
    assert(english_weekday_name(1).len() != english_weekday_name(3).len());
    assert(english_weekday_name(1).len() != english_weekday_name(4).len());
    assert(english_weekday_name(1)[0] != english_weekday_name(5)[0]);
    assert(english_weekday_name(1).len() != english_weekday_name(6).len());
    assert(english_weekday_name(2).len() != english_weekday_name(3).len());
    assert(english_weekday_name(2).len() != english_weekday_name(4).len());
    assert(english_weekday_name(2).len() != english_weekday_name(5).len());
    assert(english_weekday_name(2).len() != english_weekday_name(6).len());
    assert(english_weekday_name(3).len() != english_weekday_name(4).len());
    assert(english_weekday_name(3).len() != english_weekday_name(5).len());
    assert(english_weekday_name(3).len() != english_weekday_name(6).len());
    assert(english_weekday_name(4).len() != english_weekday_name(5).len());
    assert(english_weekday_name(4)[0] != english_weekday_name(6)[0]);
    assert(english_weekday_name(5).len() != english_weekday_name(6).len());
}

/// The weekday names run through the week in order, Sunday to Saturday and round again,
/// and each day has the English name and the Bangla name of the same day.
pub proof fn lemma_weekday_names_in_order(w: int)
    requires
        0 <= w <= 6,
    ensures
        (english_weekday_name((w + 1) % 7) == "Monday"@) <==> (english_weekday_name(w) == "Sunday"@),
        (english_weekday_name((w + 1) % 7) == "Tuesday"@) <==> (english_weekday_name(w) == "Monday"@),
        (english_weekday_name((w + 1) % 7) == "Wednesday"@) <==> (english_weekday_name(w) == "Tuesday"@),
        (english_weekday_name((w + 1) % 7) == "Thursday"@) <==> (english_weekday_name(w) == "Wednesday"@),
        (english_weekday_name((w + 1) % 7) == "Friday"@) <==> (english_weekday_name(w) == "Thursday"@),
        (english_weekday_name((w + 1) % 7) == "Saturday"@) <==> (english_weekday_name(w) == "Friday"@),
        (english_weekday_name((w + 1) % 7) == "Sunday"@) <==> (english_weekday_name(w) == "Saturday"@),
        (english_weekday_name(w) == "Sunday"@) <==> (bangla_weekday_name(w) == "রবিবার"@),
        (english_weekday_name(w) == "Monday"@) <==> (bangla_weekday_name(w) == "সোমবার"@),
        (english_weekday_name(w) == "Tuesday"@) <==> (bangla_weekday_name(w) == "মঙ্গলবার"@),
        (english_weekday_name(w) == "Wednesday"@) <==> (bangla_weekday_name(w) == "বুধবার"@),
        (english_weekday_name(w) == "Thursday"@) <==> (bangla_weekday_name(w) == "বৃহস্পতিবার"@),
        (english_weekday_name(w) == "Friday"@) <==> (bangla_weekday_name(w) == "শুক্রবার"@),
        (english_weekday_name(w) == "Saturday"@) <==> (bangla_weekday_name(w) == "শনিবার"@),
{
    reveal_strlit("Sunday");
    reveal_strlit("Monday");
    reveal_strlit("Tuesday");
    reveal_strlit("Wednesday");
    reveal_strlit("Thursday");
    reveal_strlit("Friday");
    reveal_strlit("Saturday");
    assert(english_weekday_name(0) == "Sunday"@);
    assert(english_weekday_name(1) == "Monday"@);
    assert(english_weekday_name(2) == "Tuesday"@);
    assert(english_weekday_name(3) == "Wednesday"@);
    assert(english_weekday_name(4) == "Thursday"@);
    assert(english_weekday_name(5) == "Friday"@);
    assert(english_weekday_name(6) == "Saturday"@);
    reveal_strlit("রবিবার");
    reveal_strlit("সোমবার");
    reveal_strlit("মঙ্গলবার");
    reveal_strlit("বুধবার");
    reveal_strlit("বৃহস্পতিবার");
    reveal_strlit("শুক্রবার");
    reveal_strlit("শনিবার");
    assert(bangla_weekday_name(0) == "রবিবার"@);
    assert(bangla_weekday_name(1) == "সোমবার"@);
    assert(bangla_weekday_name(2) == "মঙ্গলবার"@);
    assert(bangla_weekday_name(3) == "বুধবার"@);
    assert(bangla_weekday_name(4) == "বৃহস্পতিবার"@);
    assert(bangla_weekday_name(5) == "শুক্রবার"@);
    assert(bangla_weekday_name(6) == "শনিবার"@);
    assert forall|i: int, j: int| 0 <= i <= 6 && 0 <= j <= 6 && #[trigger] english_weekday_name(i) == #[trigger] english_weekday_name(j) implies i == j by {
        lemma_english_weekday_names_distinct(i, j);
    }
    assert forall|i: int, j: int| 0 <= i <= 6 && 0 <= j <= 6 && #[trigger] bangla_weekday_name(i) == #[trigger] bangla_weekday_name(j) implies i == j by {
        crate::bangla_date::lemma_bangla_weekday_names_distinct(i, j);
    }
}

/// 1 January 1970 was a Thursday: a local date a whole number of weeks from it is a
/// Thursday (বৃহস্পতিবার), whatever the instant and offset it was read at.
pub proof fn lemma_weeks_from_the_epoch_are_thursdays(
    fields: (int, int, int, int, int, int, int),
    timestamp: int,
    offset_seconds: int,
)
    requires
        instant_fields(fields, timestamp, offset_seconds),
        (day_number(fields.0, fields.1, fields.2) - unix_epoch_day_number()) % 7 == 0,
    ensures
        english_weekday_name(fields.6) == "Thursday"@,
        bangla_weekday_name(fields.6) == "বৃহস্পতিবার"@,
{
}

/// The six parts of the day have six different Bangla names.
pub proof fn lemma_bangla_time_period_names_distinct(a: int, b: int)
    requires
        0 <= a <= 5,
        0 <= b <= 5,
        time_period_name(a, true) == time_period_name(b, true),
    ensures
        a == b,
{
    reveal_strlit("ভোর");
    reveal_strlit("সকাল");
    reveal_strlit("দুপুর");
    reveal_strlit("বিকাল");
    reveal_strlit("সন্ধ্যা");
    reveal_strlit("রাত");
    assert(time_period_name(0, true).len() != time_period_name(1, true).len());
    assert(time_period_name(0, true).len() != time_period_name(2, true).len());
    assert(time_period_name(0, true).len() != time_period_name(3, true).len());
    assert(time_period_name(0, true).len() != time_period_name(4, true).len());
    assert(time_period_name(0, true)[0] != time_period_name(5, true)[0]);
    assert(time_period_name(1, true).len() != time_period_name(2, true).len());
    assert(time_period_name(1, true).len() != time_period_name(3, true).len());
    assert(time_period_name(1, true).len() != time_period_name(4, true).len());
    assert(time_period_name(1, true).len() != time_period_name(5, true).len());
    assert(time_period_name(2, true)[0] != time_period_name(3, true)[0]);
    assert(time_period_name(2, true).len() != time_period_name(4, true).len());
    assert(time_period_name(2, true).len() != time_period_name(5, true).len());
    assert(time_period_name(3, true).len() != time_period_name(4, true).len());
    assert(time_period_name(3, true).len() != time_period_name(5, true).len());
    assert(time_period_name(4, true).len() != time_period_name(5, true).len());
}

/// The six parts of the day have six different English names.
pub proof fn lemma_english_time_period_names_distinct(a: int, b: int)
    requires
        0 <= a <= 5,
        0 <= b <= 5,
        time_period_name(a, false) == time_period_name(b, false),
    ensures
        a == b,
{
    reveal_strlit("Dawn");
    reveal_strlit("Morning");
    reveal_strlit("Noon");
    reveal_strlit("Afternoon");
    reveal_strlit("Evening");
    reveal_strlit("Night");
    assert(time_period_name(0, false).len() != time_period_name(1, false).len());
    assert(time_period_name(0, false)[0] != time_period_name(2, false)[0]);
    assert(time_period_name(0, false).len() != time_period_name(3, false).len());
    assert(time_period_name(0, false).len() != time_period_name(4, false).len());
    assert(time_period_name(0, false).len() != time_period_name(5, false).len());
    assert(time_period_name(1, false).len() != time_period_name(2, false).len());
    assert(time_period_name(1, false).len() != time_period_name(3, false).len());
    assert(time_period_name(1, false)[0] != time_period_name(4, false)[0]);
    assert(time_period_name(1, false).len() != time_period_name(5, false).len());
    assert(time_period_name(2, false).len() != time_period_name(3, false).len());
    assert(time_period_name(2, false).len() != time_period_name(4, false).len());
    assert(time_period_name(2, false).len() != time_period_name(5, false).len());
    assert(time_period_name(3, false).len() != time_period_name(4, false).len());
    assert(time_period_name(3, false).len() != time_period_name(5, false).len());
    assert(time_period_name(4, false).len() != time_period_name(5, false).len());
}

/// Each hour of the day is named for its part of the day: dawn (ভোর) 4-5, morning (সকাল)
/// 6-11, noon (দুপুর) 12-14, afternoon (বিকাল) 15-17, evening (সন্ধ্যা) 18-19, night (রাত)
/// 20-3.
pub proof fn lemma_time_period_names_by_hour(hour: int)
    requires
        0 <= hour <= 23,
    ensures
        (time_period_name(time_period_of(hour), true) == "ভোর"@) <==> 4 <= hour <= 5,
        (time_period_name(time_period_of(hour), true) == "সকাল"@) <==> 6 <= hour <= 11,
        (time_period_name(time_period_of(hour), true) == "দুপুর"@) <==> 12 <= hour <= 14,
        (time_period_name(time_period_of(hour), true) == "বিকাল"@) <==> 15 <= hour <= 17,
        (time_period_name(time_period_of(hour), true) == "সন্ধ্যা"@) <==> 18 <= hour <= 19,
        (time_period_name(time_period_of(hour), true) == "রাত"@) <==> (hour <= 3 || 20 <= hour),
        (time_period_name(time_period_of(hour), false) == "Dawn"@) <==> 4 <= hour <= 5,
        (time_period_name(time_period_of(hour), false) == "Morning"@) <==> 6 <= hour <= 11,
        (time_period_name(time_period_of(hour), false) == "Noon"@) <==> 12 <= hour <= 14,
        (time_period_name(time_period_of(hour), false) == "Afternoon"@) <==> 15 <= hour <= 17,
        (time_period_name(time_period_of(hour), false) == "Evening"@) <==> 18 <= hour <= 19,
        (time_period_name(time_period_of(hour), false) == "Night"@) <==> (hour <= 3 || 20 <= hour),
{
    reveal_strlit("ভোর");
    reveal_strlit("সকাল");
    reveal_strlit("দুপুর");
    reveal_strlit("বিকাল");
    reveal_strlit("সন্ধ্যা");
    reveal_strlit("রাত");
    assert(time_period_name(0, true) == "ভোর"@);
    assert(time_period_name(1, true) == "সকাল"@);
    assert(time_period_name(2, true) == "দুপুর"@);
    assert(time_period_name(3, true) == "বিকাল"@);
    assert(time_period_name(4, true) == "সন্ধ্যা"@);
    assert(time_period_name(5, true) == "রাত"@);
    reveal_strlit("Dawn");
    reveal_strlit("Morning");
    reveal_strlit("Noon");
    reveal_strlit("Afternoon");
    reveal_strlit("Evening");
    reveal_strlit("Night");
    assert(time_period_name(0, false) == "Dawn"@);
    assert(time_period_name(1, false) == "Morning"@);
    assert(time_period_name(2, false) == "Noon"@);
    assert(time_period_name(3, false) == "Afternoon"@);
    assert(time_period_name(4, false) == "Evening"@);
    assert(time_period_name(5, false) == "Night"@);
    assert forall|i: int, j: int| 0 <= i <= 5 && 0 <= j <= 5 && #[trigger] time_period_name(i, true) == #[trigger] time_period_name(j, true) implies i == j by {
        lemma_bangla_time_period_names_distinct(i, j);
    }
    assert forall|i: int, j: int| 0 <= i <= 5 && 0 <= j <= 5 && #[trigger] time_period_name(i, false) == #[trigger] time_period_name(j, false) implies i == j by {
        lemma_english_time_period_names_distinct(i, j);
    }
}

/// The six seasons have six different English names.
pub proof fn lemma_english_season_names_distinct(a: int, b: int)
    requires
        0 <= a <= 5,
        0 <= b <= 5,
        english_season_name(a) == english_season_name(b),
    ensures
        a == b,
{
    reveal_strlit("Summer");
    reveal_strlit("Monsoon");
    reveal_strlit("Autumn");
    reveal_strlit("Late Autumn");
    reveal_strlit("Winter");
    reveal_strlit("Spring");
    assert(english_season_name(0).len() != english_season_name(1).len());
    assert(english_season_name(0)[0] != english_season_name(2)[0]);
    assert(english_season_name(0).len() != english_season_name(3).len());
    assert(english_season_name(0)[0] != english_season_name(4)[0]);
    assert(english_season_name(0)[1] != english_season_name(5)[1]);
    assert(english_season_name(1).len() != english_season_name(2).len());
    assert(english_season_name(1).len() != english_season_name(3).len());
    assert(english_season_name(1).len() != english_season_name(4).len());
    assert(english_season_name(1).len() != english_season_name(5).len());
    assert(english_season_name(2).len() != english_season_name(3).len());
    assert(english_season_name(2)[0] != english_season_name(4)[0]);
    assert(english_season_name(2)[0] != english_season_name(5)[0]);
    assert(english_season_name(3).len() != english_season_name(4).len());
    assert(english_season_name(3).len() != english_season_name(5).len());
    assert(english_season_name(4)[0] != english_season_name(5)[0]);
}

/// Each season has the English name and the Bangla name of the same season.
pub proof fn lemma_season_names_agree(k: int)
    requires
        0 <= k <= 5,
    ensures
        (english_season_name(k) == "Summer"@) <==> (bangla_season_name(k) == "গ্রীষ্মকাল"@),
        (english_season_name(k) == "Monsoon"@) <==> (bangla_season_name(k) == "বর্ষাকাল"@),
        (english_season_name(k) == "Autumn"@) <==> (bangla_season_name(k) == "শরৎকাল"@),
        (english_season_name(k) == "Late Autumn"@) <==> (bangla_season_name(k) == "হেমন্তকাল"@),
        (english_season_name(k) == "Winter"@) <==> (bangla_season_name(k) == "শীতকাল"@),
        (english_season_name(k) == "Spring"@) <==> (bangla_season_name(k) == "বসন্তকাল"@),
{
    reveal_strlit("Summer");
    reveal_strlit("Monsoon");
    reveal_strlit("Autumn");
    reveal_strlit("Late Autumn");
    reveal_strlit("Winter");
    reveal_strlit("Spring");
    assert(english_season_name(0) == "Summer"@);
    assert(english_season_name(1) == "Monsoon"@);
    assert(english_season_name(2) == "Autumn"@);
    assert(english_season_name(3) == "Late Autumn"@);
    assert(english_season_name(4) == "Winter"@);
    assert(english_season_name(5) == "Spring"@);
    reveal_strlit("গ্রীষ্মকাল");
    reveal_strlit("বর্ষাকাল");
    reveal_strlit("শরৎকাল");
    reveal_strlit("হেমন্তকাল");
    reveal_strlit("শীতকাল");
    reveal_strlit("বসন্তকাল");
    assert(bangla_season_name(0) == "গ্রীষ্মকাল"@);
    assert(bangla_season_name(1) == "বর্ষাকাল"@);
    assert(bangla_season_name(2) == "শরৎকাল"@);
    assert(bangla_season_name(3) == "হেমন্তকাল"@);
    assert(bangla_season_name(4) == "শীতকাল"@);
    assert(bangla_season_name(5) == "বসন্তকাল"@);
    assert forall|i: int, j: int| 0 <= i <= 5 && 0 <= j <= 5 && #[trigger] english_season_name(i) == #[trigger] english_season_name(j) implies i == j by {
        lemma_english_season_names_distinct(i, j);
    }
    assert forall|i: int, j: int| 0 <= i <= 5 && 0 <= j <= 5 && #[trigger] bangla_season_name(i) == #[trigger] bangla_season_name(j) implies i == j by {
        crate::bangla_date::lemma_bangla_season_names_distinct(i, j);
    }
}

/// The hour shown on the clock: in 12-hour format midnight is 12 and afternoon hours
/// count from 1 again.
pub open spec fn display_hour(hour: int, use_12_hour: bool) -> int {
    if use_12_hour {
        if hour == 0 {
            12
        } else if hour > 12 {
            hour - 12
        } else {
            hour
        }
    } else {
        hour
    }
}

/// In 12-hour format every hour of the day shows as 1 to 12, the same hour modulo 12;
/// in 24-hour format it shows unchanged.
pub proof fn lemma_display_hour(hour: int)
    requires
        0 <= hour < 24,
    ensures
        1 <= display_hour(hour, true) <= 12,
        display_hour(hour, true) % 12 == hour % 12,
        display_hour(hour, false) == hour,
{
}

/// The clock text "hh:mm:ss" (or "hh:mm" without seconds), each field two digits,
/// in Bangla digits when configured.
pub open spec fn time_text(config: Config, hour: int, minute: int, second: int) -> Seq<char> {
    let h = two_digit(display_hour(hour, config.use_12_hour) as nat);
    let hm = h + ":"@ + two_digit(minute as nat);
    numerals(
        if config.show_seconds {
            hm + ":"@ + two_digit(second as nat)
        } else {
            hm
        },
        config.use_bangla_numerals,
    )
}

/// English weekday names (0 = Sunday).
pub open spec fn english_weekday_name(weekday: int) -> Seq<char> {
    if weekday == 0 {
        "Sunday"@
    } else if weekday == 1 {
        "Monday"@
    } else if weekday == 2 {
        "Tuesday"@
    } else if weekday == 3 {
        "Wednesday"@
    } else if weekday == 4 {
        "Thursday"@
    } else if weekday == 5 {
        "Friday"@
    } else {
        "Saturday"@
    }
}

/// English season names, in the order of the Bangla seasons.
pub open spec fn english_season_name(season: int) -> Seq<char> {
    if season == 0 {
        "Summer"@
    } else if season == 1 {
        "Monsoon"@
    } else if season == 2 {
        "Autumn"@
    } else if season == 3 {
        "Late Autumn"@
    } else if season == 4 {
        "Winter"@
    } else {
        "Spring"@
    }
}

/// The season of a Bangla month (0-11): two months to a season.
pub open spec fn season_text(config: Config, bangla_month: int) -> Seq<char> {
    if config.use_bangla_names {
        bangla_season_name(bangla_month / 2)
    } else {
        english_season_name(bangla_month / 2)
    }
}

/// The day line: the weekday name, followed by ", " and the season when seasons are shown.
pub open spec fn day_text(config: Config, weekday: int, bangla_month: int) -> Seq<char> {
    let day_name = if config.use_bangla_names {
        bangla_weekday_name(weekday)
    } else {
        english_weekday_name(weekday)
    };
    if config.show_season {
        day_name + ", "@ + season_text(config, bangla_month)
    } else {
        day_name
    }
}

/// The date line: the Gregorian and the Bangla date joined by "  |  " when both are shown,
/// one of them when only one is, the empty text when neither is.
pub open spec fn combined_text(config: Config, english: Seq<char>, bangla: Seq<char>) -> Seq<char> {
    if config.show_english_date && config.show_bangla_date {
        english + "  |  "@ + bangla
    } else if config.show_english_date {
        english
    } else if config.show_bangla_date {
        bangla
    } else {
        Seq::empty()
    }
}

/// The Bangla date text that `BanglaDate::format_bangla` gives.
pub open spec fn bangla_date_text(date: BanglaDate, use_bangla_numerals: bool) -> Seq<char> {
    numerals(crate::text::signed_decimal(date.day as int), use_bangla_numerals) + ordinal_suffix(
        date.day as int,
    ) + " "@ + crate::bangla_date::bangla_month_name(date.month as int) + ", "@ + numerals(
        crate::text::signed_decimal(date.year as int),
        use_bangla_numerals,
    ) + " বঙ্গাব্দ"@
}

/// Get time period index based on hour
pub fn get_time_period_index(hour: u32) -> (period: usize)
    ensures
        period == time_period_of(hour as int),
        period < 6,
{
    if 4 <= hour && hour <= 5 {
        0
    } else if 6 <= hour && hour <= 11 {
        1
    } else if 12 <= hour && hour <= 14 {
        2
    } else if 15 <= hour && hour <= 17 {
        3
    } else if 18 <= hour && hour <= 19 {
        4
    } else {
        5
    }
}

/// The time period string for an hour of the day.
pub fn time_period_string_at(config: &Config, hour: u32) -> (text: String)
    ensures
        text@ == time_period_name(time_period_of(hour as int), config.use_bangla_names),
{
    let period_idx = get_time_period_index(hour);
    let name = if config.use_bangla_names {
        match period_idx {
            0 => "ভোর",
            1 => "সকাল",
            2 => "দুপুর",
            3 => "বিকাল",
            4 => "সন্ধ্যা",
            _ => "রাত",
        }
    } else {
        match period_idx {
            0 => "Dawn",
            1 => "Morning",
            2 => "Noon",
            3 => "Afternoon",
            4 => "Evening",
            _ => "Night",
        }
    };
    String::from_str(name)
}

/// Get the time period string (সকাল/দুপুর/বিকাল/রাত) of the given local date-time
pub fn get_time_period_string(config: &Config, now: &LocalDateTime) -> (text: String)
    requires
        now.wf(),
    ensures
        text@ == time_period_name(time_period_of(now.civil().3), config.use_bangla_names),
{
    let local = local_civil_time(now.timestamp, now.offset_seconds);
    time_period_string_at(config, local.hour)
}

/// The clock text for a time of day, formatted according to config.
pub fn time_string_at(config: &Config, hour: u32, minute: u32, second: u32) -> (text: String)
    requires
        hour < 24,
        minute < 60,
        second < 60,
    ensures
        text@ == time_text(*config, hour as int, minute as int, second as int),
{
    let mut hour = hour;
    // Convert to 12-hour format if enabled
    if config.use_12_hour {
        hour = if hour == 0 {
            12
        } else if hour > 12 {
            hour - 12
        } else {
            hour
        };
    }
    let mut time_str = String::new();
    push_two_digit(&mut time_str, hour);
    time_str.append(":");
    push_two_digit(&mut time_str, minute);
    if config.show_seconds {
        time_str.append(":");
        push_two_digit(&mut time_str, second);
    }
    if config.use_bangla_numerals {
        to_bangla_digits(time_str.as_str())
    } else {
        time_str
    }
}

/// Get the time of the given local date-time formatted according to config
pub fn get_time_string(config: &Config, now: &LocalDateTime) -> (text: String)
    requires
        now.wf(),
    ensures
        text@ == time_text(*config, now.civil().3, now.civil().4, now.civil().5),
{
    let local = local_civil_time(now.timestamp, now.offset_seconds);
    time_string_at(config, local.hour, local.minute, local.second)
}

/// The season string of a Bangla date.
pub fn season_string_at(config: &Config, bangla_date: &BanglaDate) -> (text: String)
    requires
        bangla_date.month < 12,
    ensures
        text@ == season_text(*config, bangla_date.month as int),
{
    if config.use_bangla_names {
        String::from_str(bangla_date.get_season())
    } else {
        let name = match bangla_date.month / 2 {
            0 => "Summer",
            1 => "Monsoon",
            2 => "Autumn",
            3 => "Late Autumn",
            4 => "Winter",
            _ => "Spring",
        };
        String::from_str(name)
    }
}

/// Get the season string of the given local date-time
pub fn get_season_string(config: &Config, now: &LocalDateTime) -> (text: String)
    requires
        now.wf(),
        region_date_in_range(now.timestamp as int, config.calendar_region),
    ensures
        forall|b: BanglaDate|
            bangla_date_at(now.timestamp as int, config.calendar_region, b) ==> text@
                == season_text(*config, b.month as int),
{
    let bangla_date = BanglaDate::from_local_with_region(*now, config.calendar_region);
    proof {
        assert forall|b: BanglaDate|
            bangla_date_at(now.timestamp as int, config.calendar_region, b) implies b
            == bangla_date by {
            crate::bangla_date::lemma_bangla_date_unique(
                now.timestamp as int,
                config.calendar_region,
                b,
                bangla_date,
            );
        }
    }
    season_string_at(config, &bangla_date)
}

/// The day line for a weekday (days since Sunday) and the Bangla month of the day.
pub fn day_string_at(config: &Config, weekday: u32, bangla_date: &BanglaDate) -> (text: String)
    requires
        weekday < 7,
        bangla_date.month < 12,
    ensures
        text@ == day_text(*config, weekday as int, bangla_date.month as int),
{
    let day_name = if config.use_bangla_names {
        String::from_str(bangla_weekday(weekday))
    } else {
        let name = match weekday {
            0 => "Sunday",
            1 => "Monday",
            2 => "Tuesday",
            3 => "Wednesday",
            4 => "Thursday",
            5 => "Friday",
            _ => "Saturday",
        };
        String::from_str(name)
    };
    if config.show_season {
        // Combine day and season: "সোমবার, শীতকাল"
        let season = season_string_at(config, bangla_date);
        let mut text = day_name;
        text.append(", ");
        text.append(season.as_str());
        text
    } else {
        day_name
    }
}

/// Get the day of week of the given local date-time formatted according to config.
/// If show_season is set, combines day and season on the same line.
pub fn get_day_string(config: &Config, now: &LocalDateTime) -> (text: String)
    requires
        now.wf(),
        region_date_in_range(now.timestamp as int, config.calendar_region),
    ensures
        forall|b: BanglaDate|
            bangla_date_at(now.timestamp as int, config.calendar_region, b) ==> text@
                == day_text(*config, now.civil().6, b.month as int),
{
    let local = local_civil_time(now.timestamp, now.offset_seconds);
    let bangla_date = BanglaDate::from_local_with_region(*now, config.calendar_region);
    proof {
        assert forall|b: BanglaDate|
            bangla_date_at(now.timestamp as int, config.calendar_region, b) implies b
            == bangla_date by {
            crate::bangla_date::lemma_bangla_date_unique(
                now.timestamp as int,
                config.calendar_region,
                b,
                bangla_date,
            );
        }
    }
    day_string_at(config, local.weekday, &bangla_date)
}

/// The date line from the Gregorian date text and the Bangla date.
pub fn combined_date_string_at(config: &Config, english: String, bangla_date: &BanglaDate) -> (text: String)
    requires
        bangla_date.month < 12,
    ensures
        text@ == combined_text(*config, english@, bangla_date_text(*bangla_date, config.use_bangla_numerals)),
{
    let bangla_part = bangla_date.format_bangla(config.use_bangla_numerals);
    if config.show_english_date && config.show_bangla_date {
        let mut text = english;
        text.append("  |  ");
        text.append(bangla_part.as_str());
        text
    } else if config.show_english_date {
        english
    } else if config.show_bangla_date {
        bangla_part
    } else {
        String::new()
    }
}

/// Get the combined date string (English | Bangla or just one) of the given local date-time
pub fn get_combined_date_string(config: &Config, now: &LocalDateTime) -> (text: String)
    requires
        now.wf(),
        region_date_in_range(now.timestamp as int, config.calendar_region),
    ensures
        forall|b: BanglaDate|
            bangla_date_at(now.timestamp as int, config.calendar_region, b) ==> text@
                == combined_text(
                *config,
                gregorian_date_text(
                    now.civil().0,
                    now.civil().1,
                    now.civil().2,
                    config.use_bangla_names,
                    config.use_bangla_numerals,
                ),
                bangla_date_text(b, config.use_bangla_numerals),
            ),
{
    let bangla_date = BanglaDate::from_local_with_region(*now, config.calendar_region);
    proof {
        assert forall|b: BanglaDate|
            bangla_date_at(now.timestamp as int, config.calendar_region, b) implies b
            == bangla_date by {
            crate::bangla_date::lemma_bangla_date_unique(
                now.timestamp as int,
                config.calendar_region,
                b,
                bangla_date,
            );
        }
    }
    let english_part = format_gregorian_date(*now, config.use_bangla_names, config.use_bangla_numerals);
    combined_date_string_at(config, english_part, &bangla_date)
}

} // verus!
