//! Screensaver settings: font sizes, calendar regions and the configuration record.
use vstd::prelude::*;

verus! {

/// Font size options for the clock.
#[derive(Debug, Clone, Copy, PartialEq, Eq, Structural)]
pub enum FontSize {
    /// Small font size
    Small,
    /// Regular font size (default)
    Regular,
    /// Larger font size
    Larger,
    /// Extra large font size
    ExtraLarge,
}

/// The English display name of each font size.
pub open spec fn font_size_name(size: FontSize) -> Seq<char> {
    match size {
        FontSize::Small => "Small"@,
        FontSize::Regular => "Regular"@,
        FontSize::Larger => "Larger"@,
        FontSize::ExtraLarge => "Extra Large"@,
    }
}

/// The size that follows `size` in the cycle Small, Regular, Larger, ExtraLarge, Small, ...
pub open spec fn font_size_after(size: FontSize) -> FontSize {
    match size {
        FontSize::Small => FontSize::Regular,
        FontSize::Regular => FontSize::Larger,
        FontSize::Larger => FontSize::ExtraLarge,
        FontSize::ExtraLarge => FontSize::Small,
    }
}

impl Default for FontSize {
    fn default() -> (r: Self)
        ensures
            r == FontSize::Regular,
    {
        FontSize::Regular
    }
}

impl FontSize {
    /// Get display name in English
    pub fn display_name_en(&self) -> (name: &'static str)
        ensures
            name@ == font_size_name(*self),
    {
        match self {
            FontSize::Small => "Small",
            FontSize::Regular => "Regular",
            FontSize::Larger => "Larger",
            FontSize::ExtraLarge => "Extra Large",
        }
    }

    /// Cycle to next size
    pub fn next(&self) -> (r: Self)
        ensures
            r == font_size_after(*self),
    {
        match self {
            FontSize::Small => FontSize::Regular,
            FontSize::Regular => FontSize::Larger,
            FontSize::Larger => FontSize::ExtraLarge,
            FontSize::ExtraLarge => FontSize::Small,
        }
    }
}

/// Cycling through the font sizes comes back to the start after four steps,
/// and no fewer steps do so.
pub proof fn lemma_font_size_cycle(size: FontSize)
    ensures
        font_size_after(font_size_after(font_size_after(font_size_after(size)))) == size,
        font_size_after(size) != size,
        font_size_after(font_size_after(size)) != size,
        font_size_after(font_size_after(font_size_after(size))) != size,
{
}

/// Calendar region for Bangla date calculation.
/// Bangladesh uses April 14 as Pohela Boishakh (reformed 1987);
/// India uses April 15 as Pohela Boishakh (traditional).
#[derive(Debug, Clone, Copy, PartialEq, Eq, Structural)]
pub enum CalendarRegion {
    /// Bangladesh calendar (April 14 = Pohela Boishakh)
    Bangladesh,
    /// India/West Bengal calendar (April 15 = Pohela Boishakh)
    India,
}

impl Default for CalendarRegion {
    fn default() -> (r: Self)
        ensures
            r == CalendarRegion::Bangladesh,
    {
        CalendarRegion::Bangladesh
    }
}

/// The April day of Pohela Boishakh (the first day of the Bangla year) in a region.
pub open spec fn pohela_day_of(region: CalendarRegion) -> u32 {
    match region {
        CalendarRegion::Bangladesh => 14,
        CalendarRegion::India => 15,
    }
}

/// The offset of the region's standard time from UTC, in seconds:
/// GMT+6 for Bangladesh, GMT+5:30 for India.
pub open spec fn region_offset_of(region: CalendarRegion) -> i32 {
    match region {
        CalendarRegion::Bangladesh => 21600,
        CalendarRegion::India => 19800,
    }
}

/// The region on the other side of a toggle.
pub open spec fn region_other(region: CalendarRegion) -> CalendarRegion {
    match region {
        CalendarRegion::Bangladesh => CalendarRegion::India,
        CalendarRegion::India => CalendarRegion::Bangladesh,
    }
}

impl CalendarRegion {
    /// Get Pohela Boishakh day (April day number)
    pub fn pohela_boishakh_day(&self) -> (day: u32)
        ensures
            day == pohela_day_of(*self),
    {
        match self {
            CalendarRegion::Bangladesh => 14,
            CalendarRegion::India => 15,
        }
    }

    /// Get timezone offset in seconds from UTC
    /// Bangladesh: GMT+6 (21600 seconds)
    /// India: GMT+5:30 (19800 seconds)
    pub fn timezone_offset_seconds(&self) -> (secs: i32)
        ensures
            secs == region_offset_of(*self),
    {
        match self {
            CalendarRegion::Bangladesh => 6 * 3600,
            CalendarRegion::India => 5 * 3600 + 30 * 60,
        }
    }

    /// Get display name
    pub fn display_name(&self) -> (name: &'static str)
        ensures
            name@ == (match *self {
                CalendarRegion::Bangladesh => "Bangladesh (14 Apr)"@,
                CalendarRegion::India => "India (15 Apr)"@,
            }),
    {
        match self {
            CalendarRegion::Bangladesh => "Bangladesh (14 Apr)",
            CalendarRegion::India => "India (15 Apr)",
        }
    }

    /// Toggle between regions
    pub fn toggle(&self) -> (r: Self)
        ensures
            r == region_other(*self),
    {
        match self {
            CalendarRegion::Bangladesh => CalendarRegion::India,
            CalendarRegion::India => CalendarRegion::Bangladesh,
        }
    }
}

/// Toggling the calendar region twice gives back the region, and a toggle always changes it.
pub proof fn lemma_region_toggle_involution(region: CalendarRegion)
    ensures
        region_other(region_other(region)) == region,
        region_other(region) != region,
{
}

/// India keeps Pohela Boishakh one day later than Bangladesh, and its standard time
/// is half an hour behind Bangladesh time.
pub proof fn lemma_region_differences()
    ensures
        pohela_day_of(CalendarRegion::India) == pohela_day_of(CalendarRegion::Bangladesh) + 1,
        region_offset_of(CalendarRegion::Bangladesh) - region_offset_of(CalendarRegion::India)
            == 1800,
{
}

/// Screensaver configuration options
#[derive(Debug, Clone)]
pub struct Config {
    /// Show seconds in the clock
    pub show_seconds: bool,
    /// Show English/Gregorian date
    pub show_english_date: bool,
    /// Show Bangla calendar date
    pub show_bangla_date: bool,
    /// Show day of week
    pub show_day: bool,
    /// Show time period (সকাল/দুপুর/বিকাল/রাত)
    pub show_time_period: bool,
    /// Show season (ঋতু)
    pub show_season: bool,
    /// Use Bangla numerals (০১২৩৪৫৬৭৮৯)
    pub use_bangla_numerals: bool,
    /// Use Bangla day/month names
    pub use_bangla_names: bool,
    /// Use 12-hour format
    pub use_12_hour: bool,
    /// Calendar region (Bangladesh or India)
    pub calendar_region: CalendarRegion,
    /// Font size option
    pub font_size: FontSize,
    /// Text color (RGB)
    pub text_color: [u8; 3],
    /// Background color (RGB)
    pub background_color: [u8; 3],
}

impl Default for Config {
    fn default() -> (c: Self)
        ensures
            c.show_seconds && c.show_english_date && c.show_bangla_date && c.show_day,
            c.show_time_period && c.show_season,
            c.use_bangla_numerals && c.use_bangla_names && c.use_12_hour,
            c.calendar_region == CalendarRegion::Bangladesh,
            c.font_size == FontSize::Regular,
            c.text_color@ == seq![255u8, 255u8, 255u8],
            c.background_color@ == seq![0u8, 0u8, 0u8],
    {
        Config {
            show_seconds: true,
            show_english_date: true,
            show_bangla_date: true,
            show_day: true,
            show_time_period: true,
            show_season: true,
            use_bangla_numerals: true,
            use_bangla_names: true,
            use_12_hour: true,
            calendar_region: CalendarRegion::Bangladesh,
            font_size: FontSize::Regular,
            text_color: [255, 255, 255],
            background_color: [0, 0, 0],
        }
    }
}

} // verus!
