//! Settings dialog logic: the buttons it shows and what a click on each one does.
//!
//! Each option is a button that shows "●" when the option is on and "○" when it is off;
//! the calendar region and the font size buttons cycle through their values.
use crate::config::{
    font_size_after, font_size_name, pohela_day_of, region_other, CalendarRegion, Config, FontSize,
};
use crate::text::decimal;
use crate::launcher::Rect;
use vstd::prelude::*;

verus! {

pub const BTN_SECONDS: i32 = 101;
pub const BTN_ENGLISH_DATE: i32 = 102;
pub const BTN_BANGLA_DATE: i32 = 103;
pub const BTN_DAY: i32 = 104;
pub const BTN_TIME_PERIOD: i32 = 105;
pub const BTN_SEASON: i32 = 106;
pub const BTN_12_HOUR: i32 = 107;
pub const BTN_BANGLA_NUMS: i32 = 108;
pub const BTN_BANGLA_NAMES: i32 = 109;
pub const BTN_CALENDAR_REGION: i32 = 110;
pub const BTN_FONT_SIZE: i32 = 111;
pub const BTN_CLOSE: i32 = 112;

/// The label of each on/off option button.
pub open spec fn toggle_label(id: i32) -> Seq<char> {
    if id == BTN_SECONDS {
        "Seconds (সেকেন্ড)"@
    } else if id == BTN_ENGLISH_DATE {
        "English Date (ইংরেজি তারিখ)"@
    } else if id == BTN_BANGLA_DATE {
        "Bangla Date (বাংলা তারিখ)"@
    } else if id == BTN_DAY {
        "Day (বার)"@
    } else if id == BTN_TIME_PERIOD {
        "Time Period (সময়কাল)"@
    } else if id == BTN_SEASON {
        "Season (ঋতু)"@
    } else if id == BTN_12_HOUR {
        "12-Hour Format (১২ ঘণ্টা)"@
    } else if id == BTN_BANGLA_NUMS {
        "Bangla Numbers (বাংলা সংখ্যা)"@
    } else {
        "Bangla Names (বাংলা নাম)"@
    }
}

/// Whether `id` is one of the on/off option buttons.
pub open spec fn is_toggle(id: i32) -> bool {
    BTN_SECONDS <= id <= BTN_BANGLA_NAMES
}

/// The state of the option that an on/off button controls.
pub open spec fn toggle_state(config: Config, id: i32) -> bool {
    if id == BTN_SECONDS {
        config.show_seconds
    } else if id == BTN_ENGLISH_DATE {
        config.show_english_date
    } else if id == BTN_BANGLA_DATE {
        config.show_bangla_date
    } else if id == BTN_DAY {
        config.show_day
    } else if id == BTN_TIME_PERIOD {
        config.show_time_period
    } else if id == BTN_SEASON {
        config.show_season
    } else if id == BTN_12_HOUR {
        config.use_12_hour
    } else if id == BTN_BANGLA_NUMS {
        config.use_bangla_numerals
    } else {
        config.use_bangla_names
    }
}

/// The configuration after a click on button `id`: an on/off button flips its option,
/// the region button toggles the region, the font size button moves to the next size;
/// any other button changes nothing.
pub open spec fn config_after_click(c: Config, id: i32) -> Config {
    if id == BTN_SECONDS {
        Config { show_seconds: !c.show_seconds, ..c }
    } else if id == BTN_ENGLISH_DATE {
        Config { show_english_date: !c.show_english_date, ..c }
    } else if id == BTN_BANGLA_DATE {
        Config { show_bangla_date: !c.show_bangla_date, ..c }
    } else if id == BTN_DAY {
        Config { show_day: !c.show_day, ..c }
    } else if id == BTN_TIME_PERIOD {
        Config { show_time_period: !c.show_time_period, ..c }
    } else if id == BTN_SEASON {
        Config { show_season: !c.show_season, ..c }
    } else if id == BTN_12_HOUR {
        Config { use_12_hour: !c.use_12_hour, ..c }
    } else if id == BTN_BANGLA_NUMS {
        Config { use_bangla_numerals: !c.use_bangla_numerals, ..c }
    } else if id == BTN_BANGLA_NAMES {
        Config { use_bangla_names: !c.use_bangla_names, ..c }
    } else if id == BTN_CALENDAR_REGION {
        Config { calendar_region: region_other(c.calendar_region), ..c }
    } else if id == BTN_FONT_SIZE {
        Config { font_size: font_size_after(c.font_size), ..c }
    } else {
        c
    }
}

/// The text of an on/off button: "●" or "○", a space, the label.
pub open spec fn toggle_text(label: Seq<char>, is_on: bool) -> Seq<char> {
    (if is_on {
        "●"@
    } else {
        "○"@
    }) + " "@ + label
}

/// The text of the calendar region button.
pub open spec fn region_button_text(region: CalendarRegion) -> Seq<char> {
    "Calendar: "@ + (match region {
        CalendarRegion::Bangladesh => "Bangladesh (14 Apr)"@,
        CalendarRegion::India => "India (15 Apr)"@,
    }) + " ▼"@
}

/// The text of the font size button.
pub open spec fn font_button_text(size: FontSize) -> Seq<char> {
    "Font Size: "@ + font_size_name(size) + " ▼"@
}

/// What the dialog does after a click: whether the configuration is saved, the new text of
/// the clicked button (if it changes), and whether the dialog closes.
#[derive(Debug)]
pub struct ClickEffect {
    pub save: bool,
    pub relabel: Option<String>,
    pub close: bool,
}

/// The label of an on/off option button.
pub fn toggle_button_label(id: i32) -> (label: &'static str)
    requires
        is_toggle(id),
    ensures
        label@ == toggle_label(id),
{
    match id {
        BTN_SECONDS => "Seconds (সেকেন্ড)",
        BTN_ENGLISH_DATE => "English Date (ইংরেজি তারিখ)",
        BTN_BANGLA_DATE => "Bangla Date (বাংলা তারিখ)",
        BTN_DAY => "Day (বার)",
        BTN_TIME_PERIOD => "Time Period (সময়কাল)",
        BTN_SEASON => "Season (ঋতু)",
        BTN_12_HOUR => "12-Hour Format (১২ ঘণ্টা)",
        BTN_BANGLA_NUMS => "Bangla Numbers (বাংলা সংখ্যা)",
        _ => "Bangla Names (বাংলা নাম)",
    }
}

/// Text of a toggle button with its ON/OFF indicator
pub fn toggle_button_text(label: &str, is_on: bool) -> (text: String)
    ensures
        text@ == toggle_text(label@, is_on),
{
    let indicator = if is_on {
        "●"
    } else {
        "○"
    };
    let mut text = String::from_str(indicator);
    text.append(" ");
    text.append(label);
    text
}

/// Text of the calendar region button.
pub fn region_button_label(region: CalendarRegion) -> (text: String)
    ensures
        text@ == region_button_text(region),
{
    let mut text = String::from_str("Calendar: ");
    text.append(region.display_name());
    text.append(" ▼");
    text
}

/// Text of the font size button.
pub fn font_button_label(size: FontSize) -> (text: String)
    ensures
        text@ == font_button_text(size),
{
    let mut text = String::from_str("Font Size: ");
    text.append(size.display_name_en());
    text.append(" ▼");
    text
}

/// The on/off option buttons of the dialog, top to bottom: (button id, label, current state).
pub fn toggle_buttons(config: &Config) -> (buttons: Vec<(i32, &'static str, bool)>)
    ensures
        buttons.len() == 9,
        forall|i: int|
            0 <= i < 9 ==> {
                let (id, label, on) = #[trigger] buttons@[i];
                &&& is_toggle(id)
                &&& label@ == toggle_label(id)
                &&& on == toggle_state(*config, id)
            },
        buttons@.map_values(|b: (i32, &'static str, bool)| b.0) == seq![
            BTN_SECONDS,
            BTN_TIME_PERIOD,
            BTN_DAY,
            BTN_ENGLISH_DATE,
            BTN_BANGLA_DATE,
            BTN_SEASON,
            BTN_12_HOUR,
            BTN_BANGLA_NUMS,
            BTN_BANGLA_NAMES,
        ],
{
    let ids: [i32; 9] = [
        BTN_SECONDS,
        BTN_TIME_PERIOD,
        BTN_DAY,
        BTN_ENGLISH_DATE,
        BTN_BANGLA_DATE,
        BTN_SEASON,
        BTN_12_HOUR,
        BTN_BANGLA_NUMS,
        BTN_BANGLA_NAMES,
    ];
    let mut buttons: Vec<(i32, &'static str, bool)> = Vec::new();
    let mut i: usize = 0;
    while i < 9
        invariant
            i <= 9,
            ids@ == seq![
                BTN_SECONDS,
                BTN_TIME_PERIOD,
                BTN_DAY,
                BTN_ENGLISH_DATE,
                BTN_BANGLA_DATE,
                BTN_SEASON,
                BTN_12_HOUR,
                BTN_BANGLA_NUMS,
                BTN_BANGLA_NAMES,
            ],
            buttons.len() == i,
            forall|j: int|
                0 <= j < i ==> {
                    let (id, label, on) = #[trigger] buttons@[j];
                    &&& id == ids@[j]
                    &&& is_toggle(id)
                    &&& label@ == toggle_label(id)
                    &&& on == toggle_state(*config, id)
                },
        decreases 9 - i,
    {
        let id = ids[i];
        buttons.push((id, toggle_button_label(id), toggle_option(config, id)));
        i = i + 1;
    }
    assert(buttons@.map_values(|b: (i32, &'static str, bool)| b.0) =~= ids@);
    buttons
}

/// The state of the option an on/off button controls.
pub fn toggle_option(config: &Config, id: i32) -> (on: bool)
    requires
        is_toggle(id),
    ensures
        on == toggle_state(*config, id),
{
    match id {
        BTN_SECONDS => config.show_seconds,
        BTN_ENGLISH_DATE => config.show_english_date,
        BTN_BANGLA_DATE => config.show_bangla_date,
        BTN_DAY => config.show_day,
        BTN_TIME_PERIOD => config.show_time_period,
        BTN_SEASON => config.show_season,
        BTN_12_HOUR => config.use_12_hour,
        BTN_BANGLA_NUMS => config.use_bangla_numerals,
        _ => config.use_bangla_names,
    }
}

/// Handle a button click in the settings dialog: change the configuration and say what
/// the dialog must do next.
pub fn handle_settings_command(config: &mut Config, id: i32) -> (effect: ClickEffect)
    ensures
        *final(config) == config_after_click(*old(config), id),
        effect.save == (is_toggle(id) || id == BTN_CALENDAR_REGION || id == BTN_FONT_SIZE),
        effect.close == (id == BTN_CLOSE),
        is_toggle(id) ==> (effect.relabel matches Some(t) && t@ == toggle_text(
            toggle_label(id),
            toggle_state(*final(config), id),
        )),
        id == BTN_CALENDAR_REGION ==> (effect.relabel matches Some(t) && t@ == region_button_text(
            final(config).calendar_region,
        )),
        id == BTN_FONT_SIZE ==> (effect.relabel matches Some(t) && t@ == font_button_text(
            final(config).font_size,
        )),
        !is_toggle(id) && id != BTN_CALENDAR_REGION && id != BTN_FONT_SIZE ==> effect.relabel
            is None,
{
    if BTN_SECONDS <= id && id <= BTN_BANGLA_NAMES {
        match id {
            BTN_SECONDS => config.show_seconds = !config.show_seconds,
            BTN_ENGLISH_DATE => config.show_english_date = !config.show_english_date,
            BTN_BANGLA_DATE => config.show_bangla_date = !config.show_bangla_date,
            BTN_DAY => config.show_day = !config.show_day,
            BTN_TIME_PERIOD => config.show_time_period = !config.show_time_period,
            BTN_SEASON => config.show_season = !config.show_season,
            BTN_12_HOUR => config.use_12_hour = !config.use_12_hour,
            BTN_BANGLA_NUMS => config.use_bangla_numerals = !config.use_bangla_numerals,
            _ => config.use_bangla_names = !config.use_bangla_names,
        }
        let text = toggle_button_text(toggle_button_label(id), toggle_option(config, id));
        ClickEffect { save: true, relabel: Some(text), close: false }
    } else if id == BTN_CALENDAR_REGION {
        config.calendar_region = config.calendar_region.toggle();
        ClickEffect { save: true, relabel: Some(region_button_label(config.calendar_region)), close: false }
    } else if id == BTN_FONT_SIZE {
        config.font_size = config.font_size.next();
        ClickEffect { save: true, relabel: Some(font_button_label(config.font_size)), close: false }
    } else {
        ClickEffect { save: false, relabel: None, close: id == BTN_CLOSE }
    }
}

/// Clicking an on/off option button twice gives back the configuration it started from.
pub proof fn lemma_toggle_twice(config: Config, id: i32)
    requires
        is_toggle(id),
    ensures
        config_after_click(config_after_click(config, id), id) == config,
        toggle_state(config_after_click(config, id), id) == !toggle_state(config, id),
{
}

/// The nine option buttons carry nine different labels.
pub proof fn lemma_toggle_labels_distinct(a: i32, b: i32)
    requires
        is_toggle(a),
        is_toggle(b),
        toggle_label(a) == toggle_label(b),
    ensures
        a == b,
{
    reveal_strlit("Seconds (সেকেন্ড)");
    reveal_strlit("English Date (ইংরেজি তারিখ)");
    reveal_strlit("Bangla Date (বাংলা তারিখ)");
    reveal_strlit("Day (বার)");
    reveal_strlit("Time Period (সময়কাল)");
    reveal_strlit("Season (ঋতু)");
    reveal_strlit("12-Hour Format (১২ ঘণ্টা)");
    reveal_strlit("Bangla Numbers (বাংলা সংখ্যা)");
    reveal_strlit("Bangla Names (বাংলা নাম)");
    assert(toggle_label(101).len() != toggle_label(102).len());
    assert(toggle_label(101).len() != toggle_label(103).len());
    assert(toggle_label(101).len() != toggle_label(104).len());
    assert(toggle_label(101).len() != toggle_label(105).len());
    assert(toggle_label(101).len() != toggle_label(106).len());
    assert(toggle_label(101).len() != toggle_label(107).len());
    assert(toggle_label(101).len() != toggle_label(108).len());
    assert(toggle_label(101).len() != toggle_label(109).len());
    assert(toggle_label(102).len() != toggle_label(103).len());
    assert(toggle_label(102).len() != toggle_label(104).len());
    assert(toggle_label(102).len() != toggle_label(105).len());
    assert(toggle_label(102).len() != toggle_label(106).len());
    assert(toggle_label(102).len() != toggle_label(107).len());
    assert(toggle_label(102).len() != toggle_label(108).len());
    assert(toggle_label(102).len() != toggle_label(109).len());
    assert(toggle_label(103).len() != toggle_label(104).len());
    assert(toggle_label(103).len() != toggle_label(105).len());
    assert(toggle_label(103).len() != toggle_label(106).len());
    assert(toggle_label(103)[0] != toggle_label(107)[0]);
    assert(toggle_label(103).len() != toggle_label(108).len());
    assert(toggle_label(103).len() != toggle_label(109).len());
    assert(toggle_label(104).len() != toggle_label(105).len());
    assert(toggle_label(104).len() != toggle_label(106).len());
    assert(toggle_label(104).len() != toggle_label(107).len());
    assert(toggle_label(104).len() != toggle_label(108).len());
    assert(toggle_label(104).len() != toggle_label(109).len());
    assert(toggle_label(105).len() != toggle_label(106).len());
    assert(toggle_label(105).len() != toggle_label(107).len());
    assert(toggle_label(105).len() != toggle_label(108).len());
    assert(toggle_label(105).len() != toggle_label(109).len());
    assert(toggle_label(106).len() != toggle_label(107).len());
    assert(toggle_label(106).len() != toggle_label(108).len());
    assert(toggle_label(106).len() != toggle_label(109).len());
    assert(toggle_label(107).len() != toggle_label(108).len());
    assert(toggle_label(107).len() != toggle_label(109).len());
    assert(toggle_label(108).len() != toggle_label(109).len());
}

/// Each option button is labelled with the option it controls: it shows that option's
/// state, and a click on it turns that option, and nothing else, on or off. The button
/// labelled "Day (বার)" shows and flips whether the weekday is shown, the one labelled
/// "Time Period (সময়কাল)" whether the part of the day is shown, and so on for every option.
pub proof fn lemma_labels_name_their_options(config: Config, id: i32)
    requires
        is_toggle(id),
    ensures
        toggle_label(id) == "Seconds (সেকেন্ড)"@ ==> toggle_state(config, id) == config.show_seconds
            && config_after_click(config, id) == (Config { show_seconds: !config.show_seconds, ..config }),
        toggle_label(id) == "English Date (ইংরেজি তারিখ)"@ ==> toggle_state(config, id) == config.show_english_date
            && config_after_click(config, id) == (Config { show_english_date: !config.show_english_date, ..config }),
        toggle_label(id) == "Bangla Date (বাংলা তারিখ)"@ ==> toggle_state(config, id) == config.show_bangla_date
            && config_after_click(config, id) == (Config { show_bangla_date: !config.show_bangla_date, ..config }),
        toggle_label(id) == "Day (বার)"@ ==> toggle_state(config, id) == config.show_day
            && config_after_click(config, id) == (Config { show_day: !config.show_day, ..config }),
        toggle_label(id) == "Time Period (সময়কাল)"@ ==> toggle_state(config, id) == config.show_time_period
            && config_after_click(config, id) == (Config { show_time_period: !config.show_time_period, ..config }),
        toggle_label(id) == "Season (ঋতু)"@ ==> toggle_state(config, id) == config.show_season
            && config_after_click(config, id) == (Config { show_season: !config.show_season, ..config }),
        toggle_label(id) == "12-Hour Format (১২ ঘণ্টা)"@ ==> toggle_state(config, id) == config.use_12_hour
            && config_after_click(config, id) == (Config { use_12_hour: !config.use_12_hour, ..config }),
        toggle_label(id) == "Bangla Numbers (বাংলা সংখ্যা)"@ ==> toggle_state(config, id) == config.use_bangla_numerals
            && config_after_click(config, id) == (Config { use_bangla_numerals: !config.use_bangla_numerals, ..config }),
        toggle_label(id) == "Bangla Names (বাংলা নাম)"@ ==> toggle_state(config, id) == config.use_bangla_names
            && config_after_click(config, id) == (Config { use_bangla_names: !config.use_bangla_names, ..config }),
{
    reveal_strlit("Seconds (সেকেন্ড)");
    reveal_strlit("English Date (ইংরেজি তারিখ)");
    reveal_strlit("Bangla Date (বাংলা তারিখ)");
    reveal_strlit("Day (বার)");
    reveal_strlit("Time Period (সময়কাল)");
    reveal_strlit("Season (ঋতু)");
    reveal_strlit("12-Hour Format (১২ ঘণ্টা)");
    reveal_strlit("Bangla Numbers (বাংলা সংখ্যা)");
    reveal_strlit("Bangla Names (বাংলা নাম)");
    assert(toggle_label(101) == "Seconds (সেকেন্ড)"@);
    assert(toggle_label(102) == "English Date (ইংরেজি তারিখ)"@);
    assert(toggle_label(103) == "Bangla Date (বাংলা তারিখ)"@);
    assert(toggle_label(104) == "Day (বার)"@);
    assert(toggle_label(105) == "Time Period (সময়কাল)"@);
    assert(toggle_label(106) == "Season (ঋতু)"@);
    assert(toggle_label(107) == "12-Hour Format (১২ ঘণ্টা)"@);
    assert(toggle_label(108) == "Bangla Numbers (বাংলা সংখ্যা)"@);
    assert(toggle_label(109) == "Bangla Names (বাংলা নাম)"@);
    assert forall|i: i32, j: i32| is_toggle(i) && is_toggle(j) && #[trigger] toggle_label(i) == #[trigger] toggle_label(j) implies i == j by {
        lemma_toggle_labels_distinct(i, j);
    }
}

/// The region button names the region's Pohela Boishakh: its text holds the day of April
/// on which the region's Bangla year starts, followed by " Apr".
pub proof fn lemma_region_button_shows_pohela_day(region: CalendarRegion)
    ensures
        exists|i: int|
            0 <= i && i + 6 <= region_button_text(region).len() && #[trigger] region_button_text(region).subrange(i, i + 6)
                == decimal(pohela_day_of(region) as nat) + " Apr"@,
{
    reveal_strlit("Calendar: ");
    reveal_strlit("Bangladesh (14 Apr)");
    reveal_strlit("India (15 Apr)");
    reveal_strlit(" ▼");
    reveal_strlit(" Apr");
    let t = region_button_text(region);
    let d = decimal(pohela_day_of(region) as nat);
    assert(decimal(1) == seq!['1']);
    assert(d == seq!['1', (48 + pohela_day_of(region) % 10) as char]);
    let i: int = match region {
        CalendarRegion::Bangladesh => 22,
        CalendarRegion::India => 17,
    };
    assert(t.subrange(i, i + 6) =~= d + " Apr"@);
}

/// The font sizes go round in growing order and each has its own name: a click moves from
/// Small to Regular, to Larger, to Extra Large and back to Small; the default is Regular.
pub proof fn lemma_font_size_names_in_order(size: FontSize)
    ensures
        (font_size_name(size) == "Small"@) <==> (font_size_name(font_size_after(size)) == "Regular"@),
        (font_size_name(size) == "Regular"@) <==> (font_size_name(font_size_after(size)) == "Larger"@),
        (font_size_name(size) == "Larger"@) <==> (font_size_name(font_size_after(size)) == "Extra Large"@),
        (font_size_name(size) == "Extra Large"@) <==> (font_size_name(font_size_after(size)) == "Small"@),
        font_size_name(FontSize::Regular) == "Regular"@,
{
    reveal_strlit("Small");
    reveal_strlit("Regular");
    reveal_strlit("Larger");
    reveal_strlit("Extra Large");
    assert("Small"@.len() != "Regular"@.len());
    assert("Small"@.len() != "Larger"@.len());
    assert("Small"@.len() != "Extra Large"@.len());
    assert("Regular"@.len() != "Larger"@.len());
    assert("Regular"@.len() != "Extra Large"@.len());
    assert("Larger"@.len() != "Extra Large"@.len());
}

/// Where the settings dialog's button in row `row` sits: one column of 310 x 28 buttons from
/// (15, 15), 36 pixels apart. The option toggles take rows 0-8, the calendar region row 9
/// and the font size row 10.
pub open spec fn settings_row_rect(row: int) -> Rect {
    Rect { x: 15, y: (15 + 36 * row) as i32, w: 310, h: 28 }
}

/// The rectangle of the settings button in row `row`.
pub fn settings_button_rect(row: usize) -> (r: Rect)
    requires
        row <= 10,
    ensures
        r == settings_row_rect(row as int),
{
    let y_start: i32 = 15;
    let y_gap: i32 = 36;
    Rect { x: 15, y: y_start + y_gap * row as i32, w: 310, h: 28 }
}

/// The rectangle of the settings dialog's Close button: 100 x 35, centered under the
/// buttons, 15 pixels below the last row.
pub fn close_button_rect() -> (r: Rect)
    ensures
        r == (Rect { x: 120, y: 426, w: 100, h: 35 }),
{
    let y_start: i32 = 15;
    let y_gap: i32 = 36;
    let x: i32 = 15;
    Rect { x: x + 105, y: y_start + y_gap * 11 + 15, w: 100, h: 35 }
}

} // verus!
