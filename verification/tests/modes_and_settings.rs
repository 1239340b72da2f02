use bsaver::config::{CalendarRegion, Config, FontSize};
use bsaver::screensaver::{mouse_moved_too_far, mouse_position, parse_isize, ScreensaverMode};
use bsaver::settings::{
    font_button_label, handle_settings_command, region_button_label, toggle_button_text,
    toggle_buttons, BTN_12_HOUR, BTN_BANGLA_DATE, BTN_BANGLA_NAMES, BTN_BANGLA_NUMS,
    BTN_CALENDAR_REGION, BTN_CLOSE, BTN_DAY, BTN_ENGLISH_DATE, BTN_FONT_SIZE, BTN_SECONDS,
    BTN_SEASON, BTN_TIME_PERIOD,
};

fn mode(args: &[&str]) -> ScreensaverMode {
    let args: Vec<String> = args.iter().map(|s| s.to_string()).collect();
    ScreensaverMode::from_args(&args)
}

#[test]
fn command_line_modes() {
    assert_eq!(mode(&["bsaver.scr"]), ScreensaverMode::Screensaver);
    assert_eq!(mode(&["bsaver.scr", "/s"]), ScreensaverMode::Screensaver);
    assert_eq!(mode(&["bsaver.scr", "/S"]), ScreensaverMode::Screensaver);
    assert_eq!(mode(&["bsaver.scr", "-s"]), ScreensaverMode::Screensaver);
    assert_eq!(mode(&["bsaver.scr", "/x"]), ScreensaverMode::Screensaver);
    assert_eq!(mode(&["bsaver.scr", "/c"]), ScreensaverMode::Configure);
    assert_eq!(mode(&["bsaver.scr", "/C:1234"]), ScreensaverMode::Configure);
    assert_eq!(mode(&["bsaver.scr", "-c"]), ScreensaverMode::Configure);
    assert_eq!(mode(&["bsaver.scr", "/p", "1234"]), ScreensaverMode::Preview(1234));
    assert_eq!(mode(&["bsaver.scr", "/P", " 77 "]), ScreensaverMode::Preview(77));
    assert_eq!(mode(&["bsaver.scr", "/p:5678"]), ScreensaverMode::Preview(5678));
    assert_eq!(mode(&["bsaver.scr", "/p: 42 :9"]), ScreensaverMode::Preview(42));
    assert_eq!(mode(&["bsaver.scr", "-p99"]), ScreensaverMode::Preview(99));
    assert_eq!(mode(&["bsaver.scr", "/p:abc"]), ScreensaverMode::Preview(0));
    assert_eq!(mode(&["bsaver.scr", "/p"]), ScreensaverMode::Preview(0));
    assert_eq!(mode(&["bsaver.scr", "/p", "x1"]), ScreensaverMode::Preview(0));
}

#[test]
fn integer_parsing_matches_std() {
    for text in [
        "0", "7", "+5", "-7", "", "-", "+", "12a", " 1", "1_000", "007",
        "9223372036854775807", "9223372036854775808", "-9223372036854775808",
        "-9223372036854775809", "২",
    ] {
        assert_eq!(parse_isize(text), text.parse::<isize>().ok(), "parsing {:?}", text);
    }
}

#[test]
fn settings_buttons_follow_config() {
    let c = Config::default();
    let buttons = toggle_buttons(&c);
    let ids: Vec<i32> = buttons.iter().map(|b| b.0).collect();
    assert_eq!(
        ids,
        vec![
            BTN_SECONDS, BTN_TIME_PERIOD, BTN_DAY, BTN_ENGLISH_DATE, BTN_BANGLA_DATE, BTN_SEASON,
            BTN_12_HOUR, BTN_BANGLA_NUMS, BTN_BANGLA_NAMES
        ]
    );
    assert_eq!(buttons[0].1, "Seconds (সেকেন্ড)");
    assert!(buttons.iter().all(|b| b.2));
    assert_eq!(toggle_button_text("Day (বার)", true), "● Day (বার)");
    assert_eq!(toggle_button_text("Day (বার)", false), "○ Day (বার)");
    assert_eq!(region_button_label(CalendarRegion::Bangladesh), "Calendar: Bangladesh (14 Apr) ▼");
    assert_eq!(font_button_label(FontSize::ExtraLarge), "Font Size: Extra Large ▼");
}

#[test]
fn clicking_settings_buttons() {
    let mut c = Config::default();
    let effect = handle_settings_command(&mut c, BTN_SECONDS);
    assert!(!c.show_seconds && effect.save && !effect.close);
    assert_eq!(effect.relabel.as_deref(), Some("○ Seconds (সেকেন্ড)"));
    let effect = handle_settings_command(&mut c, BTN_SECONDS);
    assert!(c.show_seconds);
    assert_eq!(effect.relabel.as_deref(), Some("● Seconds (সেকেন্ড)"));

    let effect = handle_settings_command(&mut c, BTN_12_HOUR);
    assert!(!c.use_12_hour);
    assert_eq!(effect.relabel.as_deref(), Some("○ 12-Hour Format (১২ ঘণ্টা)"));

    let effect = handle_settings_command(&mut c, BTN_CALENDAR_REGION);
    assert_eq!(c.calendar_region, CalendarRegion::India);
    assert_eq!(effect.relabel.as_deref(), Some("Calendar: India (15 Apr) ▼"));

    let effect = handle_settings_command(&mut c, BTN_FONT_SIZE);
    assert_eq!(c.font_size, FontSize::Larger);
    assert_eq!(effect.relabel.as_deref(), Some("Font Size: Larger ▼"));

    let before = c.clone();
    let effect = handle_settings_command(&mut c, BTN_CLOSE);
    assert!(effect.close && !effect.save && effect.relabel.is_none());
    assert_eq!(format!("{:?}", c), format!("{:?}", before));
    let effect = handle_settings_command(&mut c, 999);
    assert!(!effect.close && !effect.save && effect.relabel.is_none());
    assert_eq!(format!("{:?}", c), format!("{:?}", before));
}

#[test]
fn mouse_messages() {
    assert_eq!(mouse_position(0x0014_000A), (10, 20));
    assert_eq!(mouse_position(0xFFFF_FFFE_u32 as isize), (-2, -1));
    assert_eq!(mouse_position(0x0001_8000), (-32768, 1));
    assert!(!mouse_moved_too_far((100, 100), (110, 90)));
    assert!(mouse_moved_too_far((100, 100), (111, 100)));
    assert!(mouse_moved_too_far((100, 100), (100, 89)));
}
