use bsaver::launcher::{
    install_step, launcher_command, registry_screensaver_value, InstallAction, InstallEvent,
    InstallKind, InstallStage, InstallState, LauncherCommand, IDC_BTN_BSETTINGS, IDC_BTN_GITHUB,
    IDC_BTN_PREVIEW, IDC_BTN_REMOVE, IDC_BTN_SET, IDC_BTN_SETTINGS, IDC_STATUS,
};
use bsaver::launcher::Rect;
use bsaver::raster::{char_x_in_cell, digit_cell_width, time_grid_cells, DigitWidthCache, GridCell};
use bsaver::settings::{close_button_rect, settings_button_rect};
use bsaver::screensaver::ScreensaverMode;

/// Runs a flow, answering each action from the given file checks; returns the actions taken.
fn run(kind: InstallKind, source_exists: bool, accepted: bool, checks: &[bool]) -> Vec<InstallAction> {
    let mut state = InstallState::new(kind);
    let mut event = InstallEvent::Begin { source_exists };
    let mut actions = Vec::new();
    let mut next_check = 0;
    while !state.is_done() {
        let (s, action) = install_step(state, event);
        state = s;
        actions.push(action);
        event = match action {
            InstallAction::LaunchElevated => InstallEvent::Launched { accepted },
            InstallAction::CheckFile { .. } | InstallAction::RefreshAndVerify { .. } => {
                let exists = checks[next_check.min(checks.len() - 1)];
                next_check += 1;
                InstallEvent::FileChecked { exists }
            }
            _ => break,
        };
    }
    actions
}

#[test]
fn button_clicks_map_to_commands() {
    assert_eq!(launcher_command(IDC_BTN_SET as usize), Some(LauncherCommand::SetScreensaver));
    assert_eq!(launcher_command(IDC_BTN_REMOVE as usize), Some(LauncherCommand::RemoveScreensaver));
    assert_eq!(launcher_command(IDC_BTN_SETTINGS as usize), Some(LauncherCommand::OpenScreensaverSettings));
    assert_eq!(launcher_command(IDC_BTN_PREVIEW as usize), Some(LauncherCommand::PreviewScreensaver));
    assert_eq!(launcher_command(IDC_BTN_BSETTINGS as usize), Some(LauncherCommand::OpenBsaverSettings));
    assert_eq!(launcher_command(IDC_BTN_GITHUB as usize), Some(LauncherCommand::OpenGithub));
    assert_eq!(launcher_command(IDC_STATUS as usize), None);
    assert_eq!(launcher_command(0), None);
    // The notification code in the high word does not change the control
    assert_eq!(launcher_command((1 << 16) | IDC_BTN_SET as usize), Some(LauncherCommand::SetScreensaver));
}

#[test]
fn install_without_the_program_reports_it() {
    assert_eq!(run(InstallKind::Install, false, true, &[true]), vec![InstallAction::ReportMissingSource]);
}

#[test]
fn declined_elevation_ends_quietly() {
    assert_eq!(
        run(InstallKind::Install, true, false, &[true]),
        vec![InstallAction::LaunchElevated, InstallAction::Finish]
    );
    // A removal does not look for the program
    assert_eq!(
        run(InstallKind::Remove, false, false, &[false]),
        vec![InstallAction::LaunchElevated, InstallAction::Finish]
    );
}

#[test]
fn install_succeeds_once_the_file_appears() {
    assert_eq!(
        run(InstallKind::Install, true, true, &[false, false, true, true]),
        vec![
            InstallAction::LaunchElevated,
            InstallAction::CheckFile { sleep_millis: 0 },
            InstallAction::CheckFile { sleep_millis: 200 },
            InstallAction::CheckFile { sleep_millis: 200 },
            InstallAction::RefreshAndVerify { sleep_millis: 0 },
            InstallAction::ReportSuccess { active: true },
        ]
    );
}

#[test]
fn removal_succeeds_once_the_file_is_gone() {
    assert_eq!(
        run(InstallKind::Remove, true, true, &[false, false]),
        vec![
            InstallAction::LaunchElevated,
            InstallAction::CheckFile { sleep_millis: 0 },
            InstallAction::RefreshAndVerify { sleep_millis: 0 },
            InstallAction::ReportSuccess { active: false },
        ]
    );
}

#[test]
fn polling_gives_up_after_25_checks() {
    let actions = run(InstallKind::Install, true, true, &[false]);
    let checks = actions.iter().filter(|a| matches!(a, InstallAction::CheckFile { .. })).count();
    assert_eq!(checks, 25);
    assert_eq!(actions[actions.len() - 2], InstallAction::RefreshAndVerify { sleep_millis: 200 });
    assert_eq!(actions[actions.len() - 1], InstallAction::ReportFailure);
    // The file showing up during the pause after the last check still counts
    let mut answers = vec![false; 25];
    answers.push(true);
    let actions = run(InstallKind::Install, true, true, &answers);
    assert_eq!(actions[actions.len() - 1], InstallAction::ReportSuccess { active: true });
}

#[test]
fn unexpected_events_leave_the_flow_alone() {
    let start = InstallState::new(InstallKind::Install);
    let (s, a) = install_step(start, InstallEvent::FileChecked { exists: true });
    assert_eq!((s, a), (start, InstallAction::Finish));
    let done = InstallState { kind: InstallKind::Remove, stage: InstallStage::Done };
    assert_eq!(install_step(done, InstallEvent::Begin { source_exists: true }), (done, InstallAction::Finish));
}

#[test]
fn digit_cells_are_two_pixels_wider_than_the_widest_digit() {
    assert_eq!(digit_cell_width(&vec![31, 40, 38, 12]), 42);
    assert_eq!(digit_cell_width(&vec![]), 2);
    assert_eq!(digit_cell_width(&vec![u32::MAX - 2]), u32::MAX);
}

#[test]
fn changing_digits_do_not_move_the_cells() {
    let a = time_grid_cells("12:30:05", 37, 1920);
    let b = time_grid_cells("88:88:88", 37, 1920);
    let c = time_grid_cells("১২।৩০।০৫", 37, 1920);
    for i in 0..a.len() {
        assert_eq!((a[i].x, a[i].width), (b[i].x, b[i].width));
        assert_eq!((a[i].x, a[i].width), (c[i].x, c[i].width));
    }
}

#[test]
fn grid_bounds_follow_the_total_width() {
    // Only separators: a digit cell wider than i32::MAX is never used
    let cells = time_grid_cells(":", 4_000_000_000, 100);
    assert_eq!(cells, vec![GridCell { ch: ':', x: 0, width: 2_000_000_000 }]);
    // Two whole cells and a half fit where the cell width times the length would not
    let cells = time_grid_cells("1:1", 800_000_000, 100);
    assert_eq!(cells[2], GridCell { ch: '1', x: 1_200_000_000, width: 800_000_000 });
    // A cell far to the right still centers its character
    let far = GridCell { ch: '1', x: i32::MAX - 10, width: 20 };
    assert_eq!(char_x_in_cell(&far, 30), i32::MAX - 15);
    let near = GridCell { ch: '1', x: i32::MIN + 10, width: 10 };
    assert_eq!(char_x_in_cell(&near, 30), i32::MIN);
}

fn is_white_space(c: char) -> bool {
    matches!(c as u32, 0x9..=0xD | 0x20 | 0x85 | 0xA0 | 0x1680 | 0x2000..=0x200A | 0x2028 | 0x2029 | 0x202F | 0x205F | 0x3000)
}

#[test]
fn trim_removes_exactly_unicode_white_space() {
    for code in 0u32..0x3100 {
        if let Some(c) = char::from_u32(code) {
            assert_eq!(c.is_whitespace(), is_white_space(c), "U+{:04X}", code);
            let text = format!("{c}{c}a{c}b{c}");
            let expected = if is_white_space(c) { format!("a{c}b") } else { text.clone() };
            assert_eq!(text.trim(), expected, "U+{:04X}", code);
        }
    }
}

#[test]
fn unicode_spaces_around_values_are_trimmed() {
    let output = "\u{3000}SCRNSAVE.EXE    REG_SZ\u{2003}C:\\x.scr\u{85}\r\n";
    assert_eq!(registry_screensaver_value(output), "C:\\x.scr");
    let args: Vec<String> = ["bsaver.scr", "/p", "\u{A0}1234\u{2028}"].iter().map(|s| s.to_string()).collect();
    assert_eq!(ScreensaverMode::from_args(&args), ScreensaverMode::Preview(1234));
    // A zero width space is not white space, so the handle does not parse
    let args: Vec<String> = ["bsaver.scr", "/p", "\u{200B}1234"].iter().map(|s| s.to_string()).collect();
    assert_eq!(ScreensaverMode::from_args(&args), ScreensaverMode::Preview(0));
}

#[test]
fn digit_widths_are_measured_once_per_size() {
    let mut cache = DigitWidthCache::new();
    let size = 96.0f32.to_bits();
    assert_eq!(cache.cached_width(size), None);
    assert_eq!(cache.remember(size, &vec![40, 44, 41]), 46);
    assert_eq!(cache.cached_width(size), Some(46));
    assert_eq!(cache.remember(48.0f32.to_bits(), &vec![20, 22]), 24);
    assert_eq!(cache.cached_width(size), Some(46));
    assert_eq!(cache.cached_width(48.0f32.to_bits()), Some(24));
}

#[test]
fn settings_buttons_sit_in_one_column() {
    assert_eq!(settings_button_rect(0), Rect { x: 15, y: 15, w: 310, h: 28 });
    assert_eq!(settings_button_rect(9), Rect { x: 15, y: 339, w: 310, h: 28 });
    assert_eq!(settings_button_rect(10), Rect { x: 15, y: 375, w: 310, h: 28 });
    assert_eq!(close_button_rect(), Rect { x: 120, y: 426, w: 100, h: 35 });
}
