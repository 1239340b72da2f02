//! Launcher logic: colors of its buttons, reading the active screensaver from `reg query`
//! output, the status it shows, and the elevated commands that install or remove the
//! screensaver.
use crate::text::{
    chars_of, find_char, lemma_next_index_of, lowercase, next_index_of, std_to_lowercase, trimmed,
    string_of, trim,
};
use vstd::prelude::*;

verus! {

pub const IDC_BTN_SET: i32 = 1001;
pub const IDC_BTN_REMOVE: i32 = 1002;
pub const IDC_BTN_SETTINGS: i32 = 1003;
pub const IDC_BTN_PREVIEW: i32 = 1004;
pub const IDC_BTN_BSETTINGS: i32 = 1005;
pub const IDC_STATUS: i32 = 1006;
pub const IDC_BTN_GITHUB: i32 = 1007;

/// A Win32 COLORREF value: 0x00BBGGRR.
pub open spec fn colorref(r: u8, g: u8, b: u8) -> u32 {
    (b as int * 65536 + g as int * 256 + r as int) as u32
}

/// COLORREF helper: 0x00BBGGRR
pub fn rgb(r: u8, g: u8, b: u8) -> (c: u32)
    ensures
        c == colorref(r, g, b),
{
    let c = (b as u32) << 16 | (g as u32) << 8 | (r as u32);
    assert(c == b as u32 * 65536 + g as u32 * 256 + r as u32) by (bit_vector)
        requires
            c == (b as u32) << 16 | (g as u32) << 8 | (r as u32),
    ;
    c
}

/// Colors for an owner-drawn button, as COLORREF values.
#[derive(Debug, Clone, Copy, PartialEq, Eq, Structural)]
pub struct ButtonColors {
    pub bg: u32,
    pub bg_pressed: u32,
    pub bg_disabled: u32,
    pub text: u32,
    pub text_disabled: u32,
    pub border: u32,
}

/// The color scheme of each button, one (r, g, b) per color in the order
/// background, pressed, disabled, text, disabled text, border.
pub open spec fn button_scheme(ctl_id: i32) -> Seq<(u8, u8, u8)> {
    if ctl_id == IDC_BTN_SET {
        seq![(35, 134, 54), (27, 107, 43), (28, 56, 36), (255, 255, 255), (100, 140, 110), (46, 160, 67)]
    } else if ctl_id == IDC_BTN_REMOVE {
        seq![(55, 30, 34), (45, 24, 28), (35, 28, 30), (248, 81, 73), (100, 60, 58), (75, 40, 44)]
    } else if ctl_id == IDC_BTN_PREVIEW {
        seq![(26, 46, 68), (20, 38, 56), (24, 32, 40), (88, 166, 255), (60, 80, 100), (36, 60, 88)]
    } else if ctl_id == IDC_BTN_BSETTINGS {
        seq![(45, 26, 68), (37, 21, 56), (32, 26, 40), (188, 140, 255), (80, 60, 100), (60, 36, 88)]
    } else if ctl_id == IDC_BTN_GITHUB {
        seq![(33, 38, 45), (27, 31, 36), (28, 32, 39), (139, 148, 158), (72, 79, 88), (48, 54, 61)]
    } else {
        seq![(33, 38, 45), (27, 31, 36), (28, 32, 39), (201, 209, 217), (72, 79, 88), (48, 54, 61)]
    }
}

pub open spec fn scheme_colors(s: Seq<(u8, u8, u8)>) -> ButtonColors {
    ButtonColors {
        bg: colorref(s[0].0, s[0].1, s[0].2),
        bg_pressed: colorref(s[1].0, s[1].1, s[1].2),
        bg_disabled: colorref(s[2].0, s[2].1, s[2].2),
        text: colorref(s[3].0, s[3].1, s[3].2),
        text_disabled: colorref(s[4].0, s[4].1, s[4].2),
        border: colorref(s[5].0, s[5].1, s[5].2),
    }
}

/// Return the color scheme for a given button control ID.
pub fn get_button_colors(ctl_id: u32) -> (colors: ButtonColors)
    ensures
        colors == scheme_colors(button_scheme(ctl_id as i32)),
{
    match ctl_id as i32 {
        IDC_BTN_SET => ButtonColors {
            bg: rgb(35, 134, 54),  // green primary
            bg_pressed: rgb(27, 107, 43),
            bg_disabled: rgb(28, 56, 36),
            text: rgb(255, 255, 255),
            text_disabled: rgb(100, 140, 110),
            border: rgb(46, 160, 67),
        },
        IDC_BTN_REMOVE => ButtonColors {
            bg: rgb(55, 30, 34),  // muted red card
            bg_pressed: rgb(45, 24, 28),
            bg_disabled: rgb(35, 28, 30),
            text: rgb(248, 81, 73),
            text_disabled: rgb(100, 60, 58),
            border: rgb(75, 40, 44),
        },
        IDC_BTN_PREVIEW => ButtonColors {
            bg: rgb(26, 46, 68),  // blue card
            bg_pressed: rgb(20, 38, 56),
            bg_disabled: rgb(24, 32, 40),
            text: rgb(88, 166, 255),
            text_disabled: rgb(60, 80, 100),
            border: rgb(36, 60, 88),
        },
        IDC_BTN_BSETTINGS => ButtonColors {
            bg: rgb(45, 26, 68),  // purple card
            bg_pressed: rgb(37, 21, 56),
            bg_disabled: rgb(32, 26, 40),
            text: rgb(188, 140, 255),
            text_disabled: rgb(80, 60, 100),
            border: rgb(60, 36, 88),
        },
        IDC_BTN_GITHUB => ButtonColors {
            bg: rgb(33, 38, 45),  // dark neutral card
            bg_pressed: rgb(27, 31, 36),
            bg_disabled: rgb(28, 32, 39),
            text: rgb(139, 148, 158),
            text_disabled: rgb(72, 79, 88),
            border: rgb(48, 54, 61),
        },
        _ => ButtonColors {
            // neutral (Settings)
            bg: rgb(33, 38, 45),
            bg_pressed: rgb(27, 31, 36),
            bg_disabled: rgb(28, 32, 39),
            text: rgb(201, 209, 217),
            text_disabled: rgb(72, 79, 88),
            border: rgb(48, 54, 61),
        },
    }
}

/// A line without the '\r' of a "\r\n" line ending.
pub open spec fn strip_cr(line: Seq<char>) -> Seq<char> {
    if line.len() > 0 && line.last() == '\r' {
        line.drop_last()
    } else {
        line
    }
}

/// The lines of a text, as `str::lines` gives them: split at '\n', a "\r\n" ending counts
/// as one line ending, and a final line ending adds no empty line.
pub open spec fn lines_of(s: Seq<char>) -> Seq<Seq<char>>
    decreases s.len(),
{
    if s.len() == 0 {
        seq![]
    } else {
        let nl = next_index_of(s, '\n', 0);
        if nl >= s.len() {
            seq![s]
        } else {
            proof {
                lemma_next_index_of(s, '\n', 0);
            }
            seq![strip_cr(s.subrange(0, nl))] + lines_of(s.subrange(nl + 1, s.len() as int))
        }
    }
}

/// The type marker that `reg query` prints before a string value.
pub open spec fn reg_sz() -> Seq<char> {
    seq!['R', 'E', 'G', '_', 'S', 'Z']
}

/// Whether `pat` occurs in `t` at index `i`.
pub open spec fn occurs_at(t: Seq<char>, i: int, pat: Seq<char>) -> bool {
    0 <= i && i + pat.len() <= t.len() && t.subrange(i, i + pat.len()) == pat
}

/// The first index at or after `from` where `pat` occurs in `t`, or -1.
pub open spec fn first_occurrence(t: Seq<char>, pat: Seq<char>, from: int) -> int
    decreases t.len() + 1 - from,
{
    if from < 0 || from + pat.len() > t.len() {
        -1
    } else if occurs_at(t, from, pat) {
        from
    } else {
        first_occurrence(t, pat, from + 1)
    }
}

/// The value a `reg query` output line holds: the trimmed text after the first "REG_SZ"
/// of the trimmed line, or nothing when the line has no "REG_SZ".
pub open spec fn line_value(line: Seq<char>) -> Seq<char> {
    let t = trimmed(line);
    let pos = first_occurrence(t, reg_sz(), 0);
    if pos >= 0 {
        trimmed(t.subrange(pos + 6, t.len() as int))
    } else {
        seq![]
    }
}

/// The first non-empty value among the lines.
pub open spec fn first_value(lines: Seq<Seq<char>>) -> Seq<char>
    decreases lines.len(),
{
    if lines.len() == 0 {
        seq![]
    } else if line_value(lines[0]).len() > 0 {
        line_value(lines[0])
    } else {
        first_value(lines.drop_first())
    }
}

proof fn lemma_next_index_shift(s: Seq<char>, c: char, i: int, k: int)
    requires
        0 <= i <= s.len(),
        0 <= k <= s.len() - i,
    ensures
        next_index_of(s.subrange(i, s.len() as int), c, k) == next_index_of(s, c, i + k) - i,
    decreases s.len() - i - k,
{
    if i + k < s.len() && s[i + k] != c {
        lemma_next_index_shift(s, c, i, k + 1);
    }
}

/// The value after the first "REG_SZ" in a line, trimmed.
fn reg_line_value(line: &str) -> (value: String)
    ensures
        value@ == line_value(line@),
{
    let t = trim(line);
    let tc = chars_of(t);
    let n = tc.len();
    let mut p: usize = 0;
    while n >= 6 && p <= n - 6
        invariant
            tc@ == t@,
            t@ == trimmed(line@),
            n == tc.len(),
            first_occurrence(tc@, reg_sz(), 0) == first_occurrence(tc@, reg_sz(), p as int),
        decreases n - p,
    {
        if tc[p] == 'R' && tc[p + 1] == 'E' && tc[p + 2] == 'G' && tc[p + 3] == '_' && tc[p + 4]
            == 'S' && tc[p + 5] == 'Z' {
            assert(tc@.subrange(p as int, p + 6) =~= reg_sz());
            assert(occurs_at(tc@, p as int, reg_sz()));
            assert(first_occurrence(tc@, reg_sz(), p as int) == p);
            let rest = string_of(&tc, p + 6, n);
            return String::from_str(trim(rest.as_str()));
        }
        assert(!occurs_at(tc@, p as int, reg_sz())) by {
            if occurs_at(tc@, p as int, reg_sz()) {
                assert(tc@.subrange(p as int, p + 6)[0] == tc@[p as int]);
                assert(tc@.subrange(p as int, p + 6)[1] == tc@[p + 1]);
                assert(tc@.subrange(p as int, p + 6)[2] == tc@[p + 2]);
                assert(tc@.subrange(p as int, p + 6)[3] == tc@[p + 3]);
                assert(tc@.subrange(p as int, p + 6)[4] == tc@[p + 4]);
                assert(tc@.subrange(p as int, p + 6)[5] == tc@[p + 5]);
            }
        }
        p = p + 1;
    }
    String::new()
}

/// The screensaver path that `reg query "HKCU\Control Panel\Desktop" /v SCRNSAVE.EXE`
/// printed, read from its output lines such as "    SCRNSAVE.EXE    REG_SZ    C:\path\to\file.scr";
/// empty when no line holds a value.
pub fn registry_screensaver_value(reg_output: &str) -> (value: String)
    ensures
        value@ == first_value(lines_of(reg_output@)),
{
    let chars = chars_of(reg_output);
    let n = chars.len();
    let mut i: usize = 0;
    assert(chars@.subrange(0, n as int) =~= chars@);
    while i < n
        invariant
            i <= n,
            n == chars@.len(),
            chars@ == reg_output@,
            first_value(lines_of(chars@)) == first_value(lines_of(chars@.subrange(i as int, n as int))),
        decreases n - i,
    {
        let ghost rest = chars@.subrange(i as int, n as int);
        let nl = find_char(&chars, '\n', i);
        let ghost lines = lines_of(rest);
        proof {
            lemma_next_index_shift(chars@, '\n', i as int, 0);
            lemma_next_index_of(chars@, '\n', i as int);
        }
        let mut end = nl;
        if nl < n && end > i && chars[end - 1] == '\r' {
            end = end - 1;
        }
        let line = string_of(&chars, i, end);
        proof {
            assert(next_index_of(rest, '\n', 0) == nl - i);
            if nl < n {
                assert(line@ =~= strip_cr(rest.subrange(0, nl - i)));
                assert(rest.subrange(nl - i + 1, rest.len() as int) =~= chars@.subrange(nl + 1, n as int));
                assert(lines == seq![strip_cr(rest.subrange(0, nl - i))] + lines_of(chars@.subrange(nl + 1, n as int)));
                assert(lines.drop_first() =~= lines_of(chars@.subrange(nl + 1, n as int)));
            } else {
                assert(line@ =~= rest);
                assert(lines == seq![rest]);
                assert(lines.drop_first() =~= Seq::<Seq<char>>::empty());
            }
            assert(lines[0] == line@);
        }
        let value = reg_line_value(line.as_str());
        if !value.as_str().is_empty() {
            return value;
        }
        if nl >= n {
            assert(first_value(lines) == first_value(lines.drop_first()));
            assert(first_value(lines.drop_first()) =~= Seq::<char>::empty());
            return String::new();
        }
        i = nl + 1;
    }
    proof {
        assert(chars@.subrange(n as int, n as int) =~= Seq::<char>::empty());
    }
    String::new()
}

/// Whether the active screensaver (as read from the registry) is the installed copy of this
/// one: the lower-cased paths are equal and not empty.
pub fn is_our_screensaver(current: &str, installed_path: &str) -> (ours: bool)
    ensures
        ours == (std_to_lowercase(current@).len() > 0 && std_to_lowercase(current@)
            == std_to_lowercase(installed_path@)),
{
    let current = lowercase(current);
    let installed = lowercase(installed_path);
    !current.as_str().is_empty() && current == installed
}

/// What the launcher shows about the screensaver and which of its buttons it enables.
#[derive(Debug, Clone, Copy)]
pub struct LauncherStatus {
    pub message: &'static str,
    /// COLORREF of the status text
    pub color: u32,
    pub set_enabled: bool,
    pub remove_enabled: bool,
    pub preview_enabled: bool,
}

/// The status for the facts the launcher found: whether the screensaver program sits beside
/// the launcher, whether it is installed in System32, whether it is the active screensaver,
/// and whether any screensaver is set.
pub open spec fn status_for(
    src_exists: bool,
    installed: bool,
    active: bool,
    current_is_empty: bool,
    s: LauncherStatus,
) -> bool {
    if !src_exists {
        &&& s.message@ == "\u{26A0}  স্ক্রিনসেভার ফাইল পাওয়া যায়নি"@
        &&& s.color == colorref(230, 170, 50)
        &&& !s.set_enabled && s.remove_enabled == installed && !s.preview_enabled
    } else if installed && active {
        &&& s.message@ == "\u{2714}  বাংলাসেভার সক্রিয় আছে"@
        &&& s.color == colorref(60, 179, 113)
        &&& !s.set_enabled && s.remove_enabled && s.preview_enabled
    } else if installed {
        &&& s.message@ == "\u{2022}  ইনস্টল আছে, তবে সক্রিয় নয়"@
        &&& s.color == colorref(230, 170, 50)
        &&& s.set_enabled && s.remove_enabled && s.preview_enabled
    } else if current_is_empty {
        &&& s.message@ == "\u{2022}  কোনো স্ক্রিনসেভার সেট করা নেই"@
        &&& s.color == colorref(140, 148, 160)
        &&& s.set_enabled && !s.remove_enabled && s.preview_enabled
    } else {
        &&& s.message@ == "\u{2022}  অন্য একটি স্ক্রিনসেভার সক্রিয় আছে"@
        &&& s.color == colorref(230, 170, 50)
        &&& s.set_enabled && !s.remove_enabled && s.preview_enabled
    }
}

/// Decide the status label and button states.
pub fn launcher_status(src_exists: bool, installed: bool, active: bool, current_is_empty: bool) -> (s: LauncherStatus)
    ensures
        status_for(src_exists, installed, active, current_is_empty, s),
{
    if !src_exists {
        LauncherStatus {
            message: "\u{26A0}  স্ক্রিনসেভার ফাইল পাওয়া যায়নি",
            color: rgb(230, 170, 50),
            set_enabled: false,
            remove_enabled: installed,
            preview_enabled: false,
        }
    } else if installed && active {
        LauncherStatus {
            message: "\u{2714}  বাংলাসেভার সক্রিয় আছে",
            color: rgb(60, 179, 113),
            set_enabled: false,
            remove_enabled: true,
            preview_enabled: true,
        }
    } else if installed {
        LauncherStatus {
            message: "\u{2022}  ইনস্টল আছে, তবে সক্রিয় নয়",
            color: rgb(230, 170, 50),
            set_enabled: true,
            remove_enabled: true,
            preview_enabled: true,
        }
    } else if current_is_empty {
        LauncherStatus {
            message: "\u{2022}  কোনো স্ক্রিনসেভার সেট করা নেই",
            color: rgb(140, 148, 160),
            set_enabled: true,
            remove_enabled: false,
            preview_enabled: true,
        }
    } else {
        LauncherStatus {
            message: "\u{2022}  অন্য একটি স্ক্রিনসেভার সক্রিয় আছে",
            color: rgb(230, 170, 50),
            set_enabled: true,
            remove_enabled: false,
            preview_enabled: true,
        }
    }
}

/// The install button is enabled exactly when the screensaver program is present and not
/// already the active, installed screensaver; the remove button exactly when it is installed.
pub proof fn lemma_status_buttons(
    src_exists: bool,
    installed: bool,
    active: bool,
    current_is_empty: bool,
    s: LauncherStatus,
)
    requires
        status_for(src_exists, installed, active, current_is_empty, s),
    ensures
        s.set_enabled == (src_exists && !(installed && active)),
        s.remove_enabled == installed,
        s.preview_enabled == src_exists,
{
}

/// The cmd.exe arguments that install the screensaver: copy the program to System32 as a
/// `.scr`, make it the screensaver, enable the screensaver and set a 300-second timeout.
pub open spec fn install_command_text(src: Seq<char>, dst: Seq<char>) -> Seq<char> {
    "/c copy /Y \""@ + src + "\" \""@ + dst
        + "\" && reg add \"HKCU\\Control Panel\\Desktop\" /v SCRNSAVE.EXE /t REG_SZ /d \""@ + dst
        + "\" /f && reg add \"HKCU\\Control Panel\\Desktop\" /v ScreenSaveActive /t REG_SZ /d 1 /f && reg add \"HKCU\\Control Panel\\Desktop\" /v ScreenSaveTimeOut /t REG_SZ /d 300 /f"@
}

/// The cmd.exe arguments that remove the screensaver: delete the `.scr` from System32,
/// remove the registry value and disable the screensaver.
pub open spec fn remove_command_text(dst: Seq<char>) -> Seq<char> {
    "/c del /F \""@ + dst
        + "\" && reg delete \"HKCU\\Control Panel\\Desktop\" /v SCRNSAVE.EXE /f && reg add \"HKCU\\Control Panel\\Desktop\" /v ScreenSaveActive /t REG_SZ /d 0 /f"@
}

/// Build the elevated install command for the program at `src` and the System32 path `dst`.
pub fn install_command(src: &str, dst: &str) -> (cmd: String)
    ensures
        cmd@ == install_command_text(src@, dst@),
{
    let mut cmd = String::from_str("/c copy /Y \"");
    cmd.append(src);
    cmd.append("\" \"");
    cmd.append(dst);
    cmd.append("\" && reg add \"HKCU\\Control Panel\\Desktop\" /v SCRNSAVE.EXE /t REG_SZ /d \"");
    cmd.append(dst);
    cmd.append(
        "\" /f && reg add \"HKCU\\Control Panel\\Desktop\" /v ScreenSaveActive /t REG_SZ /d 1 /f && reg add \"HKCU\\Control Panel\\Desktop\" /v ScreenSaveTimeOut /t REG_SZ /d 300 /f",
    );
    cmd
}

/// Build the elevated remove command for the System32 path `dst`.
pub fn remove_command(dst: &str) -> (cmd: String)
    ensures
        cmd@ == remove_command_text(dst@),
{
    let mut cmd = String::from_str("/c del /F \"");
    cmd.append(dst);
    cmd.append(
        "\" && reg delete \"HKCU\\Control Panel\\Desktop\" /v SCRNSAVE.EXE /f && reg add \"HKCU\\Control Panel\\Desktop\" /v ScreenSaveActive /t REG_SZ /d 0 /f",
    );
    cmd
}

/// What a click on one of the launcher's buttons asks for.
#[derive(Debug, Clone, Copy, PartialEq, Eq, Structural)]
pub enum LauncherCommand {
    SetScreensaver,
    RemoveScreensaver,
    OpenScreensaverSettings,
    PreviewScreensaver,
    OpenBsaverSettings,
    OpenGithub,
}

/// The command of a button by its control id, or nothing for any other id.
pub open spec fn command_of_id(id: int) -> Option<LauncherCommand> {
    if id == IDC_BTN_SET {
        Some(LauncherCommand::SetScreensaver)
    } else if id == IDC_BTN_REMOVE {
        Some(LauncherCommand::RemoveScreensaver)
    } else if id == IDC_BTN_SETTINGS {
        Some(LauncherCommand::OpenScreensaverSettings)
    } else if id == IDC_BTN_PREVIEW {
        Some(LauncherCommand::PreviewScreensaver)
    } else if id == IDC_BTN_BSETTINGS {
        Some(LauncherCommand::OpenBsaverSettings)
    } else if id == IDC_BTN_GITHUB {
        Some(LauncherCommand::OpenGithub)
    } else {
        None
    }
}

/// The command of a `WM_COMMAND` message, whose control id is the low word of `wparam`.
pub fn launcher_command(wparam: usize) -> (cmd: Option<LauncherCommand>)
    ensures
        cmd == command_of_id(wparam as int % 65536),
{
    let low: usize = wparam & 0xFFFF;
    proof {
        assert(wparam & 0xFFFF == wparam % 65536) by (bit_vector);
    }
    let id = low as i32;
    if id == IDC_BTN_SET {
        Some(LauncherCommand::SetScreensaver)
    } else if id == IDC_BTN_REMOVE {
        Some(LauncherCommand::RemoveScreensaver)
    } else if id == IDC_BTN_SETTINGS {
        Some(LauncherCommand::OpenScreensaverSettings)
    } else if id == IDC_BTN_PREVIEW {
        Some(LauncherCommand::PreviewScreensaver)
    } else if id == IDC_BTN_BSETTINGS {
        Some(LauncherCommand::OpenBsaverSettings)
    } else if id == IDC_BTN_GITHUB {
        Some(LauncherCommand::OpenGithub)
    } else {
        None
    }
}

/// How many times the installed file is checked while the elevated command runs.
pub const INSTALL_POLL_CHECKS: u32 = 25;

/// Pause between two checks of the installed file, in milliseconds.
pub const INSTALL_POLL_MILLIS: u32 = 200;

/// The change the launcher makes: install and activate, or remove and deactivate.
#[derive(Debug, Clone, Copy, PartialEq, Eq, Structural)]
pub enum InstallKind {
    Install,
    Remove,
}

/// Where a set or remove flow stands.
#[derive(Debug, Clone, Copy, PartialEq, Eq, Structural)]
pub enum InstallStage {
    /// Nothing done yet.
    Start,
    /// The elevated command was requested; waiting to hear whether it was launched.
    Launching,
    /// The elevated command runs; `checks` checks of the installed file have failed so far.
    Polling { checks: u32 },
    /// Polling is over; the status was refreshed and the file is checked one last time.
    Verifying,
    /// The flow is over.
    Done,
}

/// A set or remove flow.
#[derive(Debug, Clone, Copy, PartialEq, Eq, Structural)]
pub struct InstallState {
    pub kind: InstallKind,
    pub stage: InstallStage,
}

/// What the outside world reports back to the flow.
#[derive(Debug, Clone, Copy, PartialEq, Eq, Structural)]
pub enum InstallEvent {
    /// The flow starts; whether the program to install exists (only a set checks it).
    Begin { source_exists: bool },
    /// Whether the elevated command was launched (false when elevation was declined or failed).
    Launched { accepted: bool },
    /// Whether the installed `.scr` file exists now.
    FileChecked { exists: bool },
}

/// What the outside world is to do next.
#[derive(Debug, Clone, Copy, PartialEq, Eq, Structural)]
pub enum InstallAction {
    /// Tell the user that the program to install was not found; the flow ends.
    ReportMissingSource,
    /// Run the kind's command through an elevated `cmd.exe` and report whether it launched.
    LaunchElevated,
    /// Wait `sleep_millis` milliseconds (none when 0), then check the installed file.
    CheckFile { sleep_millis: u32 },
    /// Wait `sleep_millis` milliseconds (none when 0), refresh the launcher's status, then
    /// check the installed file.
    RefreshAndVerify { sleep_millis: u32 },
    /// Tell Windows that the screensaver is now `active` (the change took), and report success.
    ReportSuccess { active: bool },
    /// Report that the change did not take.
    ReportFailure,
    /// Nothing more to do.
    Finish,
}

/// Whether the installed file being there is what the flow is waiting for.
pub open spec fn file_target_reached(kind: InstallKind, exists: bool) -> bool {
    match kind {
        InstallKind::Install => exists,
        InstallKind::Remove => !exists,
    }
}

/// A flow never counts more failed checks than it makes.
pub open spec fn install_state_wf(state: InstallState) -> bool {
    match state.stage {
        InstallStage::Polling { checks } => checks < INSTALL_POLL_CHECKS,
        _ => true,
    }
}

/// How many more events a flow can take at most before it is over.
pub open spec fn install_steps_left(state: InstallState) -> int {
    match state.stage {
        InstallStage::Start => INSTALL_POLL_CHECKS + 3,
        InstallStage::Launching => INSTALL_POLL_CHECKS + 2,
        InstallStage::Polling { checks } => INSTALL_POLL_CHECKS - checks + 1,
        InstallStage::Verifying => 1,
        InstallStage::Done => 0,
    }
}

/// One step of a set or remove flow. A set first needs the program to install; both then
/// launch their command elevated (a declined elevation ends the flow silently), check the
/// installed file up to 25 times with a 200 ms pause after each failed check, refresh the
/// status, and report success or failure by a last check of the file. An event the stage does
/// not expect leaves the flow as it is.
pub open spec fn install_step_spec(state: InstallState, event: InstallEvent) -> (InstallState, InstallAction) {
    let kind = state.kind;
    let at = |stage: InstallStage| InstallState { kind, stage };
    match (state.stage, event) {
        (InstallStage::Start, InstallEvent::Begin { source_exists }) => {
            if kind == InstallKind::Install && !source_exists {
                (at(InstallStage::Done), InstallAction::ReportMissingSource)
            } else {
                (at(InstallStage::Launching), InstallAction::LaunchElevated)
            }
        },
        (InstallStage::Launching, InstallEvent::Launched { accepted }) => {
            if accepted {
                (at(InstallStage::Polling { checks: 0 }), InstallAction::CheckFile { sleep_millis: 0 })
            } else {
                (at(InstallStage::Done), InstallAction::Finish)
            }
        },
        (InstallStage::Polling { checks }, InstallEvent::FileChecked { exists }) => {
            if file_target_reached(kind, exists) {
                (at(InstallStage::Verifying), InstallAction::RefreshAndVerify { sleep_millis: 0 })
            } else if checks + 1 < INSTALL_POLL_CHECKS {
                (
                    at(InstallStage::Polling { checks: (checks + 1) as u32 }),
                    InstallAction::CheckFile { sleep_millis: INSTALL_POLL_MILLIS },
                )
            } else {
                (
                    at(InstallStage::Verifying),
                    InstallAction::RefreshAndVerify { sleep_millis: INSTALL_POLL_MILLIS },
                )
            }
        },
        (InstallStage::Verifying, InstallEvent::FileChecked { exists }) => {
            if file_target_reached(kind, exists) {
                (
                    at(InstallStage::Done),
                    InstallAction::ReportSuccess { active: kind == InstallKind::Install },
                )
            } else {
                (at(InstallStage::Done), InstallAction::ReportFailure)
            }
        },
        _ => (state, InstallAction::Finish),
    }
}

impl InstallState {
    /// A flow of the given kind, not started.
    pub fn new(kind: InstallKind) -> (state: Self)
        ensures
            state == (InstallState { kind, stage: InstallStage::Start }),
            install_state_wf(state),
    {
        InstallState { kind, stage: InstallStage::Start }
    }

    /// Whether the flow is over.
    pub fn is_done(&self) -> (done: bool)
        ensures
            done == (self.stage == InstallStage::Done),
    {
        match self.stage {
            InstallStage::Done => true,
            _ => false,
        }
    }
}

/// Take one step of a set or remove flow: the next state and what to do.
pub fn install_step(state: InstallState, event: InstallEvent) -> (r: (InstallState, InstallAction))
    ensures
        r == install_step_spec(state, event),
        install_state_wf(state) ==> install_state_wf(r.0),
        install_state_wf(state) ==> (r.0 == state || 0 <= install_steps_left(r.0)
            < install_steps_left(state)),
{
    let kind = state.kind;
    match (state.stage, event) {
        (InstallStage::Start, InstallEvent::Begin { source_exists }) => {
            if matches!(kind, InstallKind::Install) && !source_exists {
                (InstallState { kind, stage: InstallStage::Done }, InstallAction::ReportMissingSource)
            } else {
                (InstallState { kind, stage: InstallStage::Launching }, InstallAction::LaunchElevated)
            }
        },
        (InstallStage::Launching, InstallEvent::Launched { accepted }) => {
            if accepted {
                (
                    InstallState { kind, stage: InstallStage::Polling { checks: 0 } },
                    InstallAction::CheckFile { sleep_millis: 0 },
                )
            } else {
                (InstallState { kind, stage: InstallStage::Done }, InstallAction::Finish)
            }
        },
        (InstallStage::Polling { checks }, InstallEvent::FileChecked { exists }) => {
            let reached = match kind {
                InstallKind::Install => exists,
                InstallKind::Remove => !exists,
            };
            if reached {
                (
                    InstallState { kind, stage: InstallStage::Verifying },
                    InstallAction::RefreshAndVerify { sleep_millis: 0 },
                )
            } else if checks < INSTALL_POLL_CHECKS - 1 {
                (
                    InstallState { kind, stage: InstallStage::Polling { checks: checks + 1 } },
                    InstallAction::CheckFile { sleep_millis: INSTALL_POLL_MILLIS },
                )
            } else {
                (
                    InstallState { kind, stage: InstallStage::Verifying },
                    InstallAction::RefreshAndVerify { sleep_millis: INSTALL_POLL_MILLIS },
                )
            }
        },
        (InstallStage::Verifying, InstallEvent::FileChecked { exists }) => {
            let reached = match kind {
                InstallKind::Install => exists,
                InstallKind::Remove => !exists,
            };
            if reached {
                let active = matches!(kind, InstallKind::Install);
                (InstallState { kind, stage: InstallStage::Done }, InstallAction::ReportSuccess { active })
            } else {
                (InstallState { kind, stage: InstallStage::Done }, InstallAction::ReportFailure)
            }
        },
        _ => (state, InstallAction::Finish),
    }
}

/// A rectangle given by its top-left corner and size, in client pixels.
#[derive(Debug, Clone, Copy, PartialEq, Eq, Structural)]
pub struct Rect {
    pub x: i32,
    pub y: i32,
    pub w: i32,
    pub h: i32,
}

/// Where the launcher's controls sit: the status line, then a grid of two columns and
/// three rows of buttons (install · remove, preview · clock settings,
/// screensaver settings · GitHub), each with its control id.
#[derive(Debug, Clone)]
pub struct LauncherLayout {
    pub status: Rect,
    pub buttons: Vec<(i32, Rect)>,
}

pub open spec fn rect(x: int, y: int, w: int, h: int) -> Rect {
    Rect { x: x as i32, y: y as i32, w: w as i32, h: h as i32 }
}

/// The status line for a client area `client_w` pixels wide: 40-pixel margins, at 148.
pub open spec fn status_rect(client_w: int) -> Rect {
    rect(40, 148, client_w - 80, 28)
}

/// The buttons for a client area `client_w` pixels wide: two columns with 40-pixel margins
/// and a 14-pixel gap, buttons 58 pixels high with 12 pixels between rows, the first row
/// at 186.
pub open spec fn button_rects(client_w: int) -> Seq<(i32, Rect)> {
    let content_w: int = client_w - 80;
    let col_w: int = div_toward_zero(content_w - 14, 2);
    let x_left: int = 40;
    let x_right: int = 40 + col_w + 14;
    let y1: int = 186;
    let y2: int = y1 + 58 + 12;
    let y3: int = y2 + 58 + 12;
    seq![
        (IDC_BTN_SET, rect(x_left, y1, col_w, 58)),
        (IDC_BTN_REMOVE, rect(x_right, y1, col_w, 58)),
        (IDC_BTN_PREVIEW, rect(x_left, y2, col_w, 58)),
        (IDC_BTN_BSETTINGS, rect(x_right, y2, col_w, 58)),
        (IDC_BTN_SETTINGS, rect(x_left, y3, col_w, 58)),
        (IDC_BTN_GITHUB, rect(x_right, y3, col_w, 58)),
    ]
}

/// Lay out the launcher's controls for a client area `client_w` pixels wide.
pub fn launcher_layout(client_w: i32) -> (layout: LauncherLayout)
    requires
        i32::MIN + 94 <= client_w,
    ensures
        layout.status == status_rect(client_w as int),
        layout.buttons@ == button_rects(client_w as int),
{
    // Grid layout constants
    let margin: i32 = 40;
    let content_w: i32 = client_w - margin * 2;
    let col_gap: i32 = 14;
    let col_w: i32 = (content_w - col_gap) / 2;
    let row_gap: i32 = 12;
    let grid_btn_h: i32 = 58;
    let x_left: i32 = margin;
    let x_right: i32 = margin + col_w + col_gap;
    let y1: i32 = 186;
    let y2: i32 = y1 + grid_btn_h + row_gap;
    let y3: i32 = y2 + grid_btn_h + row_gap;
    let at = |x: i32, y: i32| -> (r: Rect)
        ensures
            r == (Rect { x, y, w: col_w, h: grid_btn_h }),
        { Rect { x, y, w: col_w, h: grid_btn_h } };
    let buttons = vec![
        (IDC_BTN_SET, at(x_left, y1)),
        (IDC_BTN_REMOVE, at(x_right, y1)),
        (IDC_BTN_PREVIEW, at(x_left, y2)),
        (IDC_BTN_BSETTINGS, at(x_right, y2)),
        (IDC_BTN_SETTINGS, at(x_left, y3)),
        (IDC_BTN_GITHUB, at(x_right, y3)),
    ];
    assert(buttons@ =~= button_rects(client_w as int));
    LauncherLayout { status: Rect { x: margin, y: 148, w: content_w, h: 28 }, buttons }
}

/// How an owner-drawn button is painted in a given state.
#[derive(Debug, Clone, Copy, PartialEq, Eq, Structural)]
pub struct ButtonFace {
    /// COLORREF of the button face
    pub bg: u32,
    /// COLORREF of the label
    pub text: u32,
    /// Whether to draw the focus ring
    pub focused: bool,
}

/// Paint a button by its `DRAWITEMSTRUCT` item state: disabled (0x0004) wins over pressed
/// (0x0001); focus (0x0010) adds a ring.
pub fn button_face(colors: &ButtonColors, item_state: u32) -> (face: ButtonFace)
    ensures
        face.bg == if item_state & 0x0004 != 0 {
            colors.bg_disabled
        } else if item_state & 0x0001 != 0 {
            colors.bg_pressed
        } else {
            colors.bg
        },
        face.text == if item_state & 0x0004 != 0 {
            colors.text_disabled
        } else {
            colors.text
        },
        face.focused == (item_state & 0x0010 != 0),
{
    // ODS_SELECTED = 0x0001, ODS_DISABLED = 0x0004, ODS_FOCUS = 0x0010
    let is_pressed = (item_state & 0x0001) != 0;
    let is_disabled = (item_state & 0x0004) != 0;
    let bg = if is_disabled {
        colors.bg_disabled
    } else if is_pressed {
        colors.bg_pressed
    } else {
        colors.bg
    };
    let text = if is_disabled {
        colors.text_disabled
    } else {
        colors.text
    };
    ButtonFace { bg, text, focused: (item_state & 0x0010) != 0 }
}

/// Integer division rounded toward zero (as `/` does in Rust).
pub open spec fn div_toward_zero(a: int, b: int) -> int {
    if a >= 0 {
        a / b
    } else {
        -((-a) / b)
    }
}

/// The bounds (left, top, right, bottom) of the red disc of the Bangladesh flag drawn in
/// the `w` x `h` rectangle at (`x`, `y`): radius a fifth of the flag's length, centered
/// vertically and 9/20 of the width from the left, slightly left of center.
pub open spec fn flag_disc(x: int, y: int, w: int, h: int) -> (int, int, int, int) {
    let r = div_toward_zero(w, 5);
    let cx = x + div_toward_zero(w * 9, 20);
    let cy = y + div_toward_zero(h, 2);
    (cx - r, cy - r, cx + r, cy + r)
}

/// Where the red disc of the flag goes.
pub fn flag_disc_bounds(x: i32, y: i32, w: i32, h: i32) -> (b: (i32, i32, i32, i32))
    requires
        i32::MIN <= w * 9 <= i32::MAX,
        i32::MIN <= x + div_toward_zero(w * 9, 20) <= i32::MAX,
        i32::MIN <= y + div_toward_zero(h as int, 2) <= i32::MAX,
        ({
            let d = flag_disc(x as int, y as int, w as int, h as int);
            &&& i32::MIN <= d.0 <= i32::MAX
            &&& i32::MIN <= d.1 <= i32::MAX
            &&& i32::MIN <= d.2 <= i32::MAX
            &&& i32::MIN <= d.3 <= i32::MAX
        }),
    ensures
        (b.0 as int, b.1 as int, b.2 as int, b.3 as int) == flag_disc(x as int, y as int, w as int, h as int),
{
    // Radius about a fifth of the flag's length, as on the flag itself
    let circle_r: i32 = w / 5;
    let circle_cx: i32 = x + (w * 9 / 20);
    let circle_cy: i32 = y + h / 2;
    (circle_cx - circle_r, circle_cy - circle_r, circle_cx + circle_r, circle_cy + circle_r)
}

} // verus!
