use bsaver::launcher::{
    button_face, flag_disc_bounds, launcher_layout, Rect, IDC_BTN_BSETTINGS, IDC_BTN_PREVIEW,
    get_button_colors, install_command, is_our_screensaver, launcher_status,
    registry_screensaver_value, remove_command, rgb, IDC_BTN_GITHUB, IDC_BTN_REMOVE,
    IDC_BTN_SET, IDC_BTN_SETTINGS,
};
use bsaver::raster::{
    blit_centered, blit_pixels, char_x_in_cell, fill_frame, time_grid_cells, transparent_canvas,
    GridCell, RenderCounter,
};

#[test]
fn colors() {
    assert_eq!(rgb(22, 27, 34), 0x0022_1B16);
    assert_eq!(rgb(255, 0, 0), 0x0000_00FF);
    let set = get_button_colors(IDC_BTN_SET as u32);
    assert_eq!(set.bg, rgb(35, 134, 54));
    assert_eq!(set.border, rgb(46, 160, 67));
    let remove = get_button_colors(IDC_BTN_REMOVE as u32);
    assert_eq!(remove.text, rgb(248, 81, 73));
    let github = get_button_colors(IDC_BTN_GITHUB as u32);
    let settings = get_button_colors(IDC_BTN_SETTINGS as u32);
    assert_eq!(github.bg, settings.bg);
    assert_eq!(github.text, rgb(139, 148, 158));
    assert_eq!(settings.text, rgb(201, 209, 217));
}

#[test]
fn reading_reg_query_output() {
    let output = "\r\nHKEY_CURRENT_USER\\Control Panel\\Desktop\r\n    SCRNSAVE.EXE    REG_SZ    C:\\Windows\\System32\\BanglaSaver.scr\r\n\r\n";
    assert_eq!(registry_screensaver_value(output), "C:\\Windows\\System32\\BanglaSaver.scr");
    assert_eq!(registry_screensaver_value(""), "");
    assert_eq!(registry_screensaver_value("    SCRNSAVE.EXE    REG_SZ    \r\n"), "");
    assert_eq!(registry_screensaver_value("x REG_SZ a\nREG_SZ b"), "a");
    assert_eq!(registry_screensaver_value("nothing\nREG_SZ   last one  "), "last one");
    assert!(is_our_screensaver("C:\\WINDOWS\\System32\\BanglaSaver.scr", "c:\\windows\\system32\\banglasaver.scr"));
    assert!(!is_our_screensaver("", ""));
    assert!(!is_our_screensaver("C:\\other.scr", "C:\\Windows\\System32\\BanglaSaver.scr"));
}

#[test]
fn status_decisions() {
    let s = launcher_status(false, true, false, true);
    assert_eq!(s.message, "\u{26A0}  স্ক্রিনসেভার ফাইল পাওয়া যায়নি");
    assert!(!s.set_enabled && s.remove_enabled && !s.preview_enabled);
    let s = launcher_status(true, true, true, false);
    assert_eq!(s.message, "\u{2714}  বাংলাসেভার সক্রিয় আছে");
    assert_eq!(s.color, rgb(60, 179, 113));
    assert!(!s.set_enabled && s.remove_enabled && s.preview_enabled);
    let s = launcher_status(true, true, false, false);
    assert!(s.set_enabled && s.remove_enabled);
    let s = launcher_status(true, false, false, true);
    assert_eq!(s.message, "\u{2022}  কোনো স্ক্রিনসেভার সেট করা নেই");
    assert_eq!(s.color, rgb(140, 148, 160));
    assert!(s.set_enabled && !s.remove_enabled);
    let s = launcher_status(true, false, false, false);
    assert_eq!(s.message, "\u{2022}  অন্য একটি স্ক্রিনসেভার সক্রিয় আছে");
}

#[test]
fn elevated_commands() {
    assert_eq!(
        install_command("D:\\app\\bsaver.exe", "C:\\Windows\\System32\\BanglaSaver.scr"),
        r#"/c copy /Y "D:\app\bsaver.exe" "C:\Windows\System32\BanglaSaver.scr" && reg add "HKCU\Control Panel\Desktop" /v SCRNSAVE.EXE /t REG_SZ /d "C:\Windows\System32\BanglaSaver.scr" /f && reg add "HKCU\Control Panel\Desktop" /v ScreenSaveActive /t REG_SZ /d 1 /f && reg add "HKCU\Control Panel\Desktop" /v ScreenSaveTimeOut /t REG_SZ /d 300 /f"#
    );
    assert_eq!(
        remove_command("C:\\Windows\\System32\\BanglaSaver.scr"),
        r#"/c del /F "C:\Windows\System32\BanglaSaver.scr" && reg delete "HKCU\Control Panel\Desktop" /v SCRNSAVE.EXE /f && reg add "HKCU\Control Panel\Desktop" /v ScreenSaveActive /t REG_SZ /d 0 /f"#
    );
}

#[test]
fn canvases() {
    let c = transparent_canvas(2, 1, [10, 20, 30]);
    assert_eq!(c, vec![30, 20, 10, 0, 30, 20, 10, 0]);
    assert!(transparent_canvas(0, 5, [1, 2, 3]).is_empty());
    let mut frame = vec![9u8; 2];
    fill_frame(&mut frame, 8, [1, 2, 3]);
    assert_eq!(frame, vec![3, 2, 1, 255, 3, 2, 1, 255]);
    let mut frame = vec![9u8; 2];
    fill_frame(&mut frame, 6, [1, 2, 3]);
    assert_eq!(frame, vec![3, 2, 1, 255, 0, 0]);
    let mut frame = vec![9u8; 10];
    fill_frame(&mut frame, 4, [1, 2, 3]);
    assert_eq!(frame, vec![3, 2, 1, 255, 9, 9, 9, 9, 9, 9]);
}

#[test]
fn blitting_copies_visible_opaque_pixels() {
    // Screen of 3x2 pixels, image of 2x2 pixels; the second image pixel is transparent.
    let stride = 12u32;
    let mut screen = vec![0u8; 24];
    let image: Vec<u8> = vec![
        1, 2, 3, 255, 4, 5, 6, 0, //
        7, 8, 9, 200, 10, 11, 12, 255,
    ];
    blit_pixels(&mut screen, stride, 2, 0, 2, 2, &image);
    // Only column 2 of the screen is covered (column 3 is off-screen)
    assert_eq!(&screen[8..12], &[1, 2, 3, 255]);
    assert_eq!(&screen[20..24], &[7, 8, 9, 200]);
    assert!(screen[0..8].iter().all(|&b| b == 0));
    assert!(screen[12..20].iter().all(|&b| b == 0));

    // Negative column: the left column of the image is clipped
    let mut screen = vec![0u8; 24];
    blit_pixels(&mut screen, stride, -1, 1, 2, 2, &image);
    assert_eq!(&screen[12..16], &[0, 0, 0, 0]); // transparent pixel not copied
    assert!(screen[0..12].iter().all(|&b| b == 0));

    // Centered: a 1x1 image on a 3-pixel-wide screen lands in column 1
    let mut screen = vec![0u8; 24];
    blit_centered(1, 1, &[9, 9, 9, 9], 3, 1, &mut screen, stride);
    assert_eq!(&screen[16..20], &[9, 9, 9, 9]);
    assert_eq!(screen.iter().filter(|&&b| b != 0).count(), 4);
}

#[test]
fn time_grid_layout() {
    let cells = time_grid_cells("12:30", 20, 200);
    // widths 20+20+10+20+20 = 90, centered at (200-90)/2 = 55
    assert_eq!(
        cells,
        vec![
            GridCell { ch: '1', x: 55, width: 20 },
            GridCell { ch: '2', x: 75, width: 20 },
            GridCell { ch: ':', x: 95, width: 10 },
            GridCell { ch: '3', x: 105, width: 20 },
            GridCell { ch: '0', x: 125, width: 20 },
        ]
    );
    let cells = time_grid_cells("১২।৩", 21, 40);
    assert_eq!(cells[0].x, 0);
    assert_eq!(cells[2].width, 10);
    assert_eq!(cells[3].x, 52);
    assert_eq!(char_x_in_cell(&GridCell { ch: '1', x: 55, width: 20 }, 11), 59);
    assert_eq!(char_x_in_cell(&GridCell { ch: '1', x: 55, width: 20 }, 25), 53);
}

#[test]
fn glyph_cache_cleanup_every_500_renders() {
    let mut counter = RenderCounter::new();
    let mut cleanups = Vec::new();
    for i in 1..=1200u32 {
        if counter.tick() {
            cleanups.push(i);
        }
    }
    assert_eq!(cleanups, vec![500, 1000]);
}

#[test]
fn launcher_geometry() {
    let layout = launcher_layout(500);
    assert_eq!(layout.status, Rect { x: 40, y: 148, w: 420, h: 28 });
    assert_eq!(layout.buttons.len(), 6);
    assert_eq!(layout.buttons[0], (IDC_BTN_SET, Rect { x: 40, y: 186, w: 203, h: 58 }));
    assert_eq!(layout.buttons[3], (IDC_BTN_BSETTINGS, Rect { x: 257, y: 256, w: 203, h: 58 }));
    assert_eq!(layout.buttons[5], (IDC_BTN_GITHUB, Rect { x: 257, y: 326, w: 203, h: 58 }));
    assert_eq!(layout.buttons[2].0, IDC_BTN_PREVIEW);
    // A narrow window: (0 - 14) / 2 rounds toward zero
    assert_eq!(launcher_layout(80).buttons[1].1, Rect { x: 47, y: 186, w: -7, h: 58 });

    let colors = get_button_colors(IDC_BTN_SET as u32);
    let face = button_face(&colors, 0);
    assert_eq!((face.bg, face.text, face.focused), (colors.bg, colors.text, false));
    let face = button_face(&colors, 0x0001 | 0x0010);
    assert_eq!((face.bg, face.text, face.focused), (colors.bg_pressed, colors.text, true));
    let face = button_face(&colors, 0x0001 | 0x0004);
    assert_eq!((face.bg, face.text), (colors.bg_disabled, colors.text_disabled));

    // Flag 50 x 30 at (225, 22): radius 12, center (247, 37)
    // Radius a fifth of the 50-pixel length: 10, around (225 + 22, 22 + 15)
    assert_eq!(flag_disc_bounds(225, 22, 50, 30), (237, 27, 257, 47));
}
