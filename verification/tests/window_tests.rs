use capsx::about::{about_body, about_title, modifier_label};
use capsx::menu::{context_menu, MenuEntry};
use capsx::state::{AppState, Modifier};
use windows_sys::Win32::UI::WindowsAndMessaging as wm;
use capsx::window::{
    command_step, window_action, CommandAction, WindowAction, ID_ABOUT, ID_AUTOSTART, ID_EXIT, ID_GITHUB,
    ID_MOD_ALT, ID_MOD_CTRL, ID_MOD_SHIFT, ID_TOGGLE_LED, TRAY_MSG, WM_COMMAND, WM_CONTEXTMENU, WM_DESTROY,
    WM_RBUTTONUP,
};

fn st(m: Modifier, led: bool, prev: i32) -> AppState {
    AppState { modifier: m, modifier_combo: false, prev_index: prev, led_enabled: led }
}

#[test]
fn window_constants_match_win32() {
    assert_eq!(TRAY_MSG, wm::WM_APP + 1);
    assert_eq!(WM_COMMAND, wm::WM_COMMAND);
    assert_eq!(WM_DESTROY, wm::WM_DESTROY);
    assert_eq!(WM_RBUTTONUP, wm::WM_RBUTTONUP);
    assert_eq!(WM_CONTEXTMENU, wm::WM_CONTEXTMENU);
}

#[test]
fn tray_right_click_shows_menu() {
    assert_eq!(window_action(TRAY_MSG, 1001, 0x205), WindowAction::ShowMenu);
    assert_eq!(window_action(TRAY_MSG, 1001, 0x7B), WindowAction::ShowMenu);
    assert_eq!(window_action(TRAY_MSG, 1001, 0x3_0205), WindowAction::ShowMenu);
    assert_eq!(window_action(TRAY_MSG, 1001, 0x201), WindowAction::Handled);
    assert_eq!(window_action(TRAY_MSG, 0, -1), WindowAction::Handled);
}

#[test]
fn command_and_destroy_messages() {
    assert_eq!(window_action(WM_COMMAND, 4001, 0), WindowAction::Command(4001));
    assert_eq!(window_action(WM_COMMAND, 0x1_0FA5, 0), WindowAction::Command(4005));
    assert_eq!(window_action(WM_DESTROY, 0, 0), WindowAction::Destroy);
    assert_eq!(window_action(0x0F, 0, 0), WindowAction::Default);
}

#[test]
fn modifier_commands() {
    let mut s = st(Modifier::Shift, false, -1);
    assert_eq!(command_step(&mut s, ID_MOD_CTRL), CommandAction::Nothing);
    assert_eq!(s.modifier, Modifier::Ctrl);
    assert_eq!(command_step(&mut s, ID_MOD_ALT), CommandAction::Nothing);
    assert_eq!(s.modifier, Modifier::Alt);
    assert_eq!(command_step(&mut s, ID_MOD_SHIFT), CommandAction::Nothing);
    assert_eq!(s.modifier, Modifier::Shift);
}

#[test]
fn led_command_toggles_and_syncs_when_enabled() {
    let mut s = st(Modifier::Shift, false, 3);
    assert_eq!(command_step(&mut s, ID_TOGGLE_LED), CommandAction::SyncLed(true));
    assert!(s.led_enabled);
    assert_eq!(command_step(&mut s, ID_TOGGLE_LED), CommandAction::Nothing);
    assert!(!s.led_enabled);
    let mut s = st(Modifier::Shift, false, -1);
    assert_eq!(command_step(&mut s, ID_TOGGLE_LED), CommandAction::SyncLed(false));
}

#[test]
fn other_commands() {
    let mut s = st(Modifier::Alt, true, 0);
    assert_eq!(command_step(&mut s, ID_EXIT), CommandAction::Exit);
    assert_eq!(command_step(&mut s, ID_AUTOSTART), CommandAction::ToggleAutostart);
    assert_eq!(command_step(&mut s, ID_ABOUT), CommandAction::ShowAbout);
    assert_eq!(command_step(&mut s, ID_GITHUB), CommandAction::OpenGithub);
    assert_eq!(command_step(&mut s, 9999), CommandAction::Nothing);
    assert_eq!(s, st(Modifier::Alt, true, 0));
}

fn item(id: usize, label: &str, checked: bool, grayed: bool) -> MenuEntry {
    MenuEntry::Item { id, label: label.to_string(), checked, grayed }
}

#[test]
fn menu_layout() {
    let m = context_menu(&st(Modifier::Ctrl, true, 0), false);
    let want = vec![
        item(ID_ABOUT, "&About CapsX", false, false),
        item(ID_GITHUB, "&GitHub \u{2197}", false, false),
        MenuEntry::Separator,
        item(0, "Modifier key:", false, true),
        item(ID_MOD_SHIFT, "  Shift + CapsLock = real toggle", false, false),
        item(ID_MOD_CTRL, "  Ctrl + CapsLock = real toggle", true, false),
        item(ID_MOD_ALT, "  Alt + CapsLock = real toggle", false, false),
        MenuEntry::Separator,
        item(ID_TOGGLE_LED, "&LED language indicator", true, false),
        item(ID_AUTOSTART, "&Start with Windows", false, false),
        MenuEntry::Separator,
        item(ID_EXIT, "E&xit", false, false),
    ];
    assert_eq!(m, want);
}

#[test]
fn menu_checks_follow_state() {
    let m = context_menu(&st(Modifier::Alt, false, 0), true);
    assert_eq!(m[4], item(ID_MOD_SHIFT, "  Shift + CapsLock = real toggle", false, false));
    assert_eq!(m[6], item(ID_MOD_ALT, "  Alt + CapsLock = real toggle", true, false));
    assert_eq!(m[8], item(ID_TOGGLE_LED, "&LED language indicator", false, false));
    assert_eq!(m[9], item(ID_AUTOSTART, "&Start with Windows", true, false));
}

#[test]
fn about_texts() {
    assert_eq!(about_title(), "About CapsX");
    assert_eq!(modifier_label(Modifier::Shift), "Shift");
    assert_eq!(modifier_label(Modifier::Ctrl), "Ctrl");
    assert_eq!(modifier_label(Modifier::Alt), "Alt");
    let body = about_body(Modifier::Ctrl, true, false, "x64");
    let want = format!(
        "{} v{} ({})\r\n\r\n\
         CapsLock keyboard-layout switcher for Windows.\r\n\r\n\
         \u{2022} CapsLock \u{2192} switch to next keyboard layout\r\n\
         \u{2022} {} + CapsLock \u{2192} real CapsLock toggle\r\n\
         \u{2022} LED indicator: {}\r\n\
         \u{2022} Start with Windows: {}\r\n\r\n\
         Tray icon shows the current layout (e.g. EN, RU).\r\n\r\n\
         Startup flags: -shift | -ctrl | -alt | -led\r\n\r\n\
         Based on BarsCaps by Mikhail Svarichevsky\r\n\
         github.com/BarsMonster/BarsCaps\r\n\r\n\
         MIT License",
        "CapsX", "0.1.0", "x64", "Ctrl", "on", "no",
    );
    assert_eq!(body, want);
    let body = about_body(Modifier::Alt, false, true, "ARM64");
    assert!(body.starts_with("CapsX v0.1.0 (ARM64)\r\n"));
    assert!(body.contains("\u{2022} Alt + CapsLock"));
    assert!(body.contains("LED indicator: off\r\n"));
    assert!(body.contains("Start with Windows: yes\r\n"));
}
