use capsx::hook::{hook_step, led_needs_toggle, HookAction, HC_ACTION, MAGIC_LED, VK_CAPITAL, WM_KEYDOWN, WM_KEYUP, WM_SYSKEYDOWN, WM_SYSKEYUP};
use capsx::state::{AppState, Modifier};
use windows_sys::Win32::UI::Input::KeyboardAndMouse as kbd;
use windows_sys::Win32::UI::WindowsAndMessaging as wm;

fn fresh() -> AppState {
    AppState { modifier: Modifier::Alt, modifier_combo: false, prev_index: 2, led_enabled: true }
}

#[test]
fn constants_match_win32() {
    assert_eq!(HC_ACTION, wm::HC_ACTION as i32);
    assert_eq!(VK_CAPITAL, kbd::VK_CAPITAL as u32);
    assert_eq!(WM_KEYDOWN, wm::WM_KEYDOWN as usize);
    assert_eq!(WM_KEYUP, wm::WM_KEYUP as usize);
    assert_eq!(WM_SYSKEYDOWN, wm::WM_SYSKEYDOWN as usize);
    assert_eq!(WM_SYSKEYUP, wm::WM_SYSKEYUP as usize);
    assert_eq!(capsx::state::VK_SHIFT, kbd::VK_SHIFT);
    assert_eq!(capsx::state::VK_CONTROL, kbd::VK_CONTROL);
    assert_eq!(capsx::state::VK_MENU, kbd::VK_MENU);
}

#[test]
fn caps_alone_switches() {
    let mut s = fresh();
    assert_eq!(hook_step(&mut s, 0, WM_KEYDOWN, 0x14, 0, 0), HookAction::SwitchLayout);
    assert_eq!(s, fresh());
    assert_eq!(hook_step(&mut s, 0, WM_SYSKEYDOWN, 0x14, 0, 1), HookAction::SwitchLayout);
}

#[test]
fn modifier_caps_passes_and_sets_combo() {
    let mut s = fresh();
    assert_eq!(hook_step(&mut s, 0, WM_KEYDOWN, 0x14, 0, -128), HookAction::PassThrough);
    assert!(s.modifier_combo);
    assert_eq!(hook_step(&mut s, 0, WM_KEYUP, 0x14, 0, 0), HookAction::PassThrough);
    assert!(!s.modifier_combo);
}

#[test]
fn sys_key_up_clears_combo() {
    let mut s = fresh();
    s.modifier_combo = true;
    assert_eq!(hook_step(&mut s, 0, WM_SYSKEYUP, 0x14, 0, 0), HookAction::PassThrough);
    assert!(!s.modifier_combo);
}

#[test]
fn injected_led_events_pass() {
    let mut s = fresh();
    assert_eq!(hook_step(&mut s, 0, WM_KEYDOWN, 0x14, MAGIC_LED, 0), HookAction::PassThrough);
    assert_eq!(hook_step(&mut s, 0, WM_KEYUP, 0x14, MAGIC_LED, -1), HookAction::PassThrough);
    assert_eq!(s, fresh());
}

#[test]
fn other_keys_and_codes_pass() {
    let mut s = fresh();
    assert_eq!(hook_step(&mut s, 0, WM_KEYDOWN, 0x41, 0, 0), HookAction::PassThrough);
    assert_eq!(hook_step(&mut s, 3, WM_KEYDOWN, 0x14, 0, 0), HookAction::PassThrough);
    assert_eq!(hook_step(&mut s, -1, WM_KEYDOWN, 0x14, 0, 0), HookAction::PassThrough);
    assert_eq!(hook_step(&mut s, 0, 0x200, 0x14, 0, -5), HookAction::PassThrough);
    assert_eq!(s, fresh());
}

#[test]
fn led_toggle_decision() {
    assert!(!led_needs_toggle(false, 0, true));
    assert!(led_needs_toggle(true, 0, true));
    assert!(!led_needs_toggle(true, 1, true));
    assert!(led_needs_toggle(true, 1, false));
    assert!(!led_needs_toggle(true, 0, false));
    // High bit (key down) does not matter, only bit 0.
    assert!(!led_needs_toggle(true, -127, true));
    assert!(led_needs_toggle(true, -128, true));
}
