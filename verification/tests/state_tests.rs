use capsx::state::{apply_arg, initial_state, AppState, Modifier};

fn args(a: &[&str]) -> Vec<String> {
    a.iter().map(|s| s.to_string()).collect()
}

#[test]
fn defaults_without_flags() {
    let s = initial_state(&args(&["capsx.exe"]));
    assert_eq!(s, AppState { modifier: Modifier::Alt, modifier_combo: false, prev_index: -1, led_enabled: false });
}

#[test]
fn modifier_flags() {
    assert_eq!(initial_state(&args(&["capsx.exe", "-ctrl"])).modifier, Modifier::Ctrl);
    assert_eq!(initial_state(&args(&["capsx.exe", "-alt"])).modifier, Modifier::Alt);
    assert_eq!(initial_state(&args(&["capsx.exe", "-alt", "-shift"])).modifier, Modifier::Shift);
    assert_eq!(initial_state(&args(&["capsx.exe", "-shift", "-ctrl"])).modifier, Modifier::Ctrl);
}

#[test]
fn led_flag_and_unknown_args() {
    let s = initial_state(&args(&["capsx.exe", "-led", "--led", "-ALT", "alt"]));
    assert!(s.led_enabled);
    assert_eq!(s.modifier, Modifier::Alt);
    let s = initial_state(&args(&["capsx.exe", "-ctrl", "-led"]));
    assert!(s.led_enabled);
    assert_eq!(s.modifier, Modifier::Ctrl);
}

#[test]
fn empty_args() {
    let s = initial_state(&Vec::new());
    assert_eq!(s.prev_index, -1);
}

#[test]
fn apply_single_arg() {
    let mut s = initial_state(&Vec::new());
    apply_arg(&mut s, &"-ctrl".to_string());
    assert_eq!(s.modifier, Modifier::Ctrl);
    apply_arg(&mut s, &"x".to_string());
    assert_eq!(s.modifier, Modifier::Ctrl);
}

#[test]
fn vk_codes() {
    assert_eq!(Modifier::Shift.vk_code(), 0x10);
    assert_eq!(Modifier::Ctrl.vk_code(), 0x11);
    assert_eq!(Modifier::Alt.vk_code(), 0x12);
}
