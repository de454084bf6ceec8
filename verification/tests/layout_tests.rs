use capsx::layout::{find_layout, lang_id, led_for_prev, switch_step, SwitchPlan};
use capsx::state::{AppState, Modifier};

fn fresh() -> AppState {
    AppState { modifier: Modifier::Shift, modifier_combo: false, prev_index: -1, led_enabled: false }
}

const EN_US: usize = 0x0409_0409;
const RU_RU: usize = 0x0419_0419;
const DE_DE: usize = 0x0407_0407;

#[test]
fn lang_id_is_low_word() {
    assert_eq!(lang_id(0x0409_0409), 0x0409);
    assert_eq!(lang_id(0xF001_0419), 0x0419);
    assert_eq!(lang_id(0), 0);
}

#[test]
fn find_layout_first_match() {
    let v = vec![EN_US, RU_RU, 0xF0A0_0419];
    assert_eq!(find_layout(&v, 0x0419), Some(1));
    assert_eq!(find_layout(&v, 0x0409), Some(0));
    assert_eq!(find_layout(&v, 0x0407), None);
}

#[test]
fn switch_goes_to_next_layout() {
    let v = vec![EN_US, RU_RU, DE_DE];
    let mut s = fresh();
    let p = switch_step(&mut s, &v, EN_US).unwrap();
    assert_eq!(p, SwitchPlan { index: 1, hkl: RU_RU, led_on: true });
    assert_eq!(s.prev_index, 1);
}

#[test]
fn switch_wraps_around() {
    let v = vec![EN_US, RU_RU, DE_DE];
    let mut s = fresh();
    let p = switch_step(&mut s, &v, DE_DE).unwrap();
    assert_eq!(p, SwitchPlan { index: 0, hkl: EN_US, led_on: false });
    assert_eq!(s.prev_index, 0);
}

#[test]
fn switch_matches_by_language_only() {
    // Same language, different device part of the handle.
    let v = vec![EN_US, RU_RU];
    let mut s = fresh();
    let p = switch_step(&mut s, &v, 0xF002_0419).unwrap();
    assert_eq!(p.index, 0);
    assert_eq!(p.hkl, EN_US);
}

#[test]
fn switch_unknown_language_uses_previous_index() {
    let v = vec![EN_US, RU_RU, DE_DE];
    let mut s = fresh();
    s.prev_index = 1;
    let p = switch_step(&mut s, &v, 0x0411_0411).unwrap();
    assert_eq!(p.index, 2);
    assert_eq!(s.prev_index, 2);
    let p = switch_step(&mut s, &v, 0x0411_0411).unwrap();
    assert_eq!(p.index, 0);
}

#[test]
fn switch_unknown_language_without_previous_starts_at_first() {
    let v = vec![EN_US, RU_RU, DE_DE];
    let mut s = fresh();
    let p = switch_step(&mut s, &v, 0x0411_0411).unwrap();
    assert_eq!(p.index, 1);
}

#[test]
fn switch_with_stale_previous_index_wraps() {
    let v = vec![EN_US, RU_RU];
    let mut s = fresh();
    s.prev_index = 6;
    let p = switch_step(&mut s, &v, 0).unwrap();
    assert_eq!(p.index, 1);
}

#[test]
fn switch_without_layouts_does_nothing() {
    let v: Vec<usize> = Vec::new();
    let mut s = fresh();
    s.prev_index = 3;
    assert_eq!(switch_step(&mut s, &v, EN_US), None);
    assert_eq!(s.prev_index, 3);
}

#[test]
fn single_layout_stays() {
    let v = vec![EN_US];
    let mut s = fresh();
    let p = switch_step(&mut s, &v, EN_US).unwrap();
    assert_eq!(p, SwitchPlan { index: 0, hkl: EN_US, led_on: false });
}

#[test]
fn full_cycle_returns_to_start() {
    let v = vec![EN_US, RU_RU, DE_DE];
    let mut s = fresh();
    let mut cur = RU_RU;
    let mut seen = Vec::new();
    for _ in 0..3 {
        let p = switch_step(&mut s, &v, cur).unwrap();
        seen.push(p.index);
        cur = p.hkl;
    }
    assert_eq!(seen, vec![2, 0, 1]);
    assert_eq!(cur, RU_RU);
}

#[test]
fn led_alternates_with_two_layouts() {
    let v = vec![EN_US, RU_RU];
    let mut s = fresh();
    let a = switch_step(&mut s, &v, EN_US).unwrap();
    let b = switch_step(&mut s, &v, a.hkl).unwrap();
    assert!(a.led_on);
    assert!(!b.led_on);
}

#[test]
fn led_for_prev_parity() {
    assert!(!led_for_prev(-1));
    assert!(!led_for_prev(0));
    assert!(led_for_prev(1));
    assert!(!led_for_prev(4));
    assert!(led_for_prev(7));
}

const EN_DVORAK: usize = 0xF002_0409;

#[test]
fn switch_tells_layouts_of_one_language_apart() {
    let v = vec![EN_US, EN_DVORAK, RU_RU];
    let mut s = fresh();
    let p = switch_step(&mut s, &v, EN_DVORAK).unwrap();
    assert_eq!(p, SwitchPlan { index: 2, hkl: RU_RU, led_on: false });
    assert_eq!(s.prev_index, 2);
    let p = switch_step(&mut s, &v, EN_US).unwrap();
    assert_eq!(p.index, 1);
    assert_eq!(p.hkl, EN_DVORAK);
}

#[test]
fn full_cycle_with_shared_language() {
    let v = vec![EN_US, EN_DVORAK, RU_RU];
    let mut s = fresh();
    s.prev_index = 7;
    let mut cur = EN_DVORAK;
    let mut seen = Vec::new();
    for _ in 0..3 {
        let p = switch_step(&mut s, &v, cur).unwrap();
        seen.push(p.index);
        cur = p.hkl;
    }
    assert_eq!(seen, vec![2, 0, 1]);
    assert_eq!(cur, EN_DVORAK);
    assert_eq!(s.prev_index, 1);
}

#[test]
fn find_handle_exact() {
    let v = vec![EN_US, EN_DVORAK, RU_RU];
    assert_eq!(capsx::layout::find_handle(&v, EN_DVORAK), Some(1));
    assert_eq!(capsx::layout::find_handle(&v, 0xF003_0409), None);
}
