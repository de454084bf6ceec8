//! The low-level keyboard hook: what happens to each key event.
//!
//! CapsLock pressed alone switches to the next layout and is swallowed.
//! Modifier + CapsLock is passed on, so the real CapsLock toggle fires.
//! Events that the switcher injects itself to drive the CapsLock LED carry a
//! marker and are always passed on untouched.

use vstd::prelude::*;
use crate::state::AppState;

verus! {

/// Hook code of an event that the hook is to process.
pub const HC_ACTION: i32 = 0;
/// Virtual-key code of CapsLock.
pub const VK_CAPITAL: u32 = 0x14;
pub const WM_KEYDOWN: usize = 0x100;
pub const WM_KEYUP: usize = 0x101;
pub const WM_SYSKEYDOWN: usize = 0x104;
pub const WM_SYSKEYUP: usize = 0x105;
/// Marker in the extra-info field of the CapsLock events injected to set the LED.
pub const MAGIC_LED: usize = 0xCA75_1ED5;

/// What the hook does with an event.
#[derive(Clone, Copy, PartialEq, Eq, Structural, Debug)]
pub enum HookAction {
    /// Hand the event on to the next hook.
    PassThrough,
    /// Switch to the next layout and swallow the key press.
    SwitchLayout,
}

pub open spec fn is_key_down(w_param: usize) -> bool {
    w_param == WM_KEYDOWN || w_param == WM_SYSKEYDOWN
}

pub open spec fn is_key_up(w_param: usize) -> bool {
    w_param == WM_KEYUP || w_param == WM_SYSKEYUP
}

/// A key state whose high-order bit is set (a negative value) means the key is down.
pub open spec fn key_held(key_state: i16) -> bool {
    key_state < 0
}

/// The new state and the action for one keyboard event. `modifier_state` is the
/// key state of the configured modifier at the time of the event.
pub open spec fn hook_outcome(
    s: AppState,
    n_code: i32,
    w_param: usize,
    vk_code: u32,
    extra_info: usize,
    modifier_state: i16,
) -> (AppState, HookAction) {
    if n_code == HC_ACTION && extra_info != MAGIC_LED && vk_code == VK_CAPITAL {
        if is_key_down(w_param) {
            if key_held(modifier_state) {
                (AppState { modifier_combo: true, ..s }, HookAction::PassThrough)
            } else {
                (s, HookAction::SwitchLayout)
            }
        } else if is_key_up(w_param) {
            (AppState { modifier_combo: false, ..s }, HookAction::PassThrough)
        } else {
            (s, HookAction::PassThrough)
        }
    } else {
        (s, HookAction::PassThrough)
    }
}

/// Decides one keyboard event and updates the state.
pub fn hook_step(
    state: &mut AppState,
    n_code: i32,
    w_param: usize,
    vk_code: u32,
    extra_info: usize,
    modifier_state: i16,
) -> (r: HookAction)
    ensures
        (*final(state), r) == hook_outcome(*old(state), n_code, w_param, vk_code, extra_info, modifier_state),
{
    if n_code == HC_ACTION {
        if extra_info == MAGIC_LED {
            return HookAction::PassThrough;
        }
        if vk_code == VK_CAPITAL {
            if w_param == WM_KEYDOWN || w_param == WM_SYSKEYDOWN {
                if modifier_state < 0 {
                    state.modifier_combo = true;
                } else {
                    return HookAction::SwitchLayout;
                }
            } else if w_param == WM_KEYUP || w_param == WM_SYSKEYUP {
                state.modifier_combo = false;
            }
        }
    }
    HookAction::PassThrough
}

/// CapsLock is on when bit 0 of its key state is set.
pub open spec fn caps_on(key_state: i16) -> bool {
    key_state as int % 2 == 1
}

/// The LED is driven (by injecting a CapsLock press and release) only when the
/// indicator is enabled and CapsLock's toggle state differs from the wanted one.
pub fn led_needs_toggle(enabled: bool, caps_state: i16, want_on: bool) -> (r: bool)
    ensures
        r == (enabled && caps_on(caps_state) != want_on),
{
    if !enabled {
        return false;
    }
    assert((caps_state & 1i16 != 0i16) == (caps_state % 2i16 != 0i16)) by (bit_vector);
    let current_on = caps_state & 1 != 0;
    current_on != want_on
}

/// Events injected to set the LED are always handed on and change nothing.
pub proof fn lemma_injected_events_pass(
    s: AppState,
    n_code: i32,
    w_param: usize,
    vk_code: u32,
    modifier_state: i16,
)
    ensures
        hook_outcome(s, n_code, w_param, vk_code, 0xCA75_1ED5, modifier_state) == (s, HookAction::PassThrough),
{
}

/// CapsLock pressed alone (key down, modifier's key state not negative) is
/// swallowed and switches the layout; pressed while the modifier is down (its
/// key state negative, whatever its toggle bit) it is handed on as a real
/// CapsLock toggle and the combination flag is set; the release clears the
/// flag; no event other than a CapsLock key-down ever switches.
pub proof fn lemma_caps_press(
    s: AppState,
    w_param: usize,
    vk_code: u32,
    extra_info: usize,
    modifier_state: i16,
    n_code: i32,
)
    ensures
        (n_code == 0 && vk_code == 0x14 && extra_info != 0xCA75_1ED5 && (w_param == 0x100 || w_param == 0x104)
            && modifier_state >= 0) ==> hook_outcome(s, n_code, w_param, vk_code, extra_info, modifier_state)
            == (s, HookAction::SwitchLayout),
        (n_code == 0 && vk_code == 0x14 && extra_info != 0xCA75_1ED5 && (w_param == 0x100 || w_param == 0x104)
            && modifier_state < 0) ==> hook_outcome(s, n_code, w_param, vk_code, extra_info, modifier_state)
            == (AppState { modifier_combo: true, ..s }, HookAction::PassThrough),
        (n_code == 0 && vk_code == 0x14 && extra_info != 0xCA75_1ED5 && (w_param == 0x101 || w_param == 0x105))
            ==> hook_outcome(s, n_code, w_param, vk_code, extra_info, modifier_state) == (
            AppState { modifier_combo: false, ..s },
            HookAction::PassThrough,
        ),
        modifier_state < 0 ==> hook_outcome(s, n_code, w_param, vk_code, extra_info, modifier_state).1
            == HookAction::PassThrough,
        hook_outcome(s, n_code, w_param, vk_code, extra_info, modifier_state).1 == HookAction::SwitchLayout
            ==> n_code == 0 && vk_code == 0x14 && extra_info != 0xCA75_1ED5 && (w_param == 0x100 || w_param
            == 0x104),
{
}

/// Whether the modifier counts as held depends on the sign of its key state
/// only: two states of the same sign, for instance with and without the
/// toggle bit, lead to the same outcome.
pub proof fn lemma_toggle_bit_ignored(
    s: AppState,
    n_code: i32,
    w_param: usize,
    vk_code: u32,
    extra_info: usize,
    a: i16,
    b: i16,
)
    requires
        (a < 0) == (b < 0),
    ensures
        hook_outcome(s, n_code, w_param, vk_code, extra_info, a) == hook_outcome(
            s,
            n_code,
            w_param,
            vk_code,
            extra_info,
            b,
        ),
{
}

/// The hook changes nothing but the combination flag; the layout index, the
/// modifier and the LED setting are left as they were.
pub proof fn lemma_hook_keeps_settings(
    s: AppState,
    n_code: i32,
    w_param: usize,
    vk_code: u32,
    extra_info: usize,
    modifier_state: i16,
)
    ensures
        ({
            let t = hook_outcome(s, n_code, w_param, vk_code, extra_info, modifier_state).0;
            t.modifier == s.modifier && t.prev_index == s.prev_index && t.led_enabled == s.led_enabled
        }),
{
}

/// CapsLock's toggle state is bit 0 of its key state: off for 0, on for 1
/// and for -1 (0xFFFF), and it changes between neighbouring values.
pub proof fn lemma_caps_bit(k: i16)
    ensures
        !caps_on(0),
        caps_on(1),
        caps_on(-1i16),
        k < i16::MAX ==> caps_on((k + 1) as i16) != caps_on(k),
{
}

} // verus!
