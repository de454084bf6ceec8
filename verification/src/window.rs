//! The hidden window: tray notifications, menu commands and shutdown.

use vstd::prelude::*;
use crate::state::{AppState, Modifier};
use crate::layout::led_for_index;

verus! {

/// Message the tray icon sends to the window (the first application message after WM_APP).
pub const TRAY_MSG: u32 = 0x8001;
pub const WM_COMMAND: u32 = 0x0111;
pub const WM_DESTROY: u32 = 0x0002;
pub const WM_RBUTTONUP: u32 = 0x0205;
pub const WM_CONTEXTMENU: u32 = 0x007B;

/// Menu command identifiers.
pub const ID_EXIT: usize = 4001;
pub const ID_ABOUT: usize = 4002;
pub const ID_GITHUB: usize = 4003;
pub const ID_TOGGLE_LED: usize = 4005;
pub const ID_MOD_SHIFT: usize = 4010;
pub const ID_MOD_CTRL: usize = 4011;
pub const ID_MOD_ALT: usize = 4012;
pub const ID_AUTOSTART: usize = 4013;

/// What the window procedure does with a message.
#[derive(Clone, Copy, PartialEq, Eq, Structural, Debug)]
pub enum WindowAction {
    /// Show the context menu, then report the message handled.
    ShowMenu,
    /// Run the menu command with this identifier, then report the message handled.
    Command(usize),
    /// Remove the tray icon, unhook the keyboard, quit the message loop.
    Destroy,
    /// Report the message handled and do nothing else.
    Handled,
    /// Leave the message to the default window procedure.
    Default,
}

/// The low 16 bits of a message parameter.
pub open spec fn low_word(x: int) -> int {
    x % 0x10000
}

/// The action for a window message.
pub open spec fn window_outcome(msg: u32, w: usize, l: isize) -> WindowAction {
    if msg == TRAY_MSG {
        let event = low_word(l as int);
        if event == WM_RBUTTONUP as int || event == WM_CONTEXTMENU as int {
            WindowAction::ShowMenu
        } else {
            WindowAction::Handled
        }
    } else if msg == WM_COMMAND {
        WindowAction::Command(low_word(w as int) as usize)
    } else if msg == WM_DESTROY {
        WindowAction::Destroy
    } else {
        WindowAction::Default
    }
}

/// Decides what the window procedure does with a message.
pub fn window_action(msg: u32, w: usize, l: isize) -> (r: WindowAction)
    ensures
        r == window_outcome(msg, w, l),
{
    if msg == TRAY_MSG {
        let ev: isize = l & 0xFFFF;
        assert(ev == l & 0xFFFF ==> ev as int == (l as int) % 0x10000) by (bit_vector);
        if ev == 0x0205 || ev == 0x007B {
            WindowAction::ShowMenu
        } else {
            WindowAction::Handled
        }
    } else if msg == WM_COMMAND {
        let c: usize = w & 0xFFFF;
        assert(c == w & 0xFFFF ==> c == w % 0x10000) by (bit_vector);
        WindowAction::Command(c)
    } else if msg == WM_DESTROY {
        WindowAction::Destroy
    } else {
        WindowAction::Default
    }
}

/// What a menu command asks of the window after the state is updated.
#[derive(Clone, Copy, PartialEq, Eq, Structural, Debug)]
pub enum CommandAction {
    /// Destroy the window, which ends the program.
    Exit,
    /// The LED indicator was just switched on: bring the LED to this state.
    SyncLed(bool),
    /// Flip the start-with-Windows registry entry.
    ToggleAutostart,
    /// Show the About box.
    ShowAbout,
    /// Open the project page in the browser.
    OpenGithub,
    /// Nothing more to do.
    Nothing,
}

/// The new state and the action for a menu command.
pub open spec fn command_outcome(s: AppState, cmd: usize) -> (AppState, CommandAction) {
    if cmd == ID_EXIT {
        (s, CommandAction::Exit)
    } else if cmd == ID_MOD_SHIFT {
        (AppState { modifier: Modifier::Shift, ..s }, CommandAction::Nothing)
    } else if cmd == ID_MOD_CTRL {
        (AppState { modifier: Modifier::Ctrl, ..s }, CommandAction::Nothing)
    } else if cmd == ID_MOD_ALT {
        (AppState { modifier: Modifier::Alt, ..s }, CommandAction::Nothing)
    } else if cmd == ID_TOGGLE_LED {
        let t = AppState { led_enabled: !s.led_enabled, ..s };
        if !s.led_enabled {
            (t, CommandAction::SyncLed(led_for_index(if s.prev_index >= 0 { s.prev_index as int } else { 0 })))
        } else {
            (t, CommandAction::Nothing)
        }
    } else if cmd == ID_AUTOSTART {
        (s, CommandAction::ToggleAutostart)
    } else if cmd == ID_ABOUT {
        (s, CommandAction::ShowAbout)
    } else if cmd == ID_GITHUB {
        (s, CommandAction::OpenGithub)
    } else {
        (s, CommandAction::Nothing)
    }
}

/// Carries out a menu command on the state and says what is left to do.
pub fn command_step(state: &mut AppState, cmd: usize) -> (r: CommandAction)
    ensures
        (*final(state), r) == command_outcome(*old(state), cmd),
{
    if cmd == ID_EXIT {
        CommandAction::Exit
    } else if cmd == ID_MOD_SHIFT {
        state.modifier = Modifier::Shift;
        CommandAction::Nothing
    } else if cmd == ID_MOD_CTRL {
        state.modifier = Modifier::Ctrl;
        CommandAction::Nothing
    } else if cmd == ID_MOD_ALT {
        state.modifier = Modifier::Alt;
        CommandAction::Nothing
    } else if cmd == ID_TOGGLE_LED {
        let was = state.led_enabled;
        state.led_enabled = !was;
        if !was {
            CommandAction::SyncLed(crate::layout::led_for_prev(state.prev_index))
        } else {
            CommandAction::Nothing
        }
    } else if cmd == ID_AUTOSTART {
        CommandAction::ToggleAutostart
    } else if cmd == ID_ABOUT {
        CommandAction::ShowAbout
    } else if cmd == ID_GITHUB {
        CommandAction::OpenGithub
    } else {
        CommandAction::Nothing
    }
}

/// The LED menu command flips the indicator setting and touches nothing else.
/// When it switches the indicator on, the LED is brought to the parity of the
/// remembered layout index (lit for an odd index, dark for an even one or
/// before any switch); switching it off asks for nothing.
pub proof fn lemma_led_command(s: AppState)
    ensures
        !s.led_enabled ==> command_outcome(s, 4005) == (
            AppState { led_enabled: true, ..s },
            CommandAction::SyncLed(s.prev_index > 0 && (s.prev_index as int) % 2 == 1),
        ),
        s.led_enabled ==> command_outcome(s, 4005) == (
            AppState { led_enabled: false, ..s },
            CommandAction::Nothing,
        ),
{
}

/// For the tray message the menu is shown exactly on a right-button release
/// (0x205) or a context-menu request (0x7B) in the low word of `l`; any other
/// tray event is just acknowledged. WM_COMMAND runs the command in the low
/// word of `w`, WM_DESTROY shuts down, every other message goes to the default
/// procedure.
pub proof fn lemma_window_messages(msg: u32, w: usize, l: isize)
    ensures
        msg == 0x8001 ==> (window_outcome(msg, w, l) == WindowAction::ShowMenu <==> ((l as int) % 0x10000
            == 0x205 || (l as int) % 0x10000 == 0x7B)),
        msg == 0x8001 && !((l as int) % 0x10000 == 0x205 || (l as int) % 0x10000 == 0x7B) ==> window_outcome(
            msg,
            w,
            l,
        ) == WindowAction::Handled,
        msg == 0x0111 ==> window_outcome(msg, w, l) == WindowAction::Command(((w as int) % 0x10000) as usize),
        msg == 0x0002 ==> window_outcome(msg, w, l) == WindowAction::Destroy,
        msg != 0x8001 && msg != 0x0111 && msg != 0x0002 ==> window_outcome(msg, w, l) == WindowAction::Default,
{
}

/// Toggling the LED indicator twice leaves the state as it was.
pub proof fn lemma_led_toggle_twice(s: AppState)
    ensures
        command_outcome(command_outcome(s, ID_TOGGLE_LED).0, ID_TOGGLE_LED).0 == s,
{
}

/// Choosing a modifier in the menu makes it the modifier, whatever it was,
/// and changes nothing else; Exit, start-with-Windows, About and GitHub leave
/// the state alone and ask for their action; an unknown command does nothing.
pub proof fn lemma_modifier_choice(s: AppState, cmd: usize)
    ensures
        command_outcome(s, 4010) == (AppState { modifier: Modifier::Shift, ..s }, CommandAction::Nothing),
        command_outcome(s, 4011) == (AppState { modifier: Modifier::Ctrl, ..s }, CommandAction::Nothing),
        command_outcome(s, 4012) == (AppState { modifier: Modifier::Alt, ..s }, CommandAction::Nothing),
        command_outcome(s, 4001) == (s, CommandAction::Exit),
        command_outcome(s, 4013) == (s, CommandAction::ToggleAutostart),
        command_outcome(s, 4002) == (s, CommandAction::ShowAbout),
        command_outcome(s, 4003) == (s, CommandAction::OpenGithub),
        !(cmd == 4001 || cmd == 4002 || cmd == 4003 || cmd == 4005 || cmd == 4010 || cmd == 4011 || cmd == 4012
            || cmd == 4013) ==> command_outcome(s, cmd) == (s, CommandAction::Nothing),
{
}

} // verus!
