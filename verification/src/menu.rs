//! The tray icon's context menu.

use vstd::prelude::*;
use crate::state::{AppState, Modifier};
use crate::window::{command_outcome, CommandAction, ID_ABOUT, ID_AUTOSTART, ID_EXIT, ID_GITHUB, ID_MOD_ALT, ID_MOD_CTRL, ID_MOD_SHIFT, ID_TOGGLE_LED};

verus! {

/// One line of the context menu.
#[derive(Debug, PartialEq, Eq)]
pub enum MenuEntry {
    /// A dividing line.
    Separator,
    /// A text line; `id` 0 marks a label that runs no command.
    Item { id: usize, label: String, checked: bool, grayed: bool },
}

/// `e` is the text line with exactly these contents.
pub open spec fn is_item(e: MenuEntry, id: usize, label: Seq<char>, checked: bool, grayed: bool) -> bool {
    match e {
        MenuEntry::Item { id: i, label: l, checked: c, grayed: g } => i == id && l@ == label && c == checked
            && g == grayed,
        MenuEntry::Separator => false,
    }
}

/// The menu for a state: About and GitHub, the modifier choice with the
/// current modifier checked, the LED and start-with-Windows toggles checked when
/// on, and Exit, in groups divided by separators.
pub open spec fn menu_shape(m: Seq<MenuEntry>, s: AppState, autostart: bool) -> bool {
    &&& m.len() == 12
    &&& is_item(m[0], ID_ABOUT, "&About CapsX"@, false, false)
    &&& is_item(m[1], ID_GITHUB, "&GitHub \u{2197}"@, false, false)
    &&& m[2] == MenuEntry::Separator
    &&& is_item(m[3], 0, "Modifier key:"@, false, true)
    &&& is_item(m[4], ID_MOD_SHIFT, "  Shift + CapsLock = real toggle"@, s.modifier == Modifier::Shift, false)
    &&& is_item(m[5], ID_MOD_CTRL, "  Ctrl + CapsLock = real toggle"@, s.modifier == Modifier::Ctrl, false)
    &&& is_item(m[6], ID_MOD_ALT, "  Alt + CapsLock = real toggle"@, s.modifier == Modifier::Alt, false)
    &&& m[7] == MenuEntry::Separator
    &&& is_item(m[8], ID_TOGGLE_LED, "&LED language indicator"@, s.led_enabled, false)
    &&& is_item(m[9], ID_AUTOSTART, "&Start with Windows"@, autostart, false)
    &&& m[10] == MenuEntry::Separator
    &&& is_item(m[11], ID_EXIT, "E&xit"@, false, false)
}

fn item(id: usize, label: &str, checked: bool, grayed: bool) -> (r: MenuEntry)
    ensures
        is_item(r, id, label@, checked, grayed),
{
    MenuEntry::Item { id, label: label.to_owned(), checked, grayed }
}

/// Builds the context menu; `autostart` tells whether the start-with-Windows
/// entry exists.
pub fn context_menu(state: &AppState, autostart: bool) -> (r: Vec<MenuEntry>)
    ensures
        menu_shape(r@, *state, autostart),
{
    let mut m: Vec<MenuEntry> = Vec::new();
    m.push(item(ID_ABOUT, "&About CapsX", false, false));
    m.push(item(ID_GITHUB, "&GitHub \u{2197}", false, false));
    m.push(MenuEntry::Separator);
    m.push(item(0, "Modifier key:", false, true));
    let shift = match state.modifier { Modifier::Shift => true, _ => false };
    let ctrl = match state.modifier { Modifier::Ctrl => true, _ => false };
    let alt = match state.modifier { Modifier::Alt => true, _ => false };
    m.push(item(ID_MOD_SHIFT, "  Shift + CapsLock = real toggle", shift, false));
    m.push(item(ID_MOD_CTRL, "  Ctrl + CapsLock = real toggle", ctrl, false));
    m.push(item(ID_MOD_ALT, "  Alt + CapsLock = real toggle", alt, false));
    m.push(MenuEntry::Separator);
    m.push(item(ID_TOGGLE_LED, "&LED language indicator", state.led_enabled, false));
    m.push(item(ID_AUTOSTART, "&Start with Windows", autostart, false));
    m.push(MenuEntry::Separator);
    m.push(item(ID_EXIT, "E&xit", false, false));
    m
}

/// `e` is a checked text line.
pub open spec fn is_checked(e: MenuEntry) -> bool {
    match e {
        MenuEntry::Item { checked, .. } => checked,
        MenuEntry::Separator => false,
    }
}

/// Exactly one of the three modifier lines is checked, the one of the current modifier.
pub proof fn lemma_one_modifier_checked(m: Seq<MenuEntry>, s: AppState, autostart: bool)
    requires
        menu_shape(m, s, autostart),
    ensures
        (is_checked(m[4]) as int) + (is_checked(m[5]) as int) + (is_checked(m[6]) as int) == 1,
        is_checked(m[4]) <==> s.modifier == Modifier::Shift,
        is_checked(m[5]) <==> s.modifier == Modifier::Ctrl,
        is_checked(m[6]) <==> s.modifier == Modifier::Alt,
{
}

/// After a modifier is chosen from the menu, the next menu shows it checked.
pub proof fn lemma_choice_shows_checked(s: AppState, cmd: usize, m: Seq<MenuEntry>, autostart: bool)
    requires
        cmd == ID_MOD_SHIFT || cmd == ID_MOD_CTRL || cmd == ID_MOD_ALT,
        menu_shape(m, crate::window::command_outcome(s, cmd).0, autostart),
    ensures
        cmd == ID_MOD_SHIFT ==> is_checked(m[4]) && !is_checked(m[5]) && !is_checked(m[6]),
        cmd == ID_MOD_CTRL ==> is_checked(m[5]) && !is_checked(m[4]) && !is_checked(m[6]),
        cmd == ID_MOD_ALT ==> is_checked(m[6]) && !is_checked(m[4]) && !is_checked(m[5]),
{
}

/// The command identifier of a menu line (0 for a separator).
pub open spec fn item_id(e: MenuEntry) -> usize {
    match e {
        MenuEntry::Item { id, .. } => id,
        MenuEntry::Separator => 0,
    }
}

/// The text of a menu line (empty for a separator).
pub open spec fn item_label(e: MenuEntry) -> Seq<char> {
    match e {
        MenuEntry::Item { label, .. } => label@,
        MenuEntry::Separator => Seq::empty(),
    }
}

/// Each line of the menu runs the command it names: the three modifier lines
/// name Shift, Ctrl and Alt and select that modifier, so that the same line is
/// the checked one in the next menu; the LED line is checked when the
/// indicator is on and its command flips it; the start-with-Windows line is
/// checked when the entry exists and its command toggles it; About, GitHub and
/// Exit run their actions.
pub proof fn lemma_menu_commands(s: AppState, autostart: bool, m: Seq<MenuEntry>, m2: Seq<MenuEntry>, k: int)
    requires
        menu_shape(m, s, autostart),
        4 <= k <= 6,
        menu_shape(m2, command_outcome(s, item_id(m[k])).0, autostart),
    ensures
        is_checked(m2[k]),
        forall|o: int| 4 <= o <= 6 && o != k ==> !is_checked(#[trigger] m2[o]),
        k == 4 ==> item_label(m[k]).subrange(2, 7) == "Shift"@,
        k == 5 ==> item_label(m[k]).subrange(2, 6) == "Ctrl"@,
        k == 6 ==> item_label(m[k]).subrange(2, 5) == "Alt"@,
        is_checked(m[8]) == s.led_enabled,
        command_outcome(s, item_id(m[8])).0.led_enabled == !s.led_enabled,
        is_checked(m[9]) == autostart,
        command_outcome(s, item_id(m[9])).1 == CommandAction::ToggleAutostart,
        command_outcome(s, item_id(m[0])).1 == CommandAction::ShowAbout,
        command_outcome(s, item_id(m[1])).1 == CommandAction::OpenGithub,
        command_outcome(s, item_id(m[11])).1 == CommandAction::Exit,
{
    reveal_strlit("  Shift + CapsLock = real toggle");
    reveal_strlit("  Ctrl + CapsLock = real toggle");
    reveal_strlit("  Alt + CapsLock = real toggle");
    reveal_strlit("Shift");
    reveal_strlit("Ctrl");
    reveal_strlit("Alt");
    if k == 4 {
        assert(item_label(m[k]).subrange(2, 7) =~= "Shift"@);
    } else if k == 5 {
        assert(item_label(m[k]).subrange(2, 6) =~= "Ctrl"@);
    } else {
        assert(item_label(m[k]).subrange(2, 5) =~= "Alt"@);
    }
}

} // verus!
