//! The switcher's state: the modifier that makes CapsLock a real toggle,
//! the LED indicator setting, and the last layout index that was chosen.

use vstd::prelude::*;

verus! {

/// The key that, held together with CapsLock, lets the real CapsLock toggle through.
#[derive(Clone, Copy, PartialEq, Eq, Structural, Debug)]
pub enum Modifier {
    Shift,
    Ctrl,
    Alt,
}

/// Virtual-key code of Shift.
pub const VK_SHIFT: u16 = 0x10;
/// Virtual-key code of Ctrl.
pub const VK_CONTROL: u16 = 0x11;
/// Virtual-key code of Alt.
pub const VK_MENU: u16 = 0x12;

/// The virtual-key code that stands for a modifier.
pub open spec fn modifier_vk(m: Modifier) -> u16 {
    match m {
        Modifier::Shift => VK_SHIFT,
        Modifier::Ctrl => VK_CONTROL,
        Modifier::Alt => VK_MENU,
    }
}

impl Modifier {
    /// The virtual-key code whose state is read to tell whether the modifier is held.
    pub fn vk_code(&self) -> (r: u16)
        ensures
            r == modifier_vk(*self),
    {
        match self {
            Modifier::Shift => VK_SHIFT,
            Modifier::Ctrl => VK_CONTROL,
            Modifier::Alt => VK_MENU,
        }
    }
}

/// Everything the switcher remembers between events.
#[derive(Clone, Copy, PartialEq, Eq, Structural, Debug)]
pub struct AppState {
    /// Modifier + CapsLock is passed on as a real CapsLock toggle.
    pub modifier: Modifier,
    /// Set while a Modifier + CapsLock press is in progress.
    pub modifier_combo: bool,
    /// Index of the layout chosen by the last switch, or -1 before the first one.
    pub prev_index: i32,
    /// Whether the CapsLock LED shows the parity of the layout index.
    pub led_enabled: bool,
}

/// The state at start-up, before any command-line flag is applied.
pub open spec fn default_state() -> AppState {
    AppState { modifier: Modifier::Alt, modifier_combo: false, prev_index: -1i32, led_enabled: false }
}

/// What one command-line argument does to the state; unknown arguments are ignored.
pub open spec fn apply_flag(s: AppState, arg: Seq<char>) -> AppState {
    if arg == "-shift"@ {
        AppState { modifier: Modifier::Shift, ..s }
    } else if arg == "-ctrl"@ {
        AppState { modifier: Modifier::Ctrl, ..s }
    } else if arg == "-alt"@ {
        AppState { modifier: Modifier::Alt, ..s }
    } else if arg == "-led"@ {
        AppState { led_enabled: true, ..s }
    } else {
        s
    }
}

/// The state after the arguments are applied in order, the last one last.
pub open spec fn apply_flags(s: AppState, args: Seq<Seq<char>>) -> AppState
    decreases args.len(),
{
    if args.len() == 0 {
        s
    } else {
        apply_flag(apply_flags(s, args.drop_last()), args.last())
    }
}

/// The views of a list of strings.
pub open spec fn string_views(args: Seq<String>) -> Seq<Seq<char>> {
    args.map_values(|a: String| a@)
}

fn arg_is(arg: &String, flag: &str) -> (r: bool)
    ensures
        r == (arg@ == flag@),
{
    let f: String = flag.to_owned();
    *arg == f
}

/// Applies one command-line argument to the state.
pub fn apply_arg(state: &mut AppState, arg: &String)
    ensures
        *final(state) == apply_flag(*old(state), arg@),
{
    if arg_is(arg, "-shift") {
        state.modifier = Modifier::Shift;
    } else if arg_is(arg, "-ctrl") {
        state.modifier = Modifier::Ctrl;
    } else if arg_is(arg, "-alt") {
        state.modifier = Modifier::Alt;
    } else if arg_is(arg, "-led") {
        state.led_enabled = true;
    }
}

/// The start-up state for the given command line (program name included, as the
/// process hands it over): Alt is the default modifier, the LED indicator is off
/// unless `-led` is given, and no layout has been chosen yet.
pub fn initial_state(args: &Vec<String>) -> (r: AppState)
    ensures
        r == apply_flags(default_state(), string_views(args@)),
{
    let mut state = AppState {
        modifier: Modifier::Alt,
        modifier_combo: false,
        prev_index: -1,
        led_enabled: false,
    };
    let n = args.len();
    let mut i: usize = 0;
    while i < n
        invariant
            n == args@.len(),
            i <= n,
            state == apply_flags(default_state(), string_views(args@).take(i as int)),
        decreases n - i,
    {
        proof {
            let vs = string_views(args@);
            assert(vs.take(i + 1).drop_last() =~= vs.take(i as int));
        }
        apply_arg(&mut state, &args[i]);
        i = i + 1;
    }
    assert(string_views(args@).take(n as int) =~= string_views(args@));
    state
}

/// The four flags are distinct words.
proof fn lemma_flags_distinct()
    ensures
        "-shift"@ != "-ctrl"@,
        "-shift"@ != "-alt"@,
        "-shift"@ != "-led"@,
        "-ctrl"@ != "-alt"@,
        "-ctrl"@ != "-led"@,
        "-alt"@ != "-led"@,
{
    reveal_strlit("-shift");
    reveal_strlit("-ctrl");
    reveal_strlit("-alt");
    reveal_strlit("-led");
    assert("-shift"@[1] != "-ctrl"@[1]);
    assert("-shift"@[1] != "-alt"@[1]);
    assert("-shift"@[1] != "-led"@[1]);
    assert("-ctrl"@[1] != "-alt"@[1]);
    assert("-ctrl"@[1] != "-led"@[1]);
    assert("-alt"@[1] != "-led"@[1]);
}

/// The LED indicator is on after start-up exactly when it was on before the
/// flags or `-led` is among them; the modifier flags never touch it, and
/// `-led` never touches the modifier. The layout index and the combination
/// flag are not changed by any argument.
pub proof fn lemma_flags_effect(s: AppState, args: Seq<Seq<char>>)
    ensures
        apply_flags(s, args).led_enabled == (s.led_enabled || args.contains("-led"@)),
        apply_flags(s, args).prev_index == s.prev_index,
        apply_flags(s, args).modifier_combo == s.modifier_combo,
    decreases args.len(),
{
    lemma_flags_distinct();
    if args.len() > 0 {
        let init = args.drop_last();
        lemma_flags_effect(s, init);
        assert(args =~= init.push(args.last()));
        if args.contains("-led"@) {
            let k = choose|k: int| 0 <= k < args.len() && args[k] == "-led"@;
            if k < args.len() - 1 {
                assert(init[k] == "-led"@);
            }
        }
        if init.contains("-led"@) {
            let k = choose|k: int| 0 <= k < init.len() && init[k] == "-led"@;
            assert(args[k] == "-led"@);
        }
    }
}

/// Of several modifier flags the last one wins.
pub proof fn lemma_last_modifier_wins(s: AppState, args: Seq<Seq<char>>, m: Modifier)
    requires
        args.len() > 0,
        args.last() == (match m {
            Modifier::Shift => "-shift"@,
            Modifier::Ctrl => "-ctrl"@,
            Modifier::Alt => "-alt"@,
        }),
    ensures
        apply_flags(s, args).modifier == m,
{
    lemma_flags_distinct();
}

/// An argument that is none of `-shift`, `-ctrl`, `-alt` leaves the modifier
/// as it was; `-led` switches the LED indicator on and changes nothing else;
/// each modifier flag selects its modifier and changes nothing else.
pub proof fn lemma_flag_effects(s: AppState, arg: Seq<char>)
    ensures
        !(arg == "-shift"@ || arg == "-ctrl"@ || arg == "-alt"@) ==> apply_flag(s, arg).modifier == s.modifier,
        apply_flag(s, "-led"@) == (AppState { led_enabled: true, ..s }),
        apply_flag(s, "-shift"@) == (AppState { modifier: Modifier::Shift, ..s }),
        apply_flag(s, "-ctrl"@) == (AppState { modifier: Modifier::Ctrl, ..s }),
        apply_flag(s, "-alt"@) == (AppState { modifier: Modifier::Alt, ..s }),
        !(arg == "-shift"@ || arg == "-ctrl"@ || arg == "-alt"@ || arg == "-led"@) ==> apply_flag(s, arg) == s,
{
    lemma_flags_distinct();
}

/// With no modifier flag among the arguments the modifier stays as it was.
pub proof fn lemma_no_modifier_flag(s: AppState, args: Seq<Seq<char>>)
    requires
        forall|j: int|
            0 <= j < args.len() ==> !(#[trigger] args[j] == "-shift"@ || args[j] == "-ctrl"@ || args[j] == "-alt"@),
    ensures
        apply_flags(s, args).modifier == s.modifier,
    decreases args.len(),
{
    if args.len() > 0 {
        lemma_no_modifier_flag(s, args.drop_last());
        lemma_flag_effects(apply_flags(s, args.drop_last()), args.last());
    }
}

/// The modifier after the arguments is the one named by the last modifier
/// flag among them, whatever flags or other arguments follow it.
pub proof fn lemma_last_modifier_flag(s: AppState, args: Seq<Seq<char>>, k: int)
    requires
        0 <= k < args.len(),
        args[k] == "-shift"@ || args[k] == "-ctrl"@ || args[k] == "-alt"@,
        forall|j: int|
            k < j < args.len() ==> !(#[trigger] args[j] == "-shift"@ || args[j] == "-ctrl"@ || args[j] == "-alt"@),
    ensures
        args[k] == "-shift"@ ==> apply_flags(s, args).modifier == Modifier::Shift,
        args[k] == "-ctrl"@ ==> apply_flags(s, args).modifier == Modifier::Ctrl,
        args[k] == "-alt"@ ==> apply_flags(s, args).modifier == Modifier::Alt,
    decreases args.len(),
{
    lemma_flags_distinct();
    let init = args.drop_last();
    lemma_flag_effects(apply_flags(s, init), args.last());
    if k < args.len() - 1 {
        lemma_last_modifier_flag(s, init, k);
    }
}

/// Started without a modifier flag, the switcher uses Alt as the modifier, has
/// chosen no layout yet (index -1), has no combination in progress, and has
/// the LED indicator on exactly when `-led` was given.
pub proof fn lemma_start_defaults(args: Seq<Seq<char>>)
    requires
        forall|j: int|
            0 <= j < args.len() ==> !(#[trigger] args[j] == "-shift"@ || args[j] == "-ctrl"@ || args[j] == "-alt"@),
    ensures
        apply_flags(default_state(), args).modifier == Modifier::Alt,
        apply_flags(default_state(), args).prev_index == -1,
        !apply_flags(default_state(), args).modifier_combo,
        apply_flags(default_state(), args).led_enabled == args.contains("-led"@),
{
    lemma_no_modifier_flag(default_state(), args);
    lemma_flags_effect(default_state(), args);
}

} // verus!
