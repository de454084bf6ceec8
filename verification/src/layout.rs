//! Choosing the next installed keyboard layout.
//!
//! A layout handle is a machine word whose low 16 bits are the language
//! identifier. The foreground window's current layout is looked up in the list
//! of installed layouts, by its whole handle first and by its language when the
//! handle is not listed; the switch goes to the entry after it, wrapping around
//! at the end of the list.

use vstd::prelude::*;
use crate::state::AppState;

verus! {

/// The language identifier held in the low word of a layout handle.
pub open spec fn lang_of(hkl: usize) -> int {
    hkl as int % 0x10000
}

/// The language identifier of a layout handle.
pub fn lang_id(hkl: usize) -> (r: usize)
    ensures
        r as int == lang_of(hkl),
{
    assert(hkl & 0xFFFF == hkl % 0x10000) by (bit_vector);
    hkl & 0xFFFF
}

/// `i` is the first position in `layouts` whose language is `lang`.
pub open spec fn is_first_match(layouts: Seq<usize>, lang: int, i: int) -> bool {
    &&& 0 <= i < layouts.len()
    &&& lang_of(layouts[i]) == lang
    &&& forall|j: int| 0 <= j < i ==> lang_of(#[trigger] layouts[j]) != lang
}

/// Some layout in the list has the language `lang`.
pub open spec fn has_lang(layouts: Seq<usize>, lang: int) -> bool {
    exists|j: int| 0 <= j < layouts.len() && lang_of(#[trigger] layouts[j]) == lang
}

/// `i` is the first position in `layouts` that holds the handle `hkl`.
pub open spec fn is_first_handle(layouts: Seq<usize>, hkl: usize, i: int) -> bool {
    &&& 0 <= i < layouts.len()
    &&& layouts[i] == hkl
    &&& forall|j: int| 0 <= j < i ==> #[trigger] layouts[j] != hkl
}

/// The list holds the handle `hkl`.
pub open spec fn has_handle(layouts: Seq<usize>, hkl: usize) -> bool {
    exists|j: int| 0 <= j < layouts.len() && #[trigger] layouts[j] == hkl
}

/// The index that the switch starts from: the first layout with the current
/// handle; failing that, the first layout with the current language; failing
/// that, the index chosen by the previous switch; failing that, the first layout.
pub open spec fn start_index(layouts: Seq<usize>, current_hkl: usize, prev_index: i32) -> int {
    let lang = lang_of(current_hkl);
    if has_handle(layouts, current_hkl) {
        choose|i: int| is_first_handle(layouts, current_hkl, i)
    } else if has_lang(layouts, lang) {
        choose|i: int| is_first_match(layouts, lang, i)
    } else if prev_index >= 0 {
        prev_index as int
    } else {
        0
    }
}

/// The index after `i` in a list of `n` layouts, wrapping around.
pub open spec fn next_index(i: int, n: int) -> int {
    (i + 1) % n
}

/// The LED is lit for odd layout indices and dark for even ones.
pub open spec fn led_for_index(i: int) -> bool {
    i % 2 == 1
}

/// Finds the first layout whose language is `lang`.
pub fn find_layout(layouts: &Vec<usize>, lang: usize) -> (r: Option<usize>)
    ensures
        match r {
            Some(i) => is_first_match(layouts@, lang as int, i as int),
            None => !has_lang(layouts@, lang as int),
        },
{
    let n = layouts.len();
    let mut i: usize = 0;
    while i < n
        invariant
            n == layouts@.len(),
            i <= n,
            forall|j: int| 0 <= j < i ==> lang_of(#[trigger] layouts@[j]) != lang as int,
        decreases n - i,
    {
        if lang_id(layouts[i]) == lang {
            return Some(i);
        }
        i = i + 1;
    }
    None
}

/// Finds the first layout with exactly the handle `hkl`.
pub fn find_handle(layouts: &Vec<usize>, hkl: usize) -> (r: Option<usize>)
    ensures
        match r {
            Some(i) => is_first_handle(layouts@, hkl, i as int),
            None => !has_handle(layouts@, hkl),
        },
{
    let n = layouts.len();
    let mut i: usize = 0;
    while i < n
        invariant
            n == layouts@.len(),
            i <= n,
            forall|j: int| 0 <= j < i ==> #[trigger] layouts@[j] != hkl,
        decreases n - i,
    {
        if layouts[i] == hkl {
            return Some(i);
        }
        i = i + 1;
    }
    None
}

/// The index a switch chooses among a non-empty list of layouts.
pub open spec fn switch_target(layouts: Seq<usize>, current_hkl: usize, prev_index: i32) -> int {
    next_index(start_index(layouts, current_hkl, prev_index), layouts.len() as int)
}

/// What a switch does: the layout to request for the foreground window and
/// whether the LED should then be lit.
#[derive(Clone, Copy, PartialEq, Eq, Structural, Debug)]
pub struct SwitchPlan {
    pub index: usize,
    pub hkl: usize,
    pub led_on: bool,
}

/// Decides a CapsLock switch. With no layout installed nothing happens.
/// Otherwise the next layout after the current one is chosen (wrapping
/// around), remembered as the previous index, and the LED is to be lit
/// exactly when its index is odd.
pub fn switch_step(state: &mut AppState, layouts: &Vec<usize>, current_hkl: usize) -> (r: Option<SwitchPlan>)
    requires
        !has_lang(layouts@, lang_of(current_hkl)) ==> old(state).prev_index < i32::MAX,
        layouts@.len() <= i32::MAX,
    ensures
        layouts@.len() == 0 ==> r is None && *final(state) == *old(state),
        layouts@.len() > 0 ==> {
            let i = switch_target(layouts@, current_hkl, old(state).prev_index);
            &&& r matches Some(p)
            &&& p.index < layouts@.len()
            &&& p.index as int == i
            &&& p.hkl == layouts@[i]
            &&& p.led_on == led_for_index(i)
            &&& *final(state) == AppState { prev_index: i as i32, ..*old(state) }
        },
{
    let n = layouts.len();
    if n == 0 {
        return None;
    }
    let start: usize = match find_handle(layouts, current_hkl) {
        Some(i) => {
            proof {
                assert(has_handle(layouts@, current_hkl));
                let c = choose|k: int| is_first_handle(layouts@, current_hkl, k);
                assert(is_first_handle(layouts@, current_hkl, c));
                if c < i {
                    assert(layouts@[c] != current_hkl);
                } else if c > i {
                    assert(layouts@[i as int] != current_hkl);
                }
            }
            i
        },
        None => {
            let lang = lang_id(current_hkl);
            match find_layout(layouts, lang) {
                Some(i) => {
                    proof {
                        let ghost lg = lang_of(current_hkl);
                        assert(has_lang(layouts@, lg));
                        let c = choose|k: int| is_first_match(layouts@, lg, k);
                        assert(is_first_match(layouts@, lg, c));
                        if c < i {
                            assert(lang_of(layouts@[c]) != lg);
                        } else if c > i {
                            assert(lang_of(layouts@[i as int]) != lg);
                        }
                    }
                    i
                },
                None => {
                    if state.prev_index >= 0 {
                        state.prev_index as usize
                    } else {
                        0
                    }
                },
            }
        },
    };
    let next: usize = (start + 1) % n;
    state.prev_index = next as i32;
    Some(SwitchPlan { index: next, hkl: layouts[next], led_on: next % 2 == 1 })
}

/// The LED parity for a stored previous index; before the first switch the
/// first layout (index 0) is assumed.
pub fn led_for_prev(prev_index: i32) -> (r: bool)
    ensures
        r == led_for_index(if prev_index >= 0 { prev_index as int } else { 0 }),
{
    let i: i32 = if prev_index >= 0 { prev_index } else { 0 };
    i % 2 == 1
}

/// The index reached from `i` after `k` switches among `n` layouts.
pub open spec fn advance(i: int, n: int, k: nat) -> int
    decreases k,
{
    if k == 0 {
        i
    } else {
        next_index(advance(i, n, (k - 1) as nat), n)
    }
}

/// The switch always lands on an installed layout.
pub proof fn lemma_next_in_range(i: int, n: int)
    requires
        0 <= i,
        n > 0,
    ensures
        0 <= next_index(i, n) < n,
{
}

/// `k` switches from index `i` land on `(i + k) mod n`.
pub proof fn lemma_advance(i: int, n: int, k: nat)
    requires
        0 <= i < n,
    ensures
        advance(i, n, k) == (i + k) % n,
    decreases k,
{
    if k > 0 {
        lemma_advance(i, n, (k - 1) as nat);
        vstd::arithmetic::div_mod::lemma_add_mod_noop_right(1, i + k - 1, n);
    } else {
        vstd::arithmetic::div_mod::lemma_small_mod(i as nat, n as nat);
    }
}

/// Index `j` is reached from `i` by fewer than `n` switches.
pub open spec fn visits(i: int, n: int, j: int) -> bool {
    exists|k: nat| k < n && #[trigger] advance(i, n, k) == j
}

/// Switching as many times as there are layouts comes back to the layout
/// one started from; every layout is visited on the way.
pub proof fn lemma_full_cycle(i: int, n: int)
    requires
        0 <= i < n,
    ensures
        advance(i, n, n as nat) == i,
        forall|j: int| 0 <= j < n ==> #[trigger] visits(i, n, j),
{
    lemma_advance(i, n, n as nat);
    vstd::arithmetic::div_mod::lemma_mod_add_multiples_vanish(i, n);
    vstd::arithmetic::div_mod::lemma_small_mod(i as nat, n as nat);
    assert forall|j: int| 0 <= j < n implies #[trigger] visits(i, n, j) by {
        let k: nat = if j >= i { (j - i) as nat } else { (j - i + n) as nat };
        lemma_advance(i, n, k);
        vstd::arithmetic::div_mod::lemma_small_mod(j as nat, n as nat);
        vstd::arithmetic::div_mod::lemma_mod_add_multiples_vanish(j, n);
        assert(advance(i, n, k) == j);
    }
}

/// With an even number of layouts, every switch flips the LED; in particular
/// with two layouts the LED tells which of them is active.
pub proof fn lemma_led_alternates(i: int, n: int)
    requires
        0 <= i < n,
        n % 2 == 0,
    ensures
        led_for_index(next_index(i, n)) != led_for_index(i),
{
    if i + 1 < n {
        vstd::arithmetic::div_mod::lemma_small_mod((i + 1) as nat, n as nat);
    } else {
        vstd::arithmetic::div_mod::lemma_mod_self_0(n);
    }
}

/// No handle is listed twice.
pub open spec fn distinct_handles(layouts: Seq<usize>) -> bool {
    forall|a: int, b: int| 0 <= a < b < layouts.len() ==> #[trigger] layouts[a] != #[trigger] layouts[b]
}

/// Layouts with pairwise different languages have pairwise different handles.
pub proof fn lemma_distinct_langs_distinct_handles(layouts: Seq<usize>)
    requires
        forall|a: int, b: int|
            0 <= a < b < layouts.len() ==> lang_of(#[trigger] layouts[a]) != lang_of(#[trigger] layouts[b]),
    ensures
        distinct_handles(layouts),
{
}

/// When the foreground window is on the listed layout `i`, and no handle is
/// listed twice, the switch starts from `i` whatever the previous index was;
/// layouts that share a language are told apart by their handles.
pub proof fn lemma_start_from_current(layouts: Seq<usize>, i: int, prev_index: i32)
    requires
        0 <= i < layouts.len(),
        distinct_handles(layouts),
    ensures
        start_index(layouts, layouts[i], prev_index) == i,
{
    let h = layouts[i];
    assert(is_first_handle(layouts, h, i));
    assert(has_handle(layouts, h));
    let c = choose|k: int| is_first_handle(layouts, h, k);
    assert(is_first_handle(layouts, h, c));
    if c < i {
        assert(layouts[c] != layouts[i]);
    } else if c > i {
        assert(layouts[i] != h);
    }
}

/// The index requested by the `k`-th of consecutive presses, each made after
/// the foreground window took on the layout the previous press requested,
/// starting with the window on layout `i`.
pub open spec fn press_index(layouts: Seq<usize>, i: int, prev_index: i32, k: nat) -> int
    decreases k,
{
    if k == 0 {
        i
    } else {
        let before = press_index(layouts, i, prev_index, (k - 1) as nat);
        let prev = if k == 1 { prev_index } else { before as i32 };
        switch_target(layouts, layouts[before], prev)
    }
}

/// Consecutive presses step through the list one layout at a time.
pub proof fn lemma_presses_advance(layouts: Seq<usize>, i: int, prev_index: i32, k: nat)
    requires
        0 <= i < layouts.len(),
        distinct_handles(layouts),
    ensures
        press_index(layouts, i, prev_index, k) == advance(i, layouts.len() as int, k),
        0 <= press_index(layouts, i, prev_index, k) < layouts.len(),
    decreases k,
{
    let n = layouts.len() as int;
    if k > 0 {
        lemma_presses_advance(layouts, i, prev_index, (k - 1) as nat);
        let before = press_index(layouts, i, prev_index, (k - 1) as nat);
        let prev = if k == 1 { prev_index } else { before as i32 };
        lemma_start_from_current(layouts, before, prev);
        lemma_next_in_range(before, n);
    }
}

/// Two different press counts below `n` give different indices.
proof fn lemma_advance_injective(i: int, n: int, k1: nat, k2: nat)
    requires
        0 <= i < n,
        k1 < k2 < k1 + n,
    ensures
        advance(i, n, k1) != advance(i, n, k2),
{
    lemma_advance(i, n, k1);
    lemma_advance(i, n, k2);
    let a = i + k1;
    let b = i + k2;
    vstd::arithmetic::div_mod::lemma_fundamental_div_mod(a, n);
    vstd::arithmetic::div_mod::lemma_fundamental_div_mod(b, n);
    if a % n == b % n {
        let d = b / n - a / n;
        assert(b - a == n * d) by (nonlinear_arith)
            requires
                a == n * (a / n) + a % n,
                b == n * (b / n) + b % n,
                a % n == b % n,
                d == b / n - a / n,
        ;
        assert(false) by (nonlinear_arith)
            requires
                b - a == n * d,
                0 < b - a < n,
        ;
    }
}

/// Layout `j` is requested by one of the first `n` presses.
pub open spec fn requested(layouts: Seq<usize>, i: int, prev_index: i32, j: int) -> bool {
    exists|k: nat| 1 <= k <= layouts.len() && #[trigger] press_index(layouts, i, prev_index, k) == j
}

/// With no handle listed twice, `n` consecutive presses over `n` layouts
/// request every layout exactly once, in the list's cyclic order, and the
/// last one brings the window back to the layout it started on, which is
/// then also the remembered index. This holds whatever the previous index
/// was and also when several layouts share a language.
pub proof fn lemma_presses_cycle(layouts: Seq<usize>, i: int, prev_index: i32)
    requires
        0 <= i < layouts.len(),
        distinct_handles(layouts),
    ensures
        press_index(layouts, i, prev_index, layouts.len()) == i,
        forall|k: nat|
            1 <= k <= layouts.len() ==> #[trigger] press_index(layouts, i, prev_index, k) == (i + k)
                % (layouts.len() as int),
        forall|k1: nat, k2: nat|
            1 <= k1 < k2 <= layouts.len() ==> #[trigger] press_index(layouts, i, prev_index, k1)
                != #[trigger] press_index(layouts, i, prev_index, k2),
        forall|j: int| 0 <= j < layouts.len() ==> #[trigger] requested(layouts, i, prev_index, j),
{
    let n = layouts.len() as int;
    lemma_presses_advance(layouts, i, prev_index, n as nat);
    lemma_full_cycle(i, n);
    assert forall|k: nat| 1 <= k <= layouts.len() implies #[trigger] press_index(layouts, i, prev_index, k) == (i
        + k) % n by {
        lemma_presses_advance(layouts, i, prev_index, k);
        lemma_advance(i, n, k);
    }
    assert forall|k1: nat, k2: nat| 1 <= k1 < k2 <= layouts.len() implies #[trigger] press_index(
        layouts,
        i,
        prev_index,
        k1,
    ) != #[trigger] press_index(layouts, i, prev_index, k2) by {
        lemma_presses_advance(layouts, i, prev_index, k1);
        lemma_presses_advance(layouts, i, prev_index, k2);
        lemma_advance_injective(i, n, k1, k2);
    }
    assert forall|j: int| 0 <= j < layouts.len() implies #[trigger] requested(layouts, i, prev_index, j) by {
        let k: nat = if j > i { (j - i) as nat } else { (j - i + n) as nat };
        lemma_presses_advance(layouts, i, prev_index, k);
        lemma_advance(i, n, k);
        vstd::arithmetic::div_mod::lemma_small_mod(j as nat, n as nat);
        vstd::arithmetic::div_mod::lemma_mod_add_multiples_vanish(j, n);
    }
}

/// The language identifier is the handle's value modulo 0x10000: below
/// 0x10000, unchanged by adding 0x10000, and equal to a handle below 0x10000.
pub proof fn lemma_lang_of(h: usize)
    ensures
        0 <= lang_of(h) < 0x10000,
        h < 0x10000 ==> lang_of(h) == h,
        h as int + 0x10000 <= usize::MAX ==> lang_of((h + 0x10000) as usize) == lang_of(h),
{
}

/// The LED is dark for index 0 and changes with every step to the next index.
pub proof fn lemma_led_parity(i: int)
    requires
        i >= 0,
    ensures
        !led_for_index(0),
        led_for_index(i + 1) != led_for_index(i),
{
}

/// Where the switch starts, case by case: the current handle's first
/// position; else, when the handle is not listed, the first position of its
/// language; else the previous index when it is not negative; else 0.
pub proof fn lemma_start_cases(layouts: Seq<usize>, h: usize, prev_index: i32, j: int)
    ensures
        (0 <= j < layouts.len() && layouts[j] == h && forall|k: int| 0 <= k < j ==> layouts[k] != h)
            ==> start_index(layouts, h, prev_index) == j,
        ((forall|k: int| 0 <= k < layouts.len() ==> layouts[k] != h) && 0 <= j < layouts.len() && layouts[j]
            % 0x10000 == h % 0x10000 && forall|k: int| 0 <= k < j ==> layouts[k] % 0x10000 != h % 0x10000)
            ==> start_index(layouts, h, prev_index) == j,
        (forall|k: int| 0 <= k < layouts.len() ==> layouts[k] % 0x10000 != h % 0x10000) ==> start_index(
            layouts,
            h,
            prev_index,
        ) == (if prev_index >= 0 { prev_index as int } else { 0 }),
{
    if 0 <= j < layouts.len() && layouts[j] == h && forall|k: int| 0 <= k < j ==> layouts[k] != h {
        assert(is_first_handle(layouts, h, j));
        let c = choose|k: int| is_first_handle(layouts, h, k);
        assert(is_first_handle(layouts, h, c));
        if c < j {
            assert(layouts[c] != h);
        } else if c > j {
            assert(layouts[j] != h);
        }
    }
    if (forall|k: int| 0 <= k < layouts.len() ==> layouts[k] != h) && 0 <= j < layouts.len() && layouts[j]
        % 0x10000 == h % 0x10000 && forall|k: int| 0 <= k < j ==> layouts[k] % 0x10000 != h % 0x10000 {
        let lg = lang_of(h);
        assert(!has_handle(layouts, h));
        assert(is_first_match(layouts, lg, j));
        let c = choose|k: int| is_first_match(layouts, lg, k);
        assert(is_first_match(layouts, lg, c));
        if c < j {
            assert(lang_of(layouts[c]) != lg);
        } else if c > j {
            assert(lang_of(layouts[j]) != lg);
        }
    }
    if forall|k: int| 0 <= k < layouts.len() ==> layouts[k] % 0x10000 != h % 0x10000 {
        if has_handle(layouts, h) {
            let k = choose|k: int| 0 <= k < layouts.len() && #[trigger] layouts[k] == h;
            assert(layouts[k] % 0x10000 != h % 0x10000);
        }
        if has_lang(layouts, lang_of(h)) {
            let k = choose|k: int| 0 <= k < layouts.len() && lang_of(#[trigger] layouts[k]) == lang_of(h);
            assert(layouts[k] % 0x10000 != h % 0x10000);
        }
    }
}

} // verus!
