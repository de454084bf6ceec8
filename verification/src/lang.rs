//! Two-letter language codes ("EN", "RU", ...) shown in the tray.
//!
//! The code comes from the ISO 639 language name that the system reports for a
//! layout's language identifier, upper-cased, as a NUL-terminated UTF-16 triple.

use vstd::prelude::*;
use crate::layout::lang_of;

verus! {

/// ASCII upper-casing of one UTF-16 code unit; other units are left alone.
pub open spec fn upper_unit(c: u16) -> u16 {
    if 97 <= c <= 122 {
        (c - 32) as u16
    } else {
        c
    }
}

/// `c` is an ASCII lower-case letter.
pub open spec fn is_ascii_lower(c: u16) -> bool {
    97 <= c <= 122
}

/// Upper-cases an ASCII letter held in a UTF-16 code unit.
pub fn ascii_upper(c: u16) -> (r: u16)
    ensures
        r == upper_unit(c),
{
    if c >= 97 && c <= 122 {
        c - 32
    } else {
        c
    }
}

/// The code shown when no language name is available: "??".
pub open spec fn fallback_units() -> Seq<u16> {
    seq![63u16, 63u16, 0u16]
}

/// The code shown when no language name is available: "??".
pub fn fallback_abbr() -> (r: [u16; 3])
    ensures
        r@ == fallback_units(),
{
    let r: [u16; 3] = [63u16, 63u16, 0u16];
    assert(r@ =~= fallback_units());
    r
}

/// The locale to ask for a layout's language name: none for a null layout
/// handle, else the language identifier in the handle's low word.
pub fn locale_lang_id(hkl: usize) -> (r: Option<u32>)
    ensures
        hkl == 0 ==> r is None,
        hkl != 0 ==> r == Some(lang_of(hkl) as u32),
{
    if hkl == 0 {
        None
    } else {
        let id = crate::layout::lang_id(hkl);
        Some(id as u32)
    }
}

/// The code for a language name that the system wrote into `name`, `n` being the
/// count it returned (terminating NUL included). Fewer than three means fewer
/// than two letters, and then the fallback "??" is used.
pub open spec fn abbr_units(name: Seq<u16>, n: i32) -> Seq<u16> {
    if n < 3 {
        fallback_units()
    } else {
        seq![upper_unit(name[0]), upper_unit(name[1]), 0u16]
    }
}

/// Builds the code from the system's language name and the count it returned.
pub fn lang_abbr(name: &[u16; 16], n: i32) -> (r: [u16; 3])
    ensures
        r@ == abbr_units(name@, n),
{
    if n < 3 {
        return fallback_abbr();
    }
    let r: [u16; 3] = [ascii_upper(name[0]), ascii_upper(name[1]), 0u16];
    assert(r@ =~= abbr_units(name@, n));
    r
}

/// How many characters of the code are drawn on the icon: one when the second
/// unit is NUL, else two.
pub fn abbr_char_count(abbr: &[u16; 3]) -> (r: i32)
    ensures
        r == (if abbr@[1] == 0 { 1i32 } else { 2i32 }),
{
    if abbr[1] == 0 {
        1
    } else {
        2
    }
}

/// Upper-casing twice is upper-casing once.
pub proof fn lemma_upper_idempotent(c: u16)
    ensures
        upper_unit(upper_unit(c)) == upper_unit(c),
        !is_ascii_lower(upper_unit(c)),
{
}

/// A code never holds an ASCII lower-case letter, and always ends in NUL.
pub proof fn lemma_abbr_upper(name: Seq<u16>, n: i32)
    requires
        name.len() == 16,
    ensures
        abbr_units(name, n).len() == 3,
        !is_ascii_lower(abbr_units(name, n)[0]),
        !is_ascii_lower(abbr_units(name, n)[1]),
        abbr_units(name, n)[2] == 0,
{
}

/// Upper-casing maps each of 'a'..'z' to the letter at the same place in
/// 'A'..'Z' and leaves every other unit alone.
pub proof fn lemma_upper_letters(c: u16)
    ensures
        97 <= c <= 122 ==> 65 <= upper_unit(c) <= 90 && upper_unit(c) as int - 65 == c as int - 97,
        !(97 <= c <= 122) ==> upper_unit(c) == c,
{
}

/// The code is "??" with a NUL when the system returned fewer than three
/// units, and otherwise the first two units of the name, upper-cased, and a NUL.
pub proof fn lemma_abbr_cases(name: Seq<u16>, n: i32)
    requires
        name.len() == 16,
    ensures
        n < 3 ==> abbr_units(name, n) == seq![63u16, 63u16, 0u16],
        n >= 3 ==> abbr_units(name, n) == seq![upper_unit(name[0]), upper_unit(name[1]), 0u16],
        fallback_units() == seq![63u16, 63u16, 0u16],
{
}

} // verus!
