//! The tray tooltip: "CapsX v0.1.0 — EN" in a fixed 128-unit, NUL-terminated
//! UTF-16 buffer.

use vstd::prelude::*;
use vstd::string::StringExecFns;
use crate::wide::{encode_utf16, lemma_utf16_bmp, utf16_of};

verus! {

/// The program's name.
pub const APP_NAME: &'static str = "CapsX";
/// The program's version.
pub const APP_VERSION: &'static str = "0.1.0";

/// Size of the tooltip buffer in UTF-16 units.
pub const TIP_LEN: usize = 128;

/// The text in front of the language code: name, version and an em dash.
pub open spec fn tooltip_prefix() -> Seq<char> {
    APP_NAME@ + " v"@ + APP_VERSION@ + " \u{2014} "@
}

pub open spec fn is_surrogate(u: u16) -> bool {
    0xD800 <= u < 0xE000
}

pub open spec fn is_high_surrogate(u: u16) -> bool {
    0xD800 <= u < 0xDC00
}

pub open spec fn is_low_surrogate(u: u16) -> bool {
    0xDC00 <= u < 0xE000
}

/// A unit that cannot stand alone becomes U+FFFD.
pub open spec fn lossy_unit(u: u16) -> u16 {
    if is_surrogate(u) {
        0xFFFDu16
    } else {
        u
    }
}

/// The two units of a language code after a lossy UTF-16 decoding and
/// re-encoding: a well-formed surrogate pair is kept, any other surrogate
/// becomes U+FFFD.
pub open spec fn lossy_pair(a: u16, b: u16) -> Seq<u16> {
    if is_high_surrogate(a) && is_low_surrogate(b) {
        seq![a, b]
    } else {
        seq![lossy_unit(a), lossy_unit(b)]
    }
}

/// The tooltip's text as UTF-16 units, before it is fitted into the buffer.
pub open spec fn tooltip_units(abbr: Seq<u16>) -> Seq<u16> {
    utf16_of(tooltip_prefix()) + lossy_pair(abbr[0], abbr[1])
}

/// The tooltip buffer: the text cut to 127 units, the rest NUL.
pub open spec fn tooltip_buffer(abbr: Seq<u16>) -> Seq<u16> {
    let t = tooltip_units(abbr);
    let n = if t.len() < 127 { t.len() as int } else { 127 };
    Seq::new(128, |i: int| if i < n { t[i] } else { 0u16 })
}

fn push_lossy_pair(out: &mut Vec<u16>, a: u16, b: u16)
    ensures
        final(out)@ == old(out)@ + lossy_pair(a, b),
{
    if 0xD800 <= a && a < 0xDC00 && 0xDC00 <= b && b < 0xE000 {
        out.push(a);
        out.push(b);
    } else {
        let fa: u16 = if 0xD800 <= a && a < 0xE000 { 0xFFFD } else { a };
        let fb: u16 = if 0xD800 <= b && b < 0xE000 { 0xFFFD } else { b };
        out.push(fa);
        out.push(fb);
    }
}

/// Builds the tooltip for a language code.
pub fn build_tooltip(abbr: &[u16; 3]) -> (r: [u16; 128])
    ensures
        r@ == tooltip_buffer(abbr@),
{
    let mut text = String::new();
    text.append(APP_NAME);
    text.append(" v");
    text.append(APP_VERSION);
    text.append(" \u{2014} ");
    assert(text@ =~= tooltip_prefix());
    let mut wide = encode_utf16(text.as_str());
    push_lossy_pair(&mut wide, abbr[0], abbr[1]);
    let ghost t = wide@;
    assert(t =~= tooltip_units(abbr@));
    let n: usize = if wide.len() < 127 { wide.len() } else { 127 };
    let mut tip = [0u16; 128];
    let mut i: usize = 0;
    while i < n
        invariant
            n <= 127,
            n <= wide@.len(),
            wide@ == t,
            i <= n,
            tip@.len() == 128,
            forall|k: int| 0 <= k < i ==> tip@[k] == t[k],
            forall|k: int| i <= k < 128 ==> tip@[k] == 0u16,
        decreases n - i,
    {
        tip[i] = wide[i];
        i = i + 1;
    }
    assert(tip@ =~= tooltip_buffer(abbr@));
    tip
}

/// The tooltip is always NUL-terminated, and when its text fits it ends in the
/// (lossily re-encoded) language code.
pub proof fn lemma_tooltip_shape(abbr: Seq<u16>)
    ensures
        tooltip_buffer(abbr).len() == 128,
        tooltip_buffer(abbr)[127] == 0,
        tooltip_units(abbr).len() < 127 ==> tooltip_buffer(abbr).subrange(
            0,
            tooltip_units(abbr).len() as int,
        ) == tooltip_units(abbr),
        tooltip_units(abbr).len() < 127 ==> tooltip_units(abbr).subrange(
            tooltip_units(abbr).len() - 2,
            tooltip_units(abbr).len() as int,
        ) == lossy_pair(abbr[0], abbr[1]),
{
    let t = tooltip_units(abbr);
    if t.len() < 127 {
        assert(tooltip_buffer(abbr).subrange(0, t.len() as int) =~= t);
        assert(t.subrange(t.len() - 2, t.len() as int) =~= lossy_pair(abbr[0], abbr[1]));
    }
}

/// A code made of two letters outside the surrogate range passes through unchanged.
pub proof fn lemma_plain_code_kept(a: u16, b: u16)
    requires
        !is_surrogate(a),
        !is_surrogate(b),
    ensures
        lossy_pair(a, b) == seq![a, b],
{
}

/// The tooltip buffer, unit by unit: "CapsX v0.1.0 — " (15 units), then the
/// language code's two units, each kept when it is not a surrogate and a
/// well-formed surrogate pair kept whole, any other surrogate replaced by
/// U+FFFD; NUL in all remaining 111 units.
pub proof fn lemma_tooltip_layout(abbr: Seq<u16>)
    requires
        abbr.len() == 3,
    ensures
        tooltip_buffer(abbr).len() == 128,
        tooltip_buffer(abbr).subrange(0, 15) == seq![
            67u16, 97u16, 112u16, 115u16, 88u16, 32u16, 118u16, 48u16, 46u16, 49u16, 46u16, 48u16, 32u16, 0x2014u16, 32u16,
        ],
        (abbr[0] < 0xD800 || abbr[0] >= 0xE000) ==> tooltip_buffer(abbr)[15] == abbr[0],
        0xDC00 <= abbr[0] < 0xE000 ==> tooltip_buffer(abbr)[15] == 0xFFFD,
        (0xD800 <= abbr[0] < 0xDC00 && 0xDC00 <= abbr[1] < 0xE000) ==> tooltip_buffer(abbr)[15] == abbr[0]
            && tooltip_buffer(abbr)[16] == abbr[1],
        (0xD800 <= abbr[0] < 0xDC00 && !(0xDC00 <= abbr[1] < 0xE000)) ==> tooltip_buffer(abbr)[15] == 0xFFFD,
        !(0xD800 <= abbr[0] < 0xDC00 && 0xDC00 <= abbr[1] < 0xE000) ==> tooltip_buffer(abbr)[16] == (if 0xD800
            <= abbr[1] < 0xE000 {
            0xFFFDu16
        } else {
            abbr[1]
        }),
        forall|i: int| 17 <= i < 128 ==> tooltip_buffer(abbr)[i] == 0,
{
    reveal_strlit("CapsX");
    reveal_strlit(" v");
    reveal_strlit("0.1.0");
    reveal_strlit(" \u{2014} ");
    let p = tooltip_prefix();
    let lit = seq!['C', 'a', 'p', 's', 'X', ' ', 'v', '0', '.', '1', '.', '0', ' ', '\u{2014}', ' '];
    assert(p =~= lit);
    assert forall|i: int| 0 <= i < p.len() implies (#[trigger] p[i] as u32) < 0x10000 by {
        assert(p[i] == lit[i]);
    }
    lemma_utf16_bmp(p);
    let w = utf16_of(p);
    let units = seq![67u16, 97u16, 112u16, 115u16, 88u16, 32u16, 118u16, 48u16, 46u16, 49u16, 46u16, 48u16, 32u16, 0x2014u16, 32u16];
    assert forall|i: int| 0 <= i < 15 implies #[trigger] w[i] == units[i] by {
        assert(p[i] == lit[i]);
        assert(w[i] as int == p[i] as u32 as int);
    }
    assert(w =~= units);
    let t = tooltip_units(abbr);
    assert(t.len() == 17);
    assert(tooltip_buffer(abbr).subrange(0, 15) =~= units);
}

} // verus!
