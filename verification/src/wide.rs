//! UTF-16 encoding of text handed to the Win32 "W" functions.

use vstd::prelude::*;

verus! {

/// The UTF-16 code units of one Unicode scalar value.
pub open spec fn utf16_char(c: char) -> Seq<u16> {
    let v = c as u32 as int;
    if v < 0x10000 {
        seq![v as u16]
    } else {
        seq![(0xD800 + (v - 0x10000) / 0x400) as u16, (0xDC00 + (v - 0x10000) % 0x400) as u16]
    }
}

/// The UTF-16 encoding of a sequence of scalar values.
pub open spec fn utf16_of(s: Seq<char>) -> Seq<u16>
    decreases s.len(),
{
    if s.len() == 0 {
        Seq::empty()
    } else {
        utf16_of(s.drop_last()) + utf16_char(s.last())
    }
}

/// Appends the UTF-16 code units of `c` to `out`.
fn push_char(out: &mut Vec<u16>, c: char)
    ensures
        final(out)@ == old(out)@ + utf16_char(c),
{
    let v: u32 = c as u32;
    if v < 0x10000 {
        out.push(v as u16);
    } else {
        let w: u32 = v - 0x10000;
        out.push((0xD800 + w / 0x400) as u16);
        out.push((0xDC00 + w % 0x400) as u16);
    }
}

/// Encodes `s` as UTF-16.
pub fn encode_utf16(s: &str) -> (r: Vec<u16>)
    ensures
        r@ == utf16_of(s@),
{
    let mut out: Vec<u16> = Vec::new();
    let ghost mut seen: Seq<char> = Seq::empty();
    for c in it: s.chars()
        invariant
            it.seq() == s@,
            seen == it.seq().take(it.index() as int),
            out@ == utf16_of(seen),
    {
        proof {
            let next = seen.push(c);
            assert(next.drop_last() =~= seen);
        }
        push_char(&mut out, c);
        proof {
            seen = seen.push(c);
            assert(seen =~= it.seq().take(it.index() + 1));
        }
    }
    assert(seen =~= s@);
    out
}

/// Encoding a concatenation is concatenating the encodings.
pub proof fn lemma_utf16_concat(a: Seq<char>, b: Seq<char>)
    ensures
        utf16_of(a + b) == utf16_of(a) + utf16_of(b),
    decreases b.len(),
{
    if b.len() == 0 {
        assert(a + b =~= a);
        assert(utf16_of(a) + utf16_of(b) =~= utf16_of(a));
    } else {
        lemma_utf16_concat(a, b.drop_last());
        assert((a + b).drop_last() =~= a + b.drop_last());
        assert((a + b).last() == b.last());
        assert(utf16_of(a) + utf16_of(b) =~= utf16_of(a) + utf16_of(b.drop_last()) + utf16_char(b.last()));
    }
}

/// Each scalar value is encoded so that it can be read back: one unit equal
/// to it below 0x10000, else a high surrogate followed by a low surrogate
/// that together give the value back.
pub proof fn lemma_utf16_char_decodes(c: char)
    ensures
        (c as u32) < 0x10000 ==> utf16_char(c).len() == 1 && utf16_char(c)[0] as int == c as u32 as int,
        (c as u32) >= 0x10000 ==> {
            let u = utf16_char(c);
            &&& u.len() == 2
            &&& 0xD800 <= u[0] < 0xDC00
            &&& 0xDC00 <= u[1] < 0xE000
            &&& 0x10000 + (u[0] - 0xD800) * 0x400 + (u[1] - 0xDC00) == c as u32 as int
        },
{
    let v = c as u32 as int;
    if v >= 0x10000 {
        let w = v - 0x10000;
        assert(w < 0x100000);
        assert(0 <= w / 0x400 < 0x400 && 0 <= w % 0x400 < 0x400 && w == (w / 0x400) * 0x400 + w % 0x400)
            by (nonlinear_arith)
            requires
                0 <= w < 0x100000,
        ;
    }
}

/// Text made only of values below 0x10000 is encoded one unit per value.
pub proof fn lemma_utf16_bmp(s: Seq<char>)
    requires
        forall|i: int| 0 <= i < s.len() ==> (#[trigger] s[i] as u32) < 0x10000,
    ensures
        utf16_of(s).len() == s.len(),
        forall|i: int| 0 <= i < s.len() ==> #[trigger] utf16_of(s)[i] as int == s[i] as u32 as int,
    decreases s.len(),
{
    if s.len() > 0 {
        let init = s.drop_last();
        assert forall|i: int| 0 <= i < init.len() implies (#[trigger] init[i] as u32) < 0x10000 by {
            assert(init[i] == s[i]);
        }
        lemma_utf16_bmp(init);
        assert((s.last() as u32) < 0x10000);
        let v = s.last() as u32 as int;
        assert(utf16_char(s.last()) =~= seq![v as u16]);
        assert(0 <= v);
        assert(0 <= v < 0x10000);
        assert((v as u16) as int == v);
        assert(utf16_of(s) =~= utf16_of(init) + seq![v as u16]);
        assert forall|i: int| 0 <= i < s.len() implies #[trigger] utf16_of(s)[i] as int == s[i] as u32 as int by {
            if i < s.len() - 1 {
                assert(init[i] == s[i]);
            }
        }
    }
}

/// Encodes `s` as UTF-16 followed by a terminating NUL, as the Win32 "W"
/// functions take their strings.
pub fn wide_z(s: &str) -> (r: Vec<u16>)
    ensures
        r@ == utf16_of(s@).push(0u16),
{
    let mut out = encode_utf16(s);
    out.push(0u16);
    out
}

} // verus!
