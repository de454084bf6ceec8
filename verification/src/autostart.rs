//! The start-with-Windows registry value: the quoted path of the executable.

use vstd::prelude::*;
use vstd::string::StringExecFns;
use crate::wide::{utf16_char, utf16_of, wide_z};

verus! {

/// The command stored under the Run key: the executable's path in double
/// quotes, so that a path with spaces stays one word.
pub open spec fn quoted_command(exe: Seq<char>) -> Seq<char> {
    seq!['"'] + exe + seq!['"']
}

/// The registry data for an executable path: the quoted command as UTF-16
/// with its terminating NUL, and its size in bytes (NUL included) as the
/// registry takes it, a 32-bit count.
pub fn autostart_value(exe: &str) -> (r: (Vec<u16>, u32))
    ensures
        r.0@ == utf16_of(quoted_command(exe@)).push(0u16),
        r.1 as int == (2 * r.0@.len()) % 0x1_0000_0000,
{
    let mut cmd = String::new();
    cmd.append("\"");
    cmd.append(exe);
    cmd.append("\"");
    proof {
        reveal_strlit("\"");
    }
    assert(cmd@ =~= quoted_command(exe@));
    let value = wide_z(cmd.as_str());
    let len = value.len();
    let half: usize = len % 0x8000_0000;
    let bytes: u32 = (half * 2) as u32;
    assert(((len % 0x8000_0000) * 2) % 0x1_0000_0000 == (2 * len) % 0x1_0000_0000) by (nonlinear_arith);
    (value, bytes)
}

/// The registry value is a double quote (34), the path's UTF-16 encoding, a
/// double quote and a NUL; its byte size counts every unit twice.
pub proof fn lemma_autostart_layout(exe: Seq<char>)
    ensures
        utf16_of(quoted_command(exe)).push(0u16) == seq![34u16] + utf16_of(exe) + seq![34u16, 0u16],
        utf16_of(quoted_command(exe)).push(0u16).len() == utf16_of(exe).len() + 3,
{
    crate::wide::lemma_utf16_concat(seq!['"'], exe);
    crate::wide::lemma_utf16_concat(seq!['"'] + exe, seq!['"']);
    let q = seq!['"'];
    assert(q.drop_last() =~= Seq::<char>::empty());
    assert(q.last() == '"');
    assert(utf16_of(Seq::<char>::empty()) =~= Seq::<u16>::empty());
    assert(('"' as u32) == 34);
    assert(utf16_char('"') =~= seq![34u16]);
    assert(utf16_of(q) =~= seq![34u16]);
    assert(utf16_of(quoted_command(exe)).push(0u16) =~= seq![34u16] + utf16_of(exe) + seq![34u16, 0u16]);
}

} // verus!
