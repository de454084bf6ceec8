use capsx::lang::{abbr_char_count, ascii_upper, fallback_abbr, lang_abbr, locale_lang_id};

fn name(s: &str) -> [u16; 16] {
    let mut b = [0u16; 16];
    for (i, u) in s.encode_utf16().enumerate() {
        b[i] = u;
    }
    b
}

#[test]
fn ascii_upper_letters() {
    assert_eq!(ascii_upper(b'a' as u16), b'A' as u16);
    assert_eq!(ascii_upper(b'z' as u16), b'Z' as u16);
    assert_eq!(ascii_upper(b'Q' as u16), b'Q' as u16);
    assert_eq!(ascii_upper(b'{' as u16), b'{' as u16);
    assert_eq!(ascii_upper(b'`' as u16), b'`' as u16);
    assert_eq!(ascii_upper(0x0439), 0x0439);
}

#[test]
fn abbr_from_name() {
    assert_eq!(lang_abbr(&name("en"), 3), [b'E' as u16, b'N' as u16, 0]);
    assert_eq!(lang_abbr(&name("ru"), 3), [b'R' as u16, b'U' as u16, 0]);
    assert_eq!(lang_abbr(&name("haw"), 4), [b'H' as u16, b'A' as u16, 0]);
}

#[test]
fn abbr_short_name_falls_back() {
    let q = [b'?' as u16, b'?' as u16, 0];
    assert_eq!(lang_abbr(&name("e"), 2), q);
    assert_eq!(lang_abbr(&name("en"), 0), q);
    assert_eq!(lang_abbr(&name("en"), -1), q);
    assert_eq!(fallback_abbr(), q);
}

#[test]
fn locale_of_handle() {
    assert_eq!(locale_lang_id(0), None);
    assert_eq!(locale_lang_id(0x0409_0409), Some(0x0409));
    assert_eq!(locale_lang_id(0xF0A0_0419), Some(0x0419));
}

#[test]
fn char_count_for_icon() {
    assert_eq!(abbr_char_count(&[b'E' as u16, b'N' as u16, 0]), 2);
    assert_eq!(abbr_char_count(&[b'E' as u16, 0, 0]), 1);
}
