use capsx::tray::{build_tooltip, APP_NAME, APP_VERSION};

fn expected(text: &str) -> [u16; 128] {
    let mut t = [0u16; 128];
    for (i, u) in text.encode_utf16().enumerate() {
        t[i] = u;
    }
    t
}

#[test]
fn tooltip_for_en() {
    let tip = build_tooltip(&[b'E' as u16, b'N' as u16, 0]);
    assert_eq!(tip, expected("CapsX v0.1.0 \u{2014} EN"));
    assert_eq!(tip[127], 0);
}

#[test]
fn tooltip_for_fallback() {
    let tip = build_tooltip(&[b'?' as u16, b'?' as u16, 0]);
    assert_eq!(tip, expected("CapsX v0.1.0 \u{2014} ??"));
}

#[test]
fn tooltip_keeps_nul_of_short_code() {
    let tip = build_tooltip(&[b'E' as u16, 0, 0]);
    let text = format!("{} v{} \u{2014} E", APP_NAME, APP_VERSION);
    let mut e = expected(&text);
    e[text.encode_utf16().count()] = 0;
    assert_eq!(tip, e);
}

#[test]
fn tooltip_lone_surrogates_become_replacement() {
    let tip = build_tooltip(&[0xD800, 0x0041, 0]);
    assert_eq!(tip, expected("CapsX v0.1.0 \u{2014} \u{FFFD}A"));
    let tip = build_tooltip(&[0x0041, 0xDC00, 0]);
    assert_eq!(tip, expected("CapsX v0.1.0 \u{2014} A\u{FFFD}"));
}

#[test]
fn tooltip_keeps_surrogate_pair() {
    let tip = build_tooltip(&[0xD83D, 0xDE00, 0]);
    assert_eq!(tip, expected("CapsX v0.1.0 \u{2014} \u{1F600}"));
}

#[test]
fn tooltip_matches_std_lossy_decoding() {
    for &(a, b) in &[(0xD800u16, 0xD800u16), (0xDC00, 0xD800), (0x0439, 0x0445), (0xDBFF, 0xDFFF)] {
        let lang = String::from_utf16_lossy(&[a, b]);
        let text = format!("{} v{} \u{2014} {}", APP_NAME, APP_VERSION, lang);
        assert_eq!(build_tooltip(&[a, b, 0]), expected(&text));
    }
}
