use capsx::autostart::autostart_value;
use capsx::wide::{encode_utf16, wide_z};

#[test]
fn encodes_like_std() {
    for s in ["", "CapsX", "Segoe UI", "Привет", "a\u{1F600}b", "\u{10FFFF}\u{FFFF}\u{D7FF}\u{E000}"] {
        let want: Vec<u16> = s.encode_utf16().collect();
        assert_eq!(encode_utf16(s), want);
    }
}

#[test]
fn wide_z_appends_nul() {
    assert_eq!(wide_z("CapsXWnd"), "CapsXWnd\0".encode_utf16().collect::<Vec<u16>>());
    assert_eq!(wide_z(""), vec![0u16]);
    assert_eq!(wide_z("\u{1F600}"), vec![0xD83D, 0xDE00, 0]);
}

#[test]
fn autostart_quotes_path() {
    let (v, bytes) = autostart_value("C:\\Program Files\\CapsX\\capsx.exe");
    let want: Vec<u16> = "\"C:\\Program Files\\CapsX\\capsx.exe\"\0".encode_utf16().collect();
    assert_eq!(v, want);
    assert_eq!(bytes as usize, want.len() * 2);
}

#[test]
fn autostart_empty_path() {
    let (v, bytes) = autostart_value("");
    assert_eq!(v, vec![b'"' as u16, b'"' as u16, 0]);
    assert_eq!(bytes, 6);
}
