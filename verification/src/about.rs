//! Texts shown to the user: the About box.

use vstd::prelude::*;
use vstd::string::StringExecFns;
use crate::state::Modifier;
use crate::tray::{APP_NAME, APP_VERSION};

verus! {

/// The name of a modifier as the About box shows it.
pub open spec fn modifier_name(m: Modifier) -> Seq<char> {
    match m {
        Modifier::Shift => "Shift"@,
        Modifier::Ctrl => "Ctrl"@,
        Modifier::Alt => "Alt"@,
    }
}

/// The name of a modifier as the About box shows it.
pub fn modifier_label(m: Modifier) -> (r: &'static str)
    ensures
        r@ == modifier_name(m),
{
    match m {
        Modifier::Shift => "Shift",
        Modifier::Ctrl => "Ctrl",
        Modifier::Alt => "Alt",
    }
}

/// The About box's title.
pub open spec fn about_title_text() -> Seq<char> {
    "About "@ + APP_NAME@
}

/// The About box's body, for the current modifier, LED setting,
/// start-with-Windows setting and processor architecture name.
pub open spec fn about_body_text(m: Modifier, led: bool, autostart: bool, arch: Seq<char>) -> Seq<char> {
    APP_NAME@ + " v"@ + APP_VERSION@ + " ("@ + arch
        + ")\r\n\r\nCapsLock keyboard-layout switcher for Windows.\r\n\r\n\u{2022} CapsLock \u{2192} switch to next keyboard layout\r\n\u{2022} "@
        + modifier_name(m) + " + CapsLock \u{2192} real CapsLock toggle\r\n\u{2022} LED indicator: "@ + (if led {
        "on"@
    } else {
        "off"@
    }) + "\r\n\u{2022} Start with Windows: "@ + (if autostart {
        "yes"@
    } else {
        "no"@
    })
        + "\r\n\r\nTray icon shows the current layout (e.g. EN, RU).\r\n\r\nStartup flags: -shift | -ctrl | -alt | -led\r\n\r\nBased on BarsCaps by Mikhail Svarichevsky\r\ngithub.com/BarsMonster/BarsCaps\r\n\r\nMIT License"@
}

/// Builds the About box's title.
pub fn about_title() -> (r: String)
    ensures
        r@ == about_title_text(),
{
    let mut t = String::new();
    t.append("About ");
    t.append(APP_NAME);
    assert(t@ =~= about_title_text());
    t
}

/// Builds the About box's body.
pub fn about_body(m: Modifier, led: bool, autostart: bool, arch: &str) -> (r: String)
    ensures
        r@ == about_body_text(m, led, autostart, arch@),
{
    let mut t = String::new();
    t.append(APP_NAME);
    t.append(" v");
    t.append(APP_VERSION);
    t.append(" (");
    t.append(arch);
    t.append(
        ")\r\n\r\nCapsLock keyboard-layout switcher for Windows.\r\n\r\n\u{2022} CapsLock \u{2192} switch to next keyboard layout\r\n\u{2022} ",
    );
    t.append(modifier_label(m));
    t.append(" + CapsLock \u{2192} real CapsLock toggle\r\n\u{2022} LED indicator: ");
    t.append(if led { "on" } else { "off" });
    t.append("\r\n\u{2022} Start with Windows: ");
    t.append(if autostart { "yes" } else { "no" });
    t.append(
        "\r\n\r\nTray icon shows the current layout (e.g. EN, RU).\r\n\r\nStartup flags: -shift | -ctrl | -alt | -led\r\n\r\nBased on BarsCaps by Mikhail Svarichevsky\r\ngithub.com/BarsMonster/BarsCaps\r\n\r\nMIT License",
    );
    assert(t@ =~= about_body_text(m, led, autostart, arch@));
    t
}

/// The About box is titled "About CapsX".
pub proof fn lemma_about_title()
    ensures
        about_title_text() == "About CapsX"@,
{
    reveal_strlit("About ");
    reveal_strlit("CapsX");
    reveal_strlit("About CapsX");
    assert(about_title_text() =~= "About CapsX"@);
}

/// `part` occurs in `text`.
pub open spec fn occurs_in(part: Seq<char>, text: Seq<char>) -> bool {
    exists|pre: Seq<char>, post: Seq<char>| text == pre + part + post
}

/// The About body's parts, in order.
proof fn lemma_body_parts(m: Modifier, led: bool, autostart: bool, arch: Seq<char>)
    ensures
        about_body_text(m, led, autostart, arch) == (APP_NAME@ + " v"@ + APP_VERSION@ + " ("@ + arch)
            + ")\r\n\r\nCapsLock keyboard-layout switcher for Windows.\r\n\r\n\u{2022} CapsLock \u{2192} switch to next keyboard layout\r\n\u{2022} "@
            + modifier_name(m) + " + CapsLock \u{2192} real CapsLock toggle\r\n\u{2022} LED indicator: "@ + (if led {
            "on"@
        } else {
            "off"@
        }) + "\r\n\u{2022} Start with Windows: "@ + (if autostart {
            "yes"@
        } else {
            "no"@
        })
            + "\r\n\r\nTray icon shows the current layout (e.g. EN, RU).\r\n\r\nStartup flags: -shift | -ctrl | -alt | -led\r\n\r\nBased on BarsCaps by Mikhail Svarichevsky\r\ngithub.com/BarsMonster/BarsCaps\r\n\r\nMIT License"@,
{
}

#[verifier::spinoff_prover]
proof fn lemma_body_names_modifier(m: Modifier, led: bool, autostart: bool, arch: Seq<char>)
    ensures
        occurs_in(
            match m {
                Modifier::Shift => "Shift + CapsLock"@,
                Modifier::Ctrl => "Ctrl + CapsLock"@,
                Modifier::Alt => "Alt + CapsLock"@,
            },
            about_body_text(m, led, autostart, arch),
        ),
{
    lemma_body_parts(m, led, autostart, arch);
    let b = " + CapsLock \u{2192} real CapsLock toggle\r\n\u{2022} LED indicator: "@;
    let name = modifier_name(m);
    let body = about_body_text(m, led, autostart, arch);
    let a = APP_NAME@ + " v"@ + APP_VERSION@ + " ("@ + arch
        + ")\r\n\r\nCapsLock keyboard-layout switcher for Windows.\r\n\r\n\u{2022} CapsLock \u{2192} switch to next keyboard layout\r\n\u{2022} "@;
    let rest = (if led {
        "on"@
    } else {
        "off"@
    }) + "\r\n\u{2022} Start with Windows: "@ + (if autostart {
        "yes"@
    } else {
        "no"@
    })
        + "\r\n\r\nTray icon shows the current layout (e.g. EN, RU).\r\n\r\nStartup flags: -shift | -ctrl | -alt | -led\r\n\r\nBased on BarsCaps by Mikhail Svarichevsky\r\ngithub.com/BarsMonster/BarsCaps\r\n\r\nMIT License"@;
    assert(body =~= a + name + b + rest);
    reveal_strlit(" + CapsLock \u{2192} real CapsLock toggle\r\n\u{2022} LED indicator: ");
    reveal_strlit("Shift");
    reveal_strlit("Ctrl");
    reveal_strlit("Alt");
    reveal_strlit("Shift + CapsLock");
    reveal_strlit("Ctrl + CapsLock");
    reveal_strlit("Alt + CapsLock");
    let b_head = b.subrange(0, 11);
    let b_tail = b.subrange(11, b.len() as int);
    assert(b =~= b_head + b_tail);
    let part = name + b_head;
    assert(part =~= match m {
        Modifier::Shift => "Shift + CapsLock"@,
        Modifier::Ctrl => "Ctrl + CapsLock"@,
        Modifier::Alt => "Alt + CapsLock"@,
    });
    assert(body =~= a + part + (b_tail + rest));
}

#[verifier::spinoff_prover]
proof fn lemma_body_names_led(m: Modifier, led: bool, autostart: bool, arch: Seq<char>)
    ensures
        occurs_in(
            if led {
                "LED indicator: on\r\n"@
            } else {
                "LED indicator: off\r\n"@
            },
            about_body_text(m, led, autostart, arch),
        ),
{
    lemma_body_parts(m, led, autostart, arch);
    let a = APP_NAME@ + " v"@ + APP_VERSION@ + " ("@ + arch
        + ")\r\n\r\nCapsLock keyboard-layout switcher for Windows.\r\n\r\n\u{2022} CapsLock \u{2192} switch to next keyboard layout\r\n\u{2022} "@
        + modifier_name(m);
    let b = " + CapsLock \u{2192} real CapsLock toggle\r\n\u{2022} LED indicator: "@;
    let ledw = if led { "on"@ } else { "off"@ };
    let c = "\r\n\u{2022} Start with Windows: "@;
    let rest = (if autostart {
        "yes"@
    } else {
        "no"@
    })
        + "\r\n\r\nTray icon shows the current layout (e.g. EN, RU).\r\n\r\nStartup flags: -shift | -ctrl | -alt | -led\r\n\r\nBased on BarsCaps by Mikhail Svarichevsky\r\ngithub.com/BarsMonster/BarsCaps\r\n\r\nMIT License"@;
    let body = about_body_text(m, led, autostart, arch);
    assert(body =~= a + b + ledw + c + rest);
    reveal_strlit(" + CapsLock \u{2192} real CapsLock toggle\r\n\u{2022} LED indicator: ");
    reveal_strlit("\r\n\u{2022} Start with Windows: ");
    reveal_strlit("on");
    reveal_strlit("off");
    reveal_strlit("LED indicator: on\r\n");
    reveal_strlit("LED indicator: off\r\n");
    let b_pre = b.subrange(0, b.len() - 15);
    let b_led = b.subrange(b.len() - 15, b.len() as int);
    let c_head = c.subrange(0, 2);
    let c_tail = c.subrange(2, c.len() as int);
    assert(b =~= b_pre + b_led);
    assert(c =~= c_head + c_tail);
    let part = b_led + ledw + c_head;
    assert(part =~= if led {
        "LED indicator: on\r\n"@
    } else {
        "LED indicator: off\r\n"@
    });
    assert(body =~= (a + b_pre) + part + (c_tail + rest));
}

#[verifier::spinoff_prover]
proof fn lemma_body_names_autostart(m: Modifier, led: bool, autostart: bool, arch: Seq<char>)
    ensures
        occurs_in(
            if autostart {
                "Start with Windows: yes\r\n"@
            } else {
                "Start with Windows: no\r\n"@
            },
            about_body_text(m, led, autostart, arch),
        ),
{
    lemma_body_parts(m, led, autostart, arch);
    let a = APP_NAME@ + " v"@ + APP_VERSION@ + " ("@ + arch
        + ")\r\n\r\nCapsLock keyboard-layout switcher for Windows.\r\n\r\n\u{2022} CapsLock \u{2192} switch to next keyboard layout\r\n\u{2022} "@
        + modifier_name(m) + " + CapsLock \u{2192} real CapsLock toggle\r\n\u{2022} LED indicator: "@ + (if led {
        "on"@
    } else {
        "off"@
    });
    let c = "\r\n\u{2022} Start with Windows: "@;
    let autow = if autostart { "yes"@ } else { "no"@ };
    let d = "\r\n\r\nTray icon shows the current layout (e.g. EN, RU).\r\n\r\nStartup flags: -shift | -ctrl | -alt | -led\r\n\r\nBased on BarsCaps by Mikhail Svarichevsky\r\ngithub.com/BarsMonster/BarsCaps\r\n\r\nMIT License"@;
    let body = about_body_text(m, led, autostart, arch);
    assert(body =~= a + c + autow + d);
    reveal_strlit("\r\n\u{2022} Start with Windows: ");
    reveal_strlit("\r\n\r\nTray icon shows the current layout (e.g. EN, RU).\r\n\r\nStartup flags: -shift | -ctrl | -alt | -led\r\n\r\nBased on BarsCaps by Mikhail Svarichevsky\r\ngithub.com/BarsMonster/BarsCaps\r\n\r\nMIT License");
    reveal_strlit("yes");
    reveal_strlit("no");
    reveal_strlit("Start with Windows: yes\r\n");
    reveal_strlit("Start with Windows: no\r\n");
    let c_auto = c.subrange(c.len() - 20, c.len() as int);
    let c_pre = c.subrange(0, c.len() - 20);
    let d_head = d.subrange(0, 2);
    let d_tail = d.subrange(2, d.len() as int);
    assert(c =~= c_pre + c_auto);
    assert(d =~= d_head + d_tail);
    let part = c_auto + autow + d_head;
    assert(part =~= if autostart {
        "Start with Windows: yes\r\n"@
    } else {
        "Start with Windows: no\r\n"@
    });
    assert(body =~= (a + c_pre) + part + d_tail);
}

/// The About body names the current modifier in front of " + CapsLock", and
/// says "on" or "off" for the LED indicator and "yes" or "no" for start with
/// Windows, as the settings are; it starts with the name, version and
/// architecture.
pub proof fn lemma_about_names_settings(m: Modifier, led: bool, autostart: bool, arch: Seq<char>)
    ensures
        occurs_in(
            match m {
                Modifier::Shift => "Shift + CapsLock"@,
                Modifier::Ctrl => "Ctrl + CapsLock"@,
                Modifier::Alt => "Alt + CapsLock"@,
            },
            about_body_text(m, led, autostart, arch),
        ),
        occurs_in(
            if led {
                "LED indicator: on\r\n"@
            } else {
                "LED indicator: off\r\n"@
            },
            about_body_text(m, led, autostart, arch),
        ),
        occurs_in(
            if autostart {
                "Start with Windows: yes\r\n"@
            } else {
                "Start with Windows: no\r\n"@
            },
            about_body_text(m, led, autostart, arch),
        ),
        about_body_text(m, led, autostart, arch).subrange(0, 14 + arch.len() as int) == "CapsX v0.1.0 ("@ + arch,
{
    lemma_body_names_modifier(m, led, autostart, arch);
    lemma_body_names_led(m, led, autostart, arch);
    lemma_body_names_autostart(m, led, autostart, arch);
    lemma_body_parts(m, led, autostart, arch);
    reveal_strlit("CapsX");
    reveal_strlit(" v");
    reveal_strlit("0.1.0");
    reveal_strlit(" (");
    reveal_strlit("CapsX v0.1.0 (");
    let body = about_body_text(m, led, autostart, arch);
    let a0 = APP_NAME@ + " v"@ + APP_VERSION@ + " ("@ + arch;
    assert(body.subrange(0, a0.len() as int) =~= a0);
    assert(a0 =~= "CapsX v0.1.0 ("@ + arch);
}

} // verus!
