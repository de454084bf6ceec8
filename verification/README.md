# capsx

The decision logic of CapsX, a Windows tray utility that turns CapsLock into a
"next keyboard layout" key (Modifier + CapsLock stays a real CapsLock toggle),
written in Verus with its contracts proved.

- `src/` — the verified library:
  - `state` — modifier, LED setting, last layout index; command-line flags.
  - `layout` — finding the current layout and choosing the next one, LED parity.
  - `hook` — what the low-level keyboard hook does with each key event.
  - `window` — window messages and menu commands.
  - `menu` — the tray context menu.
  - `lang` — two-letter language codes from the system's ISO 639 names.
  - `tray` — the tray tooltip buffer.
  - `about` — the About box text.
  - `autostart` — the start-with-Windows registry value.
  - `wide` — UTF-16 encoding for the Win32 "W" functions.
- `app/main.rs` — the Win32 program around it (window, hook, tray icon,
  registry, message loop), using `windows-sys`.
- `tests/` — tests of the library on concrete values.
