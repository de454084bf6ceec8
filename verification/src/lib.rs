//! CapsLock keyboard-layout switching: the decisions of a tray utility that turns
//! CapsLock into a "next layout" key, with the Win32 plumbing kept outside.

pub mod about;
pub mod autostart;
pub mod hook;
pub mod lang;
pub mod layout;
pub mod menu;
pub mod state;
pub mod tray;
pub mod wide;
pub mod window;
