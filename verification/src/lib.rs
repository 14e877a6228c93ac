//! Core logic of a small desktop utility that toggles the "always on top"
//! flag of the focused window via one global hotkey.
//!
//! This library holds everything the tool decides or computes: the settings
//! file model and its text form, the symbolic-key to key-code mapping, the
//! modifier mask, the toggle decision, and the routing of window and loop
//! messages. The operating-system calls themselves (hotkey registration,
//! tray icon, message pump, window positioning) live outside, in the
//! program around this library, and hand plain values in and out.

pub mod config;
pub mod events;
pub mod hotkey;
pub mod toggle;
pub mod tray;
