//! Decision logic of a resident utility that switches a Korean input method
//! back to English whenever Escape is pressed, for Windows and macOS.
//!
//! The operating-system work (keyboard hooks, key injection, tray icons,
//! writing files) is done by the program around this library; the library
//! decides what to do with each event and what to hand to the system. Its one
//! contact with the system is the check whether the launch agent file exists.

pub mod thread_modes;
pub mod win32;
pub mod mac;
pub mod worker;
pub mod autostart;
pub mod icon;
