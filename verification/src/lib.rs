//! Core logic of a small desktop-application shell.
//!
//! The shell keeps one main window, a tray icon and a global hotkey. The
//! decisions the shell makes — when a tray click or a hotkey press should
//! reveal or hide the window, which hotkey is registered, and what the
//! greeting command answers — live here, stated and proved. The host that
//! owns the actual window, tray and hotkey registration performs the
//! actions this library decides on.

pub mod greeting;
pub mod hotkey;
pub mod tray;
pub mod window;
