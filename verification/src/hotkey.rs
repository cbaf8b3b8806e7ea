//! The global hotkey that toggles the main window.

use vstd::prelude::*;
use crate::window::{WindowState, apply_action, reading_of, toggle_decision};

verus! {

/// The modifier keys a hotkey combination holds.
#[derive(Clone, Copy, PartialEq, Eq, Structural, Debug)]
pub struct Modifiers {
    pub alt: bool,
    pub control: bool,
    pub shift: bool,
    pub super_key: bool,
}

/// The key a hotkey combination names, as far as the shell distinguishes
/// keys: the E key, or any other.
#[derive(Clone, Copy, PartialEq, Eq, Structural, Debug)]
pub enum HotKeyCode {
    KeyE,
    Other,
}

/// A hotkey combination: a set of modifiers and a key.
#[derive(Clone, Copy, PartialEq, Eq, Structural, Debug)]
pub struct HotKey {
    pub modifiers: Modifiers,
    pub code: HotKeyCode,
}

/// Whether the hotkey's combination went down or was released.
#[derive(Clone, Copy, PartialEq, Eq, Structural, Debug)]
pub enum HotKeyState {
    Pressed,
    Released,
}

/// The hotkey this shell registers: Super+E.
pub open spec fn spec_toggle_hotkey() -> HotKey {
    HotKey {
        modifiers: Modifiers { alt: false, control: false, shift: false, super_key: true },
        code: HotKeyCode::KeyE,
    }
}

/// The hotkey the shell registers with the host: Super+E.
pub fn toggle_hotkey() -> (h: HotKey)
    ensures
        h == spec_toggle_hotkey(),
{
    HotKey {
        modifiers: Modifiers { alt: false, control: false, shift: false, super_key: true },
        code: HotKeyCode::KeyE,
    }
}

/// A hotkey event toggles the window exactly when it fires the registered
/// combination and the key went down.
pub open spec fn spec_hotkey_toggles(registered: HotKey, fired: HotKey, state: HotKeyState) -> bool {
    fired == registered && state == HotKeyState::Pressed
}

/// Decide whether a hotkey event should toggle the main window.
pub fn hotkey_toggles(registered: &HotKey, fired: &HotKey, state: HotKeyState) -> (b: bool)
    ensures
        b == spec_hotkey_toggles(*registered, *fired, state),
{
    *fired == *registered && matches!(state, HotKeyState::Pressed)
}

/// Pressing Super+E while the main window is hidden toggles it, and the
/// toggle leaves the window visible, focused and unminimized.
pub proof fn pressing_toggle_hotkey_reveals_hidden_window(s: WindowState, fired: HotKey)
    requires
        !s.visible,
        fired == spec_toggle_hotkey(),
    ensures
        spec_hotkey_toggles(spec_toggle_hotkey(), fired, HotKeyState::Pressed),
        apply_action(s, toggle_decision(reading_of(s))) == (WindowState {
            visible: true,
            minimized: false,
            focused: true,
        }),
{
}

} // verus!
