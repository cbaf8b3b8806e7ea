//! The tray icon's response to mouse events.

use vstd::prelude::*;
use crate::window::WindowAction;

verus! {

/// The mouse button a tray event names.
#[derive(Clone, Copy, PartialEq, Eq, Structural, Debug)]
pub enum TrayMouseButton {
    Left,
    Right,
    Middle,
}

/// Whether the button was pressed down or released.
#[derive(Clone, Copy, PartialEq, Eq, Structural, Debug)]
pub enum TrayButtonState {
    Down,
    Up,
}

/// A tray icon event, as far as the shell distinguishes them: a click with
/// its button and button state, or anything else (double clicks, pointer
/// enter, move and leave), which the shell ignores.
#[derive(Clone, Copy, PartialEq, Eq, Structural, Debug)]
pub enum TrayEvent {
    Click { button: TrayMouseButton, button_state: TrayButtonState },
    Other,
}

/// The one tray gesture the shell reacts to: releasing a left click.
pub open spec fn is_left_click_release(event: TrayEvent) -> bool {
    event matches TrayEvent::Click {
        button: TrayMouseButton::Left,
        button_state: TrayButtonState::Up,
    }
}

/// Decide what a tray event does to the main window: releasing a left
/// click reveals and focuses it, every other event does nothing.
pub fn tray_action(event: &TrayEvent) -> (action: Option<WindowAction>)
    ensures
        action == (if is_left_click_release(*event) {
            Some(WindowAction::ShowAndFocus)
        } else {
            None::<WindowAction>
        }),
{
    match event {
        TrayEvent::Click {
            button: TrayMouseButton::Left,
            button_state: TrayButtonState::Up,
        } => Some(WindowAction::ShowAndFocus),
        _ => None,
    }
}

} // verus!
