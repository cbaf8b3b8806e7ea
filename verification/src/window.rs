//! The main window's show/hide behavior.
//!
//! The shell never manipulates the window directly: it reads the host's
//! report of the window's visibility, decides on a [`WindowAction`], and
//! hands that action back to the host. [`WindowState`] and [`apply_action`]
//! model what the host does with an action, so that the shell's promise —
//! toggling a hidden window reveals and focuses it — can be proved.

use vstd::prelude::*;

verus! {

/// What the host reported when asked whether the main window is visible.
///
/// `Unknown` stands for a failed query: the shell then forces the window
/// to be shown rather than leave it unreachable.
#[derive(Clone, Copy, PartialEq, Eq, Structural, Debug)]
pub enum VisibilityReading {
    Visible,
    Hidden,
    Unknown,
}

/// An action the host performs on the main window.
///
/// `ShowAndFocus` unminimizes, shows and focuses the window in one step;
/// `Hide` removes it from the screen.
#[derive(Clone, Copy, PartialEq, Eq, Structural, Debug)]
pub enum WindowAction {
    Hide,
    ShowAndFocus,
}

/// The decision the toggle hotkey makes: hide a visible window, reveal it
/// in every other case, including when the visibility query failed.
pub open spec fn toggle_decision(reading: VisibilityReading) -> WindowAction {
    if reading == VisibilityReading::Visible {
        WindowAction::Hide
    } else {
        WindowAction::ShowAndFocus
    }
}

/// Decide what the toggle hotkey does to the main window, given the host's
/// report of its visibility.
pub fn toggle_action(reading: VisibilityReading) -> (action: WindowAction)
    ensures
        action == toggle_decision(reading),
{
    match reading {
        VisibilityReading::Visible => WindowAction::Hide,
        _ => WindowAction::ShowAndFocus,
    }
}

/// A model of the main window as the host keeps it.
#[derive(Clone, Copy, PartialEq, Eq, Structural, Debug)]
pub struct WindowState {
    pub visible: bool,
    pub minimized: bool,
    pub focused: bool,
}

/// The visibility the host reports for a window in state `s`, when the
/// query succeeds.
pub open spec fn reading_of(s: WindowState) -> VisibilityReading {
    if s.visible {
        VisibilityReading::Visible
    } else {
        VisibilityReading::Hidden
    }
}

/// What the host does to a window when it performs an action.
pub open spec fn apply_action(s: WindowState, action: WindowAction) -> WindowState {
    match action {
        WindowAction::Hide => WindowState { visible: false, focused: false, ..s },
        WindowAction::ShowAndFocus => WindowState { visible: true, minimized: false, focused: true },
    }
}

/// Toggling while the window is hidden leaves it visible, focused and
/// unminimized.
pub proof fn toggle_reveals_hidden_window(s: WindowState)
    requires
        !s.visible,
    ensures
        apply_action(s, toggle_decision(reading_of(s))) == (WindowState {
            visible: true,
            minimized: false,
            focused: true,
        }),
{
}

/// Toggling while the window is visible hides it.
pub proof fn toggle_hides_visible_window(s: WindowState)
    requires
        s.visible,
    ensures
        !apply_action(s, toggle_decision(reading_of(s))).visible,
{
}

/// Toggling twice brings the window back to its original visibility.
pub proof fn toggle_twice_restores_visibility(s: WindowState)
    ensures
        ({
            let once = apply_action(s, toggle_decision(reading_of(s)));
            let twice = apply_action(once, toggle_decision(reading_of(once)));
            twice.visible == s.visible
        }),
{
}

} // verus!
