use tray_shell::greeting::greet;
use tray_shell::hotkey::{hotkey_toggles, toggle_hotkey, HotKey, HotKeyCode, HotKeyState, Modifiers};
use tray_shell::tray::{tray_action, TrayButtonState, TrayEvent, TrayMouseButton};
use tray_shell::window::{toggle_action, VisibilityReading, WindowAction};

#[test]
fn greet_answers_with_the_name() {
    assert_eq!(greet("World"), "Hello, World! You've been greeted from Rust!");
}

#[test]
fn greet_with_empty_name() {
    assert_eq!(greet(""), "Hello, ! You've been greeted from Rust!");
}

#[test]
fn toggle_hides_a_visible_window() {
    assert_eq!(toggle_action(VisibilityReading::Visible), WindowAction::Hide);
}

#[test]
fn toggle_reveals_a_hidden_window() {
    assert_eq!(toggle_action(VisibilityReading::Hidden), WindowAction::ShowAndFocus);
}

#[test]
fn toggle_forces_show_when_visibility_is_unknown() {
    assert_eq!(toggle_action(VisibilityReading::Unknown), WindowAction::ShowAndFocus);
}

#[test]
fn toggling_twice_restores_visibility() {
    // A visible window is hidden; read back as hidden, it is shown again.
    assert_eq!(toggle_action(VisibilityReading::Visible), WindowAction::Hide);
    assert_eq!(toggle_action(VisibilityReading::Hidden), WindowAction::ShowAndFocus);
}

#[test]
fn left_click_release_on_tray_reveals_the_window() {
    let event = TrayEvent::Click {
        button: TrayMouseButton::Left,
        button_state: TrayButtonState::Up,
    };
    assert_eq!(tray_action(&event), Some(WindowAction::ShowAndFocus));
}

#[test]
fn left_click_press_on_tray_does_nothing() {
    let event = TrayEvent::Click {
        button: TrayMouseButton::Left,
        button_state: TrayButtonState::Down,
    };
    assert_eq!(tray_action(&event), None);
}

#[test]
fn right_click_release_on_tray_does_nothing() {
    let event = TrayEvent::Click {
        button: TrayMouseButton::Right,
        button_state: TrayButtonState::Up,
    };
    assert_eq!(tray_action(&event), None);
}

#[test]
fn other_tray_events_do_nothing() {
    assert_eq!(tray_action(&TrayEvent::Other), None);
}

#[test]
fn the_registered_hotkey_is_super_e() {
    let h = toggle_hotkey();
    assert_eq!(
        h,
        HotKey {
            modifiers: Modifiers { alt: false, control: false, shift: false, super_key: true },
            code: HotKeyCode::KeyE,
        }
    );
}

#[test]
fn pressing_the_registered_hotkey_toggles() {
    let registered = toggle_hotkey();
    let fired = toggle_hotkey();
    assert!(hotkey_toggles(&registered, &fired, HotKeyState::Pressed));
}

#[test]
fn releasing_the_registered_hotkey_does_not_toggle() {
    let registered = toggle_hotkey();
    let fired = toggle_hotkey();
    assert!(!hotkey_toggles(&registered, &fired, HotKeyState::Released));
}

#[test]
fn pressing_another_key_does_not_toggle() {
    let registered = toggle_hotkey();
    let fired = HotKey {
        modifiers: Modifiers { alt: false, control: false, shift: false, super_key: true },
        code: HotKeyCode::Other,
    };
    assert!(!hotkey_toggles(&registered, &fired, HotKeyState::Pressed));
}

#[test]
fn pressing_e_with_other_modifiers_does_not_toggle() {
    let registered = toggle_hotkey();
    let fired = HotKey {
        modifiers: Modifiers { alt: false, control: true, shift: false, super_key: false },
        code: HotKeyCode::KeyE,
    };
    assert!(!hotkey_toggles(&registered, &fired, HotKeyState::Pressed));
}
