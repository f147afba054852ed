use egui_winit::input::{
    event_response, is_key_input, CursorUpdate, Event, EventResponse, ImeEvent, KeyboardOutcome,
    MouseWheelUnit, State, TouchPhase, WindowEventKind,
};
use egui_winit::keys::{CursorIcon, Key, OperatingSystem, PointerButton, Theme};
use winit::event::{ElementState, Ime, MouseButton, TouchPhase as WinitTouchPhase};

type P = (f32, f32);

fn state() -> State<P, f32> {
    State::new(Some(winit::window::Theme::Dark), Some(2048))
}

#[test]
fn new_state_defaults() {
    let s = state();
    assert!(s.egui_input.events.is_empty());
    assert!(!s.egui_input.focused);
    assert_eq!(s.egui_input.system_theme, Some(Theme::Dark));
    assert_eq!(s.egui_input.max_texture_side, Some(2048));
    assert!(!s.allow_ime());
}

#[test]
fn take_input_keeps_lasting_state() {
    let mut s = state();
    s.on_focused(true);
    s.on_modifiers_changed(OperatingSystem::Nix, false, true, false, false);
    let taken = s.take_egui_input();
    assert_eq!(taken.events, vec![Event::WindowFocused(true)]);
    assert_eq!(taken.max_texture_side, Some(2048));
    assert!(s.egui_input.events.is_empty());
    assert!(s.egui_input.focused);
    assert!(s.egui_input.modifiers.command);
    assert_eq!(s.egui_input.max_texture_side, None);
}

#[test]
fn ime_enabled_sent_once() {
    let mut s = state();
    s.ime_event_enable();
    s.ime_event_enable();
    s.ime_event_disable();
    s.ime_event_enable();
    assert_eq!(
        s.egui_input.events,
        vec![
            Event::Ime(ImeEvent::Enabled),
            Event::Ime(ImeEvent::Disabled),
            Event::Ime(ImeEvent::Enabled)
        ]
    );
}

#[test]
fn ime_events_from_window() {
    let mut s = state();
    s.on_ime(OperatingSystem::Nix, &Ime::Enabled);
    assert!(s.egui_input.events.is_empty());
    s.on_ime(OperatingSystem::Nix, &Ime::Preedit("ka".to_owned(), Some((2, 2))));
    s.on_ime(OperatingSystem::Nix, &Ime::Commit("か".to_owned()));
    s.on_ime(OperatingSystem::Windows, &Ime::Enabled);
    s.on_ime(OperatingSystem::Windows, &Ime::Preedit(String::new(), None));
    assert_eq!(
        s.egui_input.events,
        vec![
            Event::Ime(ImeEvent::Enabled),
            Event::Ime(ImeEvent::Preedit("ka".to_owned())),
            Event::Ime(ImeEvent::Commit("か".to_owned())),
            Event::Ime(ImeEvent::Disabled),
            Event::Ime(ImeEvent::Enabled),
            Event::Ime(ImeEvent::Disabled),
        ]
    );
}

#[test]
fn mouse_button_needs_pointer() {
    let mut s = state();
    s.on_mouse_button_input(ElementState::Pressed, MouseButton::Left);
    assert!(s.egui_input.events.is_empty());
    s.on_cursor_moved((3.0, 4.0));
    s.on_mouse_button_input(ElementState::Pressed, MouseButton::Other(7));
    s.on_mouse_button_input(ElementState::Released, MouseButton::Right);
    assert_eq!(s.egui_input.events.len(), 2);
    assert!(matches!(
        s.egui_input.events[1],
        Event::PointerButton { pos: (3.0, 4.0), button: PointerButton::Secondary, pressed: false, .. }
    ));
    s.on_cursor_left();
    assert_eq!(s.egui_input.events.last(), Some(&Event::PointerGone));
    assert!(s.pointer_pos_in_points.is_none());
}

#[test]
fn simulated_touch_screen() {
    let mut s = state();
    s.simulate_touch_screen = true;
    s.on_cursor_moved((1.0, 1.0));
    assert!(s.egui_input.events.is_empty(), "no hover while no button is down");
    s.on_mouse_button_input(ElementState::Pressed, MouseButton::Left);
    s.on_cursor_moved((2.0, 1.0));
    s.on_mouse_button_input(ElementState::Released, MouseButton::Left);
    let phases: Vec<TouchPhase> = s
        .egui_input
        .events
        .iter()
        .filter_map(|e| match e {
            Event::Touch { phase, .. } => Some(*phase),
            _ => None,
        })
        .collect();
    assert_eq!(phases, vec![TouchPhase::Start, TouchPhase::Move, TouchPhase::End]);
    assert!(!s.any_pointer_button_down);
}

#[test]
fn touch_drives_pointer() {
    let mut s = state();
    s.on_touch(9, 1, WinitTouchPhase::Started, (5.0, 6.0), Some(0.5));
    assert_eq!(s.pointer_touch_id, Some(1));
    assert_eq!(
        s.egui_input.events[0],
        Event::Touch { device_id: 9, id: 1, phase: TouchPhase::Start, pos: (5.0, 6.0), force: Some(0.5) }
    );
    assert_eq!(s.egui_input.events[1], Event::PointerMoved((5.0, 6.0)));
    assert!(matches!(s.egui_input.events[2], Event::PointerButton { pressed: true, .. }));
    // A second finger is reported but does not move the pointer.
    s.on_touch(9, 2, WinitTouchPhase::Moved, (50.0, 60.0), None);
    assert_eq!(s.egui_input.events.len(), 4);
    assert_eq!(s.pointer_pos_in_points, Some((5.0, 6.0)));
    s.on_touch(9, 1, WinitTouchPhase::Ended, (5.0, 6.0), None);
    assert_eq!(s.pointer_touch_id, None);
    assert_eq!(s.pointer_pos_in_points, None);
    assert!(matches!(s.egui_input.events[5], Event::PointerButton { pressed: false, .. }));
    assert_eq!(s.egui_input.events.last(), Some(&Event::PointerGone));
}

#[test]
fn touch_cancelled() {
    let mut s = state();
    s.on_touch(1, 4, WinitTouchPhase::Started, (1.0, 1.0), None);
    let n = s.egui_input.events.len();
    s.on_touch(1, 4, WinitTouchPhase::Cancelled, (1.0, 1.0), None);
    assert_eq!(s.egui_input.events.len(), n + 2);
    assert_eq!(s.egui_input.events.last(), Some(&Event::PointerGone));
    assert_eq!(s.pointer_touch_id, None);
}

#[test]
fn keyboard_shortcuts() {
    let os = OperatingSystem::Nix;
    let mut s = state();
    s.on_modifiers_changed(os, false, true, false, false);
    assert_eq!(s.on_keyboard_input(os, ElementState::Pressed, Some(Key::C), None, Some("c")), KeyboardOutcome::Done);
    assert_eq!(s.on_keyboard_input(os, ElementState::Pressed, Some(Key::X), None, None), KeyboardOutcome::Done);
    assert_eq!(
        s.on_keyboard_input(os, ElementState::Pressed, None, Some(Key::V), Some("м")),
        KeyboardOutcome::PasteRequested
    );
    assert_eq!(s.egui_input.events, vec![Event::Copy, Event::Cut]);
    // Command held: the key is reported, its letter is not typed.
    s.on_keyboard_input(os, ElementState::Pressed, Some(Key::W), Some(Key::W), Some("w"));
    assert_eq!(s.egui_input.events.len(), 3);
    assert!(matches!(s.egui_input.events[2], Event::Key { key: Key::W, pressed: true, repeat: false, .. }));
}

#[test]
fn keyboard_text() {
    let os = OperatingSystem::Windows;
    let mut s = state();
    s.on_keyboard_input(os, ElementState::Pressed, Some(Key::A), Some(Key::A), Some("a"));
    s.on_keyboard_input(os, ElementState::Released, Some(Key::A), Some(Key::A), Some("a"));
    s.on_keyboard_input(os, ElementState::Pressed, None, None, Some("\u{f728}"));
    s.on_keyboard_input(os, ElementState::Pressed, Some(Key::Enter), None, Some("\r"));
    s.on_keyboard_input(os, ElementState::Pressed, None, None, Some("é"));
    let texts: Vec<&str> = s
        .egui_input
        .events
        .iter()
        .filter_map(|e| match e {
            Event::Text(t) => Some(t.as_str()),
            _ => None,
        })
        .collect();
    assert_eq!(texts, vec!["a", "é"]);
    assert_eq!(s.egui_input.events.len(), 5);
}

#[test]
fn paste_normalizes_line_ends() {
    let mut s = state();
    s.on_paste("a\r\nb\r\r\nc\n");
    s.on_paste("");
    assert_eq!(s.egui_input.events, vec![Event::Paste("a\nb\r\nc\n".to_owned())]);
}

#[test]
fn cursor_icon_updates() {
    let mut s = state();
    assert_eq!(s.set_cursor_icon(CursorIcon::Text), CursorUpdate::Keep);
    assert_eq!(s.current_cursor_icon, None);
    s.on_cursor_moved((1.0, 1.0));
    assert_eq!(s.set_cursor_icon(CursorIcon::Text), CursorUpdate::Show(winit::window::CursorIcon::Text));
    assert_eq!(s.set_cursor_icon(CursorIcon::Text), CursorUpdate::Keep);
    assert_eq!(s.set_cursor_icon(CursorIcon::Hidden), CursorUpdate::Hide);
    assert_eq!(s.current_cursor_icon, Some(CursorIcon::Hidden));
}

#[test]
fn ime_allowed_debounce() {
    let mut s = state();
    assert!(!s.update_allow_ime(false));
    assert!(s.update_allow_ime(true));
    assert!(s.allow_ime());
    assert!(!s.update_allow_ime(true));
    s.set_allow_ime(false);
    assert!(!s.allow_ime());
}

#[test]
fn wheel_zoom_motion_theme() {
    let mut s = state();
    s.on_modifiers_changed(OperatingSystem::Mac, false, false, true, true);
    s.on_mouse_wheel(MouseWheelUnit::Line, (0.0, -1.0));
    s.on_zoom(1.5);
    s.on_mouse_motion((2.0, 3.0));
    s.on_theme_changed(winit::window::Theme::Light);
    assert_eq!(s.egui_input.system_theme, Some(Theme::Light));
    assert!(matches!(
        s.egui_input.events[0],
        Event::MouseWheel { unit: MouseWheelUnit::Line, modifiers, .. } if modifiers.shift && modifiers.mac_cmd
    ));
    assert_eq!(s.egui_input.events[1], Event::Zoom(1.5));
    assert_eq!(s.egui_input.events[2], Event::MouseMoved((2.0, 3.0)));
}

#[test]
fn texture_side_and_input_access() {
    let mut s = state();
    s.set_max_texture_side(4096);
    assert_eq!(s.egui_input().max_texture_side, Some(4096));
    s.egui_input_mut().focused = true;
    assert!(s.egui_input().focused);
}

#[test]
fn event_responses() {
    let r = |consumed: bool, repaint: bool| EventResponse { consumed, repaint };
    assert_eq!(event_response(WindowEventKind::Repaint, true, true, true), r(false, true));
    assert_eq!(event_response(WindowEventKind::Ignored, true, true, true), r(false, false));
    assert_eq!(event_response(WindowEventKind::PointerPress, true, false, false), r(true, true));
    assert_eq!(event_response(WindowEventKind::PointerMove, true, false, false), r(false, true));
    assert_eq!(event_response(WindowEventKind::PointerMove, false, false, true), r(true, true));
    assert_eq!(event_response(WindowEventKind::Touch(WinitTouchPhase::Moved), true, false, false), r(false, true));
    assert_eq!(event_response(WindowEventKind::Touch(WinitTouchPhase::Ended), true, false, false), r(true, true));
    assert_eq!(event_response(WindowEventKind::Ime, false, true, false), r(true, true));
    let tab = WindowEventKind::Key { synthetic: false, state: ElementState::Pressed, tab: true };
    assert_eq!(event_response(tab, false, false, false), r(true, true));
    let made_up = WindowEventKind::Key { synthetic: true, state: ElementState::Pressed, tab: true };
    assert_eq!(event_response(made_up, true, true, true), r(false, true));
    let release = WindowEventKind::Key { synthetic: true, state: ElementState::Released, tab: false };
    assert_eq!(event_response(release, false, true, false), r(true, true));
}

#[test]
fn synthetic_presses_are_no_input() {
    assert!(!is_key_input(true, ElementState::Pressed));
    assert!(is_key_input(true, ElementState::Released));
    assert!(is_key_input(false, ElementState::Pressed));
}

#[test]
fn handlers_leave_other_state_alone() {
    let mut s = state();
    s.on_focused(true);
    s.on_cursor_moved((1.0, 1.0));
    s.set_cursor_icon(CursorIcon::Text);
    s.update_allow_ime(true);
    s.on_mouse_button_input(ElementState::Pressed, MouseButton::Other(3));
    s.on_mouse_wheel(MouseWheelUnit::Point, (0.0, 2.0));
    assert!(s.egui_input.focused);
    assert_eq!(s.current_cursor_icon, Some(CursorIcon::Text));
    assert!(s.allow_ime());
    assert!(!s.any_pointer_button_down);
    assert_eq!(s.egui_input.system_theme, Some(Theme::Dark));
    assert_eq!(s.egui_input.max_texture_side, Some(2048));
}
