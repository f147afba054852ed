use egui_winit::keys::{
    is_copy_command, is_cut_command, is_paste_command, is_printable_char, key_from_char,
    key_from_key_code, key_from_named_key, modifiers_from_keys, to_egui_theme, translate_cursor,
    translate_mouse_button, CursorIcon, Key, Modifiers, OperatingSystem, PointerButton, Theme,
};
use winit::event::MouseButton;
use winit::keyboard::{KeyCode, NamedKey};

fn command() -> Modifiers {
    Modifiers { command: true, ctrl: true, ..Default::default() }
}

fn shift() -> Modifiers {
    Modifiers { shift: true, ..Default::default() }
}

#[test]
fn printable_chars() {
    assert!(is_printable_char('a'));
    assert!(is_printable_char(' '));
    assert!(is_printable_char('\u{e9}'));
    assert!(!is_printable_char('\n'));
    assert!(!is_printable_char('\r'));
    assert!(!is_printable_char('\t'));
    assert!(!is_printable_char('\u{7f}'));
    assert!(!is_printable_char('\u{f728}'));
    assert!(!is_printable_char('\u{f0000}'));
    assert!(!is_printable_char('\u{10fffd}'));
    assert!(is_printable_char('\u{10fffe}'));
}

#[test]
fn clipboard_commands() {
    let nix = OperatingSystem::Nix;
    let win = OperatingSystem::Windows;
    assert!(is_cut_command(nix, command(), Key::X));
    assert!(!is_cut_command(nix, Modifiers::default(), Key::X));
    assert!(is_cut_command(nix, Modifiers::default(), Key::Cut));
    assert!(is_cut_command(win, shift(), Key::Delete));
    assert!(!is_cut_command(nix, shift(), Key::Delete));
    assert!(is_copy_command(nix, command(), Key::C));
    assert!(is_copy_command(win, Modifiers { ctrl: true, ..Default::default() }, Key::Insert));
    assert!(!is_copy_command(nix, Modifiers { ctrl: true, ..Default::default() }, Key::Insert));
    assert!(is_paste_command(nix, command(), Key::V));
    assert!(is_paste_command(win, shift(), Key::Insert));
    assert!(!is_paste_command(nix, shift(), Key::Insert));
    assert!(is_paste_command(nix, Modifiers::default(), Key::Paste));
}

#[test]
fn modifiers_by_platform() {
    let mac = modifiers_from_keys(OperatingSystem::Mac, false, true, false, true);
    assert!(mac.mac_cmd && mac.command && mac.ctrl);
    let nix = modifiers_from_keys(OperatingSystem::Nix, true, false, true, true);
    assert!(!nix.mac_cmd && !nix.command && nix.alt && nix.shift);
}

#[test]
fn key_tables() {
    assert_eq!(key_from_key_code(KeyCode::KeyQ), Some(Key::Q));
    assert_eq!(key_from_key_code(KeyCode::Numpad7), Some(Key::Num7));
    assert_eq!(key_from_key_code(KeyCode::NumpadEnter), Some(Key::Enter));
    assert_eq!(key_from_key_code(KeyCode::NumpadAdd), Some(Key::Plus));
    assert_eq!(key_from_key_code(KeyCode::F35), Some(Key::F35));
    assert_eq!(key_from_key_code(KeyCode::CapsLock), None);
    assert_eq!(key_from_named_key(NamedKey::Tab), Some(Key::Tab));
    assert_eq!(key_from_named_key(NamedKey::BrowserBack), Some(Key::BrowserBack));
    assert_eq!(key_from_named_key(NamedKey::Shift), None);
    assert_eq!(key_from_char('q'), Some(Key::Q));
    assert_eq!(key_from_char('Q'), Some(Key::Q));
    assert_eq!(key_from_char('?'), Some(Key::Questionmark));
    assert_eq!(key_from_char('\u{e9}'), None);
}

#[test]
fn buttons_themes_cursors() {
    assert_eq!(translate_mouse_button(MouseButton::Left), Some(PointerButton::Primary));
    assert_eq!(translate_mouse_button(MouseButton::Forward), Some(PointerButton::Extra2));
    assert_eq!(translate_mouse_button(MouseButton::Other(9)), None);
    assert_eq!(to_egui_theme(winit::window::Theme::Dark), Theme::Dark);
    assert_eq!(translate_cursor(CursorIcon::Hidden), None);
    assert_eq!(translate_cursor(CursorIcon::PointingHand), Some(winit::window::CursorIcon::Pointer));
    assert_eq!(translate_cursor(CursorIcon::ResizeHorizontal), Some(winit::window::CursorIcon::EwResize));
}
