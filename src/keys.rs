//! Keys, modifiers and pointer buttons, and how the windowing system's
//! names for them map to the GUI's.

use vstd::prelude::*;
use winit::event::{ElementState, MouseButton, TouchPhase as WinitTouchPhase};
use winit::keyboard::{KeyCode, NamedKey};
use winit::window::{CursorIcon as WinitCursorIcon, Theme as WinitTheme};

verus! {

/// winit's `KeyCode`, a plain enum of key positions; `key_from_key_code`
/// reads its variants.
#[verifier::external_type_specification]
pub struct ExKeyCode(KeyCode);

/// winit's `NamedKey`, a plain enum of keys that type no text;
/// `key_from_named_key` reads its variants.
#[verifier::external_type_specification]
pub struct ExNamedKey(NamedKey);

/// winit's `MouseButton`; `translate_mouse_button` reads its variants.
#[verifier::external_type_specification]
pub struct ExMouseButton(MouseButton);

/// winit's `ElementState`, pressed or released.
#[verifier::external_type_specification]
pub struct ExElementState(ElementState);

/// winit's `TouchPhase`, the stage of a touch.
#[verifier::external_type_specification]
pub struct ExTouchPhase(WinitTouchPhase);

/// winit's `Theme`, light or dark.
#[verifier::external_type_specification]
pub struct ExTheme(WinitTheme);

/// winit's `CursorIcon`, the system cursor shapes; `translate_cursor`
/// produces its variants.
#[verifier::external_type_specification]
pub struct ExCursorIcon(WinitCursorIcon);

/// The platform the program runs on, where it changes which shortcuts apply.
#[derive(Clone, Copy, Debug, PartialEq, Eq, Structural)]
pub enum OperatingSystem {
    Unknown,
    Android,
    IOS,
    /// Linux.
    Nix,
    Mac,
    Windows,
}

/// Which modifier keys are held.
#[derive(Clone, Copy, Debug, PartialEq, Eq, Structural, Default)]
pub struct Modifiers {
    pub alt: bool,
    pub ctrl: bool,
    pub shift: bool,
    /// The Mac command key; always false elsewhere.
    pub mac_cmd: bool,
    /// The key used for shortcuts: command on Mac, control elsewhere.
    pub command: bool,
}

/// A mouse button as the GUI names it.
#[derive(Clone, Copy, Debug, PartialEq, Eq, Structural, Hash)]
pub enum PointerButton {
    Primary,
    Secondary,
    Middle,
    Extra1,
    Extra2,
}

/// Light or dark appearance.
#[derive(Clone, Copy, Debug, PartialEq, Eq, Structural, Hash)]
pub enum Theme {
    Dark,
    Light,
}

pub open spec fn is_private_use(c: char) -> bool {
    ||| (0xe000 <= c as u32 <= 0xf8ff)
    ||| (0xf0000 <= c as u32 <= 0xffffd)
    ||| (0x100000 <= c as u32 <= 0x10fffd)
}

pub open spec fn is_ascii_control(c: char) -> bool {
    c as u32 <= 0x1f || c as u32 == 0x7f
}

/// Whether `chr` is text to insert. Special keys arrive as characters of
/// the private use areas, and control characters (including tab and
/// newlines, which come as key events) are no text either.
pub fn is_printable_char(chr: char) -> (r: bool)
    ensures
        r == (!is_private_use(chr) && !is_ascii_control(chr)),
{
    let c = chr as u32;
    let is_in_private_use_area = (0xe000 <= c && c <= 0xf8ff) || (0xf0000 <= c && c <= 0xffffd)
        || (0x100000 <= c && c <= 0x10fffd);
    let is_ascii_control = c <= 0x1f || c == 0x7f;
    !is_in_private_use_area && !is_ascii_control
}

pub open spec fn is_cut_spec(os: OperatingSystem, modifiers: Modifiers, keycode: Key) -> bool {
    ||| keycode == Key::Cut
    ||| (modifiers.command && keycode == Key::X)
    ||| (os == OperatingSystem::Windows && modifiers.shift && keycode == Key::Delete)
}

pub open spec fn is_copy_spec(os: OperatingSystem, modifiers: Modifiers, keycode: Key) -> bool {
    ||| keycode == Key::Copy
    ||| (modifiers.command && keycode == Key::C)
    ||| (os == OperatingSystem::Windows && modifiers.ctrl && keycode == Key::Insert)
}

pub open spec fn is_paste_spec(os: OperatingSystem, modifiers: Modifiers, keycode: Key) -> bool {
    ||| keycode == Key::Paste
    ||| (modifiers.command && keycode == Key::V)
    ||| (os == OperatingSystem::Windows && modifiers.shift && keycode == Key::Insert)
}

/// The cut key, command-X, or on Windows shift-delete.
pub fn is_cut_command(os: OperatingSystem, modifiers: Modifiers, keycode: Key) -> (r: bool)
    ensures
        r == is_cut_spec(os, modifiers, keycode),
{
    keycode == Key::Cut || (modifiers.command && keycode == Key::X) || (os
        == OperatingSystem::Windows && modifiers.shift && keycode == Key::Delete)
}

/// The copy key, command-C, or on Windows control-insert.
pub fn is_copy_command(os: OperatingSystem, modifiers: Modifiers, keycode: Key) -> (r: bool)
    ensures
        r == is_copy_spec(os, modifiers, keycode),
{
    keycode == Key::Copy || (modifiers.command && keycode == Key::C) || (os
        == OperatingSystem::Windows && modifiers.ctrl && keycode == Key::Insert)
}

/// The paste key, command-V, or on Windows shift-insert.
pub fn is_paste_command(os: OperatingSystem, modifiers: Modifiers, keycode: Key) -> (r: bool)
    ensures
        r == is_paste_spec(os, modifiers, keycode),
{
    keycode == Key::Paste || (modifiers.command && keycode == Key::V) || (os
        == OperatingSystem::Windows && modifiers.shift && keycode == Key::Insert)
}

/// The modifiers held, from the state of the alt, control, shift and
/// super keys. On Mac the super key is the command key.
pub fn modifiers_from_keys(os: OperatingSystem, alt: bool, ctrl: bool, shift: bool, super_: bool) -> (m: Modifiers)
    ensures
        m.alt == alt,
        m.ctrl == ctrl,
        m.shift == shift,
        m.mac_cmd == (os == OperatingSystem::Mac && super_),
        m.command == if os == OperatingSystem::Mac { super_ } else { ctrl },
{
    let is_mac = os == OperatingSystem::Mac;
    Modifiers {
        alt,
        ctrl,
        shift,
        mac_cmd: is_mac && super_,
        command: if is_mac { super_ } else { ctrl },
    }
}

pub open spec fn translate_mouse_button_spec(button: MouseButton) -> Option<PointerButton> {
    match button {
        MouseButton::Left => Some(PointerButton::Primary),
        MouseButton::Right => Some(PointerButton::Secondary),
        MouseButton::Middle => Some(PointerButton::Middle),
        MouseButton::Back => Some(PointerButton::Extra1),
        MouseButton::Forward => Some(PointerButton::Extra2),
        MouseButton::Other(_) => None,
    }
}

/// The GUI's name for a mouse button; buttons beyond the fifth have none.
pub fn translate_mouse_button(button: MouseButton) -> (r: Option<PointerButton>)
    ensures
        r == translate_mouse_button_spec(button),
{
    match button {
        MouseButton::Left => Some(PointerButton::Primary),
        MouseButton::Right => Some(PointerButton::Secondary),
        MouseButton::Middle => Some(PointerButton::Middle),
        MouseButton::Back => Some(PointerButton::Extra1),
        MouseButton::Forward => Some(PointerButton::Extra2),
        MouseButton::Other(_) => None,
    }
}

/// The GUI's name for the system's light or dark theme.
pub fn to_egui_theme(theme: WinitTheme) -> (r: Theme)
    ensures
        theme == WinitTheme::Dark ==> r == Theme::Dark,
        theme == WinitTheme::Light ==> r == Theme::Light,
{
    match theme {
        WinitTheme::Dark => Theme::Dark,
        WinitTheme::Light => Theme::Light,
    }
}

/// A key on the keyboard, independent of layout details.
#[derive(Clone, Copy, Debug, PartialEq, Eq, Structural, Hash)]
pub enum Key {
    Enter,
    Tab,
    ArrowDown,
    ArrowLeft,
    ArrowRight,
    ArrowUp,
    End,
    Home,
    PageDown,
    PageUp,
    Backspace,
    Delete,
    Insert,
    Escape,
    Cut,
    Copy,
    Paste,
    Space,
    F1,
    F2,
    F3,
    F4,
    F5,
    F6,
    F7,
    F8,
    F9,
    F10,
    F11,
    F12,
    F13,
    F14,
    F15,
    F16,
    F17,
    F18,
    F19,
    F20,
    F21,
    F22,
    F23,
    F24,
    F25,
    F26,
    F27,
    F28,
    F29,
    F30,
    F31,
    F32,
    F33,
    F34,
    F35,
    BrowserBack,
    Colon,
    Pipe,
    Questionmark,
    Exclamationmark,
    OpenCurlyBracket,
    CloseCurlyBracket,
    Comma,
    Period,
    Semicolon,
    Backslash,
    Slash,
    OpenBracket,
    CloseBracket,
    Backtick,
    Quote,
    Minus,
    Plus,
    Equals,
    Num0,
    Num1,
    Num2,
    Num3,
    Num4,
    Num5,
    Num6,
    Num7,
    Num8,
    Num9,
    A,
    B,
    C,
    D,
    E,
    F,
    G,
    H,
    I,
    J,
    K,
    L,
    M,
    N,
    O,
    P,
    Q,
    R,
    S,
    T,
    U,
    V,
    W,
    X,
    Y,
    Z,
}

/// The shape the mouse cursor takes.
#[derive(Clone, Copy, Debug, PartialEq, Eq, Structural, Hash)]
pub enum CursorIcon {
    /// No cursor is shown.
    Hidden,
    Alias,
    AllScroll,
    Cell,
    ContextMenu,
    Copy,
    Crosshair,
    Default,
    Grab,
    Grabbing,
    Help,
    Move,
    NoDrop,
    NotAllowed,
    PointingHand,
    Progress,
    ResizeHorizontal,
    ResizeNeSw,
    ResizeNwSe,
    ResizeVertical,
    ResizeEast,
    ResizeSouthEast,
    ResizeSouth,
    ResizeSouthWest,
    ResizeWest,
    ResizeNorthWest,
    ResizeNorth,
    ResizeNorthEast,
    ResizeColumn,
    ResizeRow,
    Text,
    VerticalText,
    Wait,
    ZoomIn,
    ZoomOut,
}

pub open spec fn named_key_spec(named_key: NamedKey) -> Option<Key> {
    match named_key {
        NamedKey::Enter => Some(Key::Enter),
        NamedKey::Tab => Some(Key::Tab),
        NamedKey::ArrowDown => Some(Key::ArrowDown),
        NamedKey::ArrowLeft => Some(Key::ArrowLeft),
        NamedKey::ArrowRight => Some(Key::ArrowRight),
        NamedKey::ArrowUp => Some(Key::ArrowUp),
        NamedKey::End => Some(Key::End),
        NamedKey::Home => Some(Key::Home),
        NamedKey::PageDown => Some(Key::PageDown),
        NamedKey::PageUp => Some(Key::PageUp),
        NamedKey::Backspace => Some(Key::Backspace),
        NamedKey::Delete => Some(Key::Delete),
        NamedKey::Insert => Some(Key::Insert),
        NamedKey::Escape => Some(Key::Escape),
        NamedKey::Cut => Some(Key::Cut),
        NamedKey::Copy => Some(Key::Copy),
        NamedKey::Paste => Some(Key::Paste),
        NamedKey::Space => Some(Key::Space),
        NamedKey::F1 => Some(Key::F1),
        NamedKey::F2 => Some(Key::F2),
        NamedKey::F3 => Some(Key::F3),
        NamedKey::F4 => Some(Key::F4),
        NamedKey::F5 => Some(Key::F5),
        NamedKey::F6 => Some(Key::F6),
        NamedKey::F7 => Some(Key::F7),
        NamedKey::F8 => Some(Key::F8),
        NamedKey::F9 => Some(Key::F9),
        NamedKey::F10 => Some(Key::F10),
        NamedKey::F11 => Some(Key::F11),
        NamedKey::F12 => Some(Key::F12),
        NamedKey::F13 => Some(Key::F13),
        NamedKey::F14 => Some(Key::F14),
        NamedKey::F15 => Some(Key::F15),
        NamedKey::F16 => Some(Key::F16),
        NamedKey::F17 => Some(Key::F17),
        NamedKey::F18 => Some(Key::F18),
        NamedKey::F19 => Some(Key::F19),
        NamedKey::F20 => Some(Key::F20),
        NamedKey::F21 => Some(Key::F21),
        NamedKey::F22 => Some(Key::F22),
        NamedKey::F23 => Some(Key::F23),
        NamedKey::F24 => Some(Key::F24),
        NamedKey::F25 => Some(Key::F25),
        NamedKey::F26 => Some(Key::F26),
        NamedKey::F27 => Some(Key::F27),
        NamedKey::F28 => Some(Key::F28),
        NamedKey::F29 => Some(Key::F29),
        NamedKey::F30 => Some(Key::F30),
        NamedKey::F31 => Some(Key::F31),
        NamedKey::F32 => Some(Key::F32),
        NamedKey::F33 => Some(Key::F33),
        NamedKey::F34 => Some(Key::F34),
        NamedKey::F35 => Some(Key::F35),
        NamedKey::BrowserBack => Some(Key::BrowserBack),
        _ => None,
    }
}

/// The key that a named key of the windowing system stands for, if any.
pub fn key_from_named_key(named_key: NamedKey) -> (r: Option<Key>)
    ensures
        r == named_key_spec(named_key),
{
    match named_key {
        NamedKey::Enter => Some(Key::Enter),
        NamedKey::Tab => Some(Key::Tab),
        NamedKey::ArrowDown => Some(Key::ArrowDown),
        NamedKey::ArrowLeft => Some(Key::ArrowLeft),
        NamedKey::ArrowRight => Some(Key::ArrowRight),
        NamedKey::ArrowUp => Some(Key::ArrowUp),
        NamedKey::End => Some(Key::End),
        NamedKey::Home => Some(Key::Home),
        NamedKey::PageDown => Some(Key::PageDown),
        NamedKey::PageUp => Some(Key::PageUp),
        NamedKey::Backspace => Some(Key::Backspace),
        NamedKey::Delete => Some(Key::Delete),
        NamedKey::Insert => Some(Key::Insert),
        NamedKey::Escape => Some(Key::Escape),
        NamedKey::Cut => Some(Key::Cut),
        NamedKey::Copy => Some(Key::Copy),
        NamedKey::Paste => Some(Key::Paste),
        NamedKey::Space => Some(Key::Space),
        NamedKey::F1 => Some(Key::F1),
        NamedKey::F2 => Some(Key::F2),
        NamedKey::F3 => Some(Key::F3),
        NamedKey::F4 => Some(Key::F4),
        NamedKey::F5 => Some(Key::F5),
        NamedKey::F6 => Some(Key::F6),
        NamedKey::F7 => Some(Key::F7),
        NamedKey::F8 => Some(Key::F8),
        NamedKey::F9 => Some(Key::F9),
        NamedKey::F10 => Some(Key::F10),
        NamedKey::F11 => Some(Key::F11),
        NamedKey::F12 => Some(Key::F12),
        NamedKey::F13 => Some(Key::F13),
        NamedKey::F14 => Some(Key::F14),
        NamedKey::F15 => Some(Key::F15),
        NamedKey::F16 => Some(Key::F16),
        NamedKey::F17 => Some(Key::F17),
        NamedKey::F18 => Some(Key::F18),
        NamedKey::F19 => Some(Key::F19),
        NamedKey::F20 => Some(Key::F20),
        NamedKey::F21 => Some(Key::F21),
        NamedKey::F22 => Some(Key::F22),
        NamedKey::F23 => Some(Key::F23),
        NamedKey::F24 => Some(Key::F24),
        NamedKey::F25 => Some(Key::F25),
        NamedKey::F26 => Some(Key::F26),
        NamedKey::F27 => Some(Key::F27),
        NamedKey::F28 => Some(Key::F28),
        NamedKey::F29 => Some(Key::F29),
        NamedKey::F30 => Some(Key::F30),
        NamedKey::F31 => Some(Key::F31),
        NamedKey::F32 => Some(Key::F32),
        NamedKey::F33 => Some(Key::F33),
        NamedKey::F34 => Some(Key::F34),
        NamedKey::F35 => Some(Key::F35),
        NamedKey::BrowserBack => Some(Key::BrowserBack),
        _ => None,
    }
}

pub open spec fn key_code_spec(key: KeyCode) -> Option<Key> {
    match key {
        KeyCode::ArrowDown => Some(Key::ArrowDown),
        KeyCode::ArrowLeft => Some(Key::ArrowLeft),
        KeyCode::ArrowRight => Some(Key::ArrowRight),
        KeyCode::ArrowUp => Some(Key::ArrowUp),
        KeyCode::Escape => Some(Key::Escape),
        KeyCode::Tab => Some(Key::Tab),
        KeyCode::Backspace => Some(Key::Backspace),
        KeyCode::Enter | KeyCode::NumpadEnter => Some(Key::Enter),
        KeyCode::Insert => Some(Key::Insert),
        KeyCode::Delete => Some(Key::Delete),
        KeyCode::Home => Some(Key::Home),
        KeyCode::End => Some(Key::End),
        KeyCode::PageUp => Some(Key::PageUp),
        KeyCode::PageDown => Some(Key::PageDown),
        KeyCode::Space => Some(Key::Space),
        KeyCode::Comma => Some(Key::Comma),
        KeyCode::Period => Some(Key::Period),
        KeyCode::Semicolon => Some(Key::Semicolon),
        KeyCode::Backslash => Some(Key::Backslash),
        KeyCode::Slash | KeyCode::NumpadDivide => Some(Key::Slash),
        KeyCode::BracketLeft => Some(Key::OpenBracket),
        KeyCode::BracketRight => Some(Key::CloseBracket),
        KeyCode::Backquote => Some(Key::Backtick),
        KeyCode::Quote => Some(Key::Quote),
        KeyCode::Cut => Some(Key::Cut),
        KeyCode::Copy => Some(Key::Copy),
        KeyCode::Paste => Some(Key::Paste),
        KeyCode::Minus | KeyCode::NumpadSubtract => Some(Key::Minus),
        KeyCode::NumpadAdd => Some(Key::Plus),
        KeyCode::Equal => Some(Key::Equals),
        KeyCode::Digit0 | KeyCode::Numpad0 => Some(Key::Num0),
        KeyCode::Digit1 | KeyCode::Numpad1 => Some(Key::Num1),
        KeyCode::Digit2 | KeyCode::Numpad2 => Some(Key::Num2),
        KeyCode::Digit3 | KeyCode::Numpad3 => Some(Key::Num3),
        KeyCode::Digit4 | KeyCode::Numpad4 => Some(Key::Num4),
        KeyCode::Digit5 | KeyCode::Numpad5 => Some(Key::Num5),
        KeyCode::Digit6 | KeyCode::Numpad6 => Some(Key::Num6),
        KeyCode::Digit7 | KeyCode::Numpad7 => Some(Key::Num7),
        KeyCode::Digit8 | KeyCode::Numpad8 => Some(Key::Num8),
        KeyCode::Digit9 | KeyCode::Numpad9 => Some(Key::Num9),
        KeyCode::KeyA => Some(Key::A),
        KeyCode::KeyB => Some(Key::B),
        KeyCode::KeyC => Some(Key::C),
        KeyCode::KeyD => Some(Key::D),
        KeyCode::KeyE => Some(Key::E),
        KeyCode::KeyF => Some(Key::F),
        KeyCode::KeyG => Some(Key::G),
        KeyCode::KeyH => Some(Key::H),
        KeyCode::KeyI => Some(Key::I),
        KeyCode::KeyJ => Some(Key::J),
        KeyCode::KeyK => Some(Key::K),
        KeyCode::KeyL => Some(Key::L),
        KeyCode::KeyM => Some(Key::M),
        KeyCode::KeyN => Some(Key::N),
        KeyCode::KeyO => Some(Key::O),
        KeyCode::KeyP => Some(Key::P),
        KeyCode::KeyQ => Some(Key::Q),
        KeyCode::KeyR => Some(Key::R),
        KeyCode::KeyS => Some(Key::S),
        KeyCode::KeyT => Some(Key::T),
        KeyCode::KeyU => Some(Key::U),
        KeyCode::KeyV => Some(Key::V),
        KeyCode::KeyW => Some(Key::W),
        KeyCode::KeyX => Some(Key::X),
        KeyCode::KeyY => Some(Key::Y),
        KeyCode::KeyZ => Some(Key::Z),
        KeyCode::F1 => Some(Key::F1),
        KeyCode::F2 => Some(Key::F2),
        KeyCode::F3 => Some(Key::F3),
        KeyCode::F4 => Some(Key::F4),
        KeyCode::F5 => Some(Key::F5),
        KeyCode::F6 => Some(Key::F6),
        KeyCode::F7 => Some(Key::F7),
        KeyCode::F8 => Some(Key::F8),
        KeyCode::F9 => Some(Key::F9),
        KeyCode::F10 => Some(Key::F10),
        KeyCode::F11 => Some(Key::F11),
        KeyCode::F12 => Some(Key::F12),
        KeyCode::F13 => Some(Key::F13),
        KeyCode::F14 => Some(Key::F14),
        KeyCode::F15 => Some(Key::F15),
        KeyCode::F16 => Some(Key::F16),
        KeyCode::F17 => Some(Key::F17),
        KeyCode::F18 => Some(Key::F18),
        KeyCode::F19 => Some(Key::F19),
        KeyCode::F20 => Some(Key::F20),
        KeyCode::F21 => Some(Key::F21),
        KeyCode::F22 => Some(Key::F22),
        KeyCode::F23 => Some(Key::F23),
        KeyCode::F24 => Some(Key::F24),
        KeyCode::F25 => Some(Key::F25),
        KeyCode::F26 => Some(Key::F26),
        KeyCode::F27 => Some(Key::F27),
        KeyCode::F28 => Some(Key::F28),
        KeyCode::F29 => Some(Key::F29),
        KeyCode::F30 => Some(Key::F30),
        KeyCode::F31 => Some(Key::F31),
        KeyCode::F32 => Some(Key::F32),
        KeyCode::F33 => Some(Key::F33),
        KeyCode::F34 => Some(Key::F34),
        KeyCode::F35 => Some(Key::F35),
        _ => None,
    }
}

/// The key at a physical key position, as it is labelled on a US layout.
/// Number-pad digits and operators count as their main-block keys.
pub fn key_from_key_code(key: KeyCode) -> (r: Option<Key>)
    ensures
        r == key_code_spec(key),
{
    match key {
        KeyCode::ArrowDown => Some(Key::ArrowDown),
        KeyCode::ArrowLeft => Some(Key::ArrowLeft),
        KeyCode::ArrowRight => Some(Key::ArrowRight),
        KeyCode::ArrowUp => Some(Key::ArrowUp),
        KeyCode::Escape => Some(Key::Escape),
        KeyCode::Tab => Some(Key::Tab),
        KeyCode::Backspace => Some(Key::Backspace),
        KeyCode::Enter | KeyCode::NumpadEnter => Some(Key::Enter),
        KeyCode::Insert => Some(Key::Insert),
        KeyCode::Delete => Some(Key::Delete),
        KeyCode::Home => Some(Key::Home),
        KeyCode::End => Some(Key::End),
        KeyCode::PageUp => Some(Key::PageUp),
        KeyCode::PageDown => Some(Key::PageDown),
        KeyCode::Space => Some(Key::Space),
        KeyCode::Comma => Some(Key::Comma),
        KeyCode::Period => Some(Key::Period),
        KeyCode::Semicolon => Some(Key::Semicolon),
        KeyCode::Backslash => Some(Key::Backslash),
        KeyCode::Slash | KeyCode::NumpadDivide => Some(Key::Slash),
        KeyCode::BracketLeft => Some(Key::OpenBracket),
        KeyCode::BracketRight => Some(Key::CloseBracket),
        KeyCode::Backquote => Some(Key::Backtick),
        KeyCode::Quote => Some(Key::Quote),
        KeyCode::Cut => Some(Key::Cut),
        KeyCode::Copy => Some(Key::Copy),
        KeyCode::Paste => Some(Key::Paste),
        KeyCode::Minus | KeyCode::NumpadSubtract => Some(Key::Minus),
        KeyCode::NumpadAdd => Some(Key::Plus),
        KeyCode::Equal => Some(Key::Equals),
        KeyCode::Digit0 | KeyCode::Numpad0 => Some(Key::Num0),
        KeyCode::Digit1 | KeyCode::Numpad1 => Some(Key::Num1),
        KeyCode::Digit2 | KeyCode::Numpad2 => Some(Key::Num2),
        KeyCode::Digit3 | KeyCode::Numpad3 => Some(Key::Num3),
        KeyCode::Digit4 | KeyCode::Numpad4 => Some(Key::Num4),
        KeyCode::Digit5 | KeyCode::Numpad5 => Some(Key::Num5),
        KeyCode::Digit6 | KeyCode::Numpad6 => Some(Key::Num6),
        KeyCode::Digit7 | KeyCode::Numpad7 => Some(Key::Num7),
        KeyCode::Digit8 | KeyCode::Numpad8 => Some(Key::Num8),
        KeyCode::Digit9 | KeyCode::Numpad9 => Some(Key::Num9),
        KeyCode::KeyA => Some(Key::A),
        KeyCode::KeyB => Some(Key::B),
        KeyCode::KeyC => Some(Key::C),
        KeyCode::KeyD => Some(Key::D),
        KeyCode::KeyE => Some(Key::E),
        KeyCode::KeyF => Some(Key::F),
        KeyCode::KeyG => Some(Key::G),
        KeyCode::KeyH => Some(Key::H),
        KeyCode::KeyI => Some(Key::I),
        KeyCode::KeyJ => Some(Key::J),
        KeyCode::KeyK => Some(Key::K),
        KeyCode::KeyL => Some(Key::L),
        KeyCode::KeyM => Some(Key::M),
        KeyCode::KeyN => Some(Key::N),
        KeyCode::KeyO => Some(Key::O),
        KeyCode::KeyP => Some(Key::P),
        KeyCode::KeyQ => Some(Key::Q),
        KeyCode::KeyR => Some(Key::R),
        KeyCode::KeyS => Some(Key::S),
        KeyCode::KeyT => Some(Key::T),
        KeyCode::KeyU => Some(Key::U),
        KeyCode::KeyV => Some(Key::V),
        KeyCode::KeyW => Some(Key::W),
        KeyCode::KeyX => Some(Key::X),
        KeyCode::KeyY => Some(Key::Y),
        KeyCode::KeyZ => Some(Key::Z),
        KeyCode::F1 => Some(Key::F1),
        KeyCode::F2 => Some(Key::F2),
        KeyCode::F3 => Some(Key::F3),
        KeyCode::F4 => Some(Key::F4),
        KeyCode::F5 => Some(Key::F5),
        KeyCode::F6 => Some(Key::F6),
        KeyCode::F7 => Some(Key::F7),
        KeyCode::F8 => Some(Key::F8),
        KeyCode::F9 => Some(Key::F9),
        KeyCode::F10 => Some(Key::F10),
        KeyCode::F11 => Some(Key::F11),
        KeyCode::F12 => Some(Key::F12),
        KeyCode::F13 => Some(Key::F13),
        KeyCode::F14 => Some(Key::F14),
        KeyCode::F15 => Some(Key::F15),
        KeyCode::F16 => Some(Key::F16),
        KeyCode::F17 => Some(Key::F17),
        KeyCode::F18 => Some(Key::F18),
        KeyCode::F19 => Some(Key::F19),
        KeyCode::F20 => Some(Key::F20),
        KeyCode::F21 => Some(Key::F21),
        KeyCode::F22 => Some(Key::F22),
        KeyCode::F23 => Some(Key::F23),
        KeyCode::F24 => Some(Key::F24),
        KeyCode::F25 => Some(Key::F25),
        KeyCode::F26 => Some(Key::F26),
        KeyCode::F27 => Some(Key::F27),
        KeyCode::F28 => Some(Key::F28),
        KeyCode::F29 => Some(Key::F29),
        KeyCode::F30 => Some(Key::F30),
        KeyCode::F31 => Some(Key::F31),
        KeyCode::F32 => Some(Key::F32),
        KeyCode::F33 => Some(Key::F33),
        KeyCode::F34 => Some(Key::F34),
        KeyCode::F35 => Some(Key::F35),
        _ => None,
    }
}

pub open spec fn cursor_spec(cursor_icon: CursorIcon) -> Option<WinitCursorIcon> {
    match cursor_icon {
        CursorIcon::Alias => Some(WinitCursorIcon::Alias),
        CursorIcon::AllScroll => Some(WinitCursorIcon::AllScroll),
        CursorIcon::Cell => Some(WinitCursorIcon::Cell),
        CursorIcon::ContextMenu => Some(WinitCursorIcon::ContextMenu),
        CursorIcon::Copy => Some(WinitCursorIcon::Copy),
        CursorIcon::Crosshair => Some(WinitCursorIcon::Crosshair),
        CursorIcon::Default => Some(WinitCursorIcon::Default),
        CursorIcon::Grab => Some(WinitCursorIcon::Grab),
        CursorIcon::Grabbing => Some(WinitCursorIcon::Grabbing),
        CursorIcon::Help => Some(WinitCursorIcon::Help),
        CursorIcon::Move => Some(WinitCursorIcon::Move),
        CursorIcon::NoDrop => Some(WinitCursorIcon::NoDrop),
        CursorIcon::NotAllowed => Some(WinitCursorIcon::NotAllowed),
        CursorIcon::PointingHand => Some(WinitCursorIcon::Pointer),
        CursorIcon::Progress => Some(WinitCursorIcon::Progress),
        CursorIcon::ResizeHorizontal => Some(WinitCursorIcon::EwResize),
        CursorIcon::ResizeNeSw => Some(WinitCursorIcon::NeswResize),
        CursorIcon::ResizeNwSe => Some(WinitCursorIcon::NwseResize),
        CursorIcon::ResizeVertical => Some(WinitCursorIcon::NsResize),
        CursorIcon::ResizeEast => Some(WinitCursorIcon::EResize),
        CursorIcon::ResizeSouthEast => Some(WinitCursorIcon::SeResize),
        CursorIcon::ResizeSouth => Some(WinitCursorIcon::SResize),
        CursorIcon::ResizeSouthWest => Some(WinitCursorIcon::SwResize),
        CursorIcon::ResizeWest => Some(WinitCursorIcon::WResize),
        CursorIcon::ResizeNorthWest => Some(WinitCursorIcon::NwResize),
        CursorIcon::ResizeNorth => Some(WinitCursorIcon::NResize),
        CursorIcon::ResizeNorthEast => Some(WinitCursorIcon::NeResize),
        CursorIcon::ResizeColumn => Some(WinitCursorIcon::ColResize),
        CursorIcon::ResizeRow => Some(WinitCursorIcon::RowResize),
        CursorIcon::Text => Some(WinitCursorIcon::Text),
        CursorIcon::VerticalText => Some(WinitCursorIcon::VerticalText),
        CursorIcon::Wait => Some(WinitCursorIcon::Wait),
        CursorIcon::ZoomIn => Some(WinitCursorIcon::ZoomIn),
        CursorIcon::ZoomOut => Some(WinitCursorIcon::ZoomOut),
        CursorIcon::Hidden => None,
    }
}

/// The system cursor for `cursor_icon`; `None` hides the cursor.
pub fn translate_cursor(cursor_icon: CursorIcon) -> (r: Option<WinitCursorIcon>)
    ensures
        r == cursor_spec(cursor_icon),
{
    match cursor_icon {
        CursorIcon::Alias => Some(WinitCursorIcon::Alias),
        CursorIcon::AllScroll => Some(WinitCursorIcon::AllScroll),
        CursorIcon::Cell => Some(WinitCursorIcon::Cell),
        CursorIcon::ContextMenu => Some(WinitCursorIcon::ContextMenu),
        CursorIcon::Copy => Some(WinitCursorIcon::Copy),
        CursorIcon::Crosshair => Some(WinitCursorIcon::Crosshair),
        CursorIcon::Default => Some(WinitCursorIcon::Default),
        CursorIcon::Grab => Some(WinitCursorIcon::Grab),
        CursorIcon::Grabbing => Some(WinitCursorIcon::Grabbing),
        CursorIcon::Help => Some(WinitCursorIcon::Help),
        CursorIcon::Move => Some(WinitCursorIcon::Move),
        CursorIcon::NoDrop => Some(WinitCursorIcon::NoDrop),
        CursorIcon::NotAllowed => Some(WinitCursorIcon::NotAllowed),
        CursorIcon::PointingHand => Some(WinitCursorIcon::Pointer),
        CursorIcon::Progress => Some(WinitCursorIcon::Progress),
        CursorIcon::ResizeHorizontal => Some(WinitCursorIcon::EwResize),
        CursorIcon::ResizeNeSw => Some(WinitCursorIcon::NeswResize),
        CursorIcon::ResizeNwSe => Some(WinitCursorIcon::NwseResize),
        CursorIcon::ResizeVertical => Some(WinitCursorIcon::NsResize),
        CursorIcon::ResizeEast => Some(WinitCursorIcon::EResize),
        CursorIcon::ResizeSouthEast => Some(WinitCursorIcon::SeResize),
        CursorIcon::ResizeSouth => Some(WinitCursorIcon::SResize),
        CursorIcon::ResizeSouthWest => Some(WinitCursorIcon::SwResize),
        CursorIcon::ResizeWest => Some(WinitCursorIcon::WResize),
        CursorIcon::ResizeNorthWest => Some(WinitCursorIcon::NwResize),
        CursorIcon::ResizeNorth => Some(WinitCursorIcon::NResize),
        CursorIcon::ResizeNorthEast => Some(WinitCursorIcon::NeResize),
        CursorIcon::ResizeColumn => Some(WinitCursorIcon::ColResize),
        CursorIcon::ResizeRow => Some(WinitCursorIcon::RowResize),
        CursorIcon::Text => Some(WinitCursorIcon::Text),
        CursorIcon::VerticalText => Some(WinitCursorIcon::VerticalText),
        CursorIcon::Wait => Some(WinitCursorIcon::Wait),
        CursorIcon::ZoomIn => Some(WinitCursorIcon::ZoomIn),
        CursorIcon::ZoomOut => Some(WinitCursorIcon::ZoomOut),
        CursorIcon::Hidden => None,
    }
}


pub open spec fn char_key_spec(c: char) -> Option<Key> {
    match c {
        '\u{23f7}' => Some(Key::ArrowDown),
        '\u{23f4}' => Some(Key::ArrowLeft),
        '\u{23f5}' => Some(Key::ArrowRight),
        '\u{23f6}' => Some(Key::ArrowUp),
        ' ' => Some(Key::Space),
        ':' => Some(Key::Colon),
        ',' => Some(Key::Comma),
        '-' | '\u{2212}' => Some(Key::Minus),
        '.' => Some(Key::Period),
        '+' => Some(Key::Plus),
        '=' => Some(Key::Equals),
        ';' => Some(Key::Semicolon),
        '[' => Some(Key::OpenBracket),
        ']' => Some(Key::CloseBracket),
        '{' => Some(Key::OpenCurlyBracket),
        '}' => Some(Key::CloseCurlyBracket),
        '`' => Some(Key::Backtick),
        '\\' => Some(Key::Backslash),
        '/' => Some(Key::Slash),
        '|' => Some(Key::Pipe),
        '?' => Some(Key::Questionmark),
        '!' => Some(Key::Exclamationmark),
        '\'' => Some(Key::Quote),
        '0' => Some(Key::Num0),
        '1' => Some(Key::Num1),
        '2' => Some(Key::Num2),
        '3' => Some(Key::Num3),
        '4' => Some(Key::Num4),
        '5' => Some(Key::Num5),
        '6' => Some(Key::Num6),
        '7' => Some(Key::Num7),
        '8' => Some(Key::Num8),
        '9' => Some(Key::Num9),
        'A' | 'a' => Some(Key::A),
        'B' | 'b' => Some(Key::B),
        'C' | 'c' => Some(Key::C),
        'D' | 'd' => Some(Key::D),
        'E' | 'e' => Some(Key::E),
        'F' | 'f' => Some(Key::F),
        'G' | 'g' => Some(Key::G),
        'H' | 'h' => Some(Key::H),
        'I' | 'i' => Some(Key::I),
        'J' | 'j' => Some(Key::J),
        'K' | 'k' => Some(Key::K),
        'L' | 'l' => Some(Key::L),
        'M' | 'm' => Some(Key::M),
        'N' | 'n' => Some(Key::N),
        'O' | 'o' => Some(Key::O),
        'P' | 'p' => Some(Key::P),
        'Q' | 'q' => Some(Key::Q),
        'R' | 'r' => Some(Key::R),
        'S' | 's' => Some(Key::S),
        'T' | 't' => Some(Key::T),
        'U' | 'u' => Some(Key::U),
        'V' | 'v' => Some(Key::V),
        'W' | 'w' => Some(Key::W),
        'X' | 'x' => Some(Key::X),
        'Y' | 'y' => Some(Key::Y),
        'Z' | 'z' => Some(Key::Z),
        _ => None,
    }
}

/// The key that types `c` or whose symbol `c` is: letters in either case,
/// digits, punctuation, the space and the arrow symbols.
pub fn key_from_char(c: char) -> (r: Option<Key>)
    ensures
        r == char_key_spec(c),
{
    match c {
        '\u{23f7}' => Some(Key::ArrowDown),
        '\u{23f4}' => Some(Key::ArrowLeft),
        '\u{23f5}' => Some(Key::ArrowRight),
        '\u{23f6}' => Some(Key::ArrowUp),
        ' ' => Some(Key::Space),
        ':' => Some(Key::Colon),
        ',' => Some(Key::Comma),
        '-' | '\u{2212}' => Some(Key::Minus),
        '.' => Some(Key::Period),
        '+' => Some(Key::Plus),
        '=' => Some(Key::Equals),
        ';' => Some(Key::Semicolon),
        '[' => Some(Key::OpenBracket),
        ']' => Some(Key::CloseBracket),
        '{' => Some(Key::OpenCurlyBracket),
        '}' => Some(Key::CloseCurlyBracket),
        '`' => Some(Key::Backtick),
        '\\' => Some(Key::Backslash),
        '/' => Some(Key::Slash),
        '|' => Some(Key::Pipe),
        '?' => Some(Key::Questionmark),
        '!' => Some(Key::Exclamationmark),
        '\'' => Some(Key::Quote),
        '0' => Some(Key::Num0),
        '1' => Some(Key::Num1),
        '2' => Some(Key::Num2),
        '3' => Some(Key::Num3),
        '4' => Some(Key::Num4),
        '5' => Some(Key::Num5),
        '6' => Some(Key::Num6),
        '7' => Some(Key::Num7),
        '8' => Some(Key::Num8),
        '9' => Some(Key::Num9),
        'A' | 'a' => Some(Key::A),
        'B' | 'b' => Some(Key::B),
        'C' | 'c' => Some(Key::C),
        'D' | 'd' => Some(Key::D),
        'E' | 'e' => Some(Key::E),
        'F' | 'f' => Some(Key::F),
        'G' | 'g' => Some(Key::G),
        'H' | 'h' => Some(Key::H),
        'I' | 'i' => Some(Key::I),
        'J' | 'j' => Some(Key::J),
        'K' | 'k' => Some(Key::K),
        'L' | 'l' => Some(Key::L),
        'M' | 'm' => Some(Key::M),
        'N' | 'n' => Some(Key::N),
        'O' | 'o' => Some(Key::O),
        'P' | 'p' => Some(Key::P),
        'Q' | 'q' => Some(Key::Q),
        'R' | 'r' => Some(Key::R),
        'S' | 's' => Some(Key::S),
        'T' | 't' => Some(Key::T),
        'U' | 'u' => Some(Key::U),
        'V' | 'v' => Some(Key::V),
        'W' | 'w' => Some(Key::W),
        'X' | 'x' => Some(Key::X),
        'Y' | 'y' => Some(Key::Y),
        'Z' | 'z' => Some(Key::Z),
        _ => None,
    }
}

} // verus!
