//! The input state of one window: the log of GUI events that window-system
//! events turn into, and what the integration remembers between them.
//!
//! Positions, deltas and other measured quantities are carried as values of
//! the type parameters `P` (a point or vector in GUI points) and `F` (a
//! scalar); this module passes them on and never computes with them.

use vstd::prelude::*;
use winit::event::{ElementState, Ime, MouseButton, TouchPhase as WinitTouchPhase};
use winit::window::{CursorIcon as WinitCursorIcon, Theme as WinitTheme};
use crate::keys::{
    cursor_spec, is_copy_spec, is_cut_spec, is_paste_spec, is_printable_char, is_copy_command,
    is_cut_command, is_paste_command, is_ascii_control, is_private_use, modifiers_from_keys,
    to_egui_theme, translate_cursor, translate_mouse_button, translate_mouse_button_spec, CursorIcon, Key, Modifiers,
    OperatingSystem, PointerButton, Theme,
};

verus! {

/// winit's `Ime`, an event of the input method; `State::on_ime` reads its
/// variants and copies the text they hold.
#[verifier::external_type_specification]
pub struct ExIme(Ime);

/// The stage of a touch.
#[derive(Clone, Copy, Debug, PartialEq, Eq, Structural, Hash)]
pub enum TouchPhase {
    Start,
    Move,
    End,
    Cancel,
}

/// Composition of text through an input method.
#[derive(Clone, Debug, PartialEq, Eq)]
pub enum ImeEvent {
    Enabled,
    Preedit(String),
    Commit(String),
    Disabled,
}

/// The unit of a scroll amount.
#[derive(Clone, Copy, Debug, PartialEq, Eq, Structural, Hash)]
pub enum MouseWheelUnit {
    Point,
    Line,
    Page,
}

/// One input event for the GUI.
#[derive(Clone, Debug, PartialEq)]
pub enum Event<P, F> {
    Copy,
    Cut,
    Paste(String),
    Text(String),
    Key { key: Key, physical_key: Option<Key>, pressed: bool, repeat: bool, modifiers: Modifiers },
    PointerMoved(P),
    MouseMoved(P),
    PointerButton { pos: P, button: PointerButton, pressed: bool, modifiers: Modifiers },
    PointerGone,
    Zoom(F),
    Ime(ImeEvent),
    Touch { device_id: u64, id: u64, phase: TouchPhase, pos: P, force: Option<F> },
    MouseWheel { unit: MouseWheelUnit, delta: P, modifiers: Modifiers },
    WindowFocused(bool),
}

/// The input gathered for the next frame.
#[derive(Clone, Debug)]
pub struct RawInput<P, F> {
    pub events: Vec<Event<P, F>>,
    pub modifiers: Modifiers,
    pub focused: bool,
    pub system_theme: Option<Theme>,
    pub max_texture_side: Option<usize>,
}

/// Answers whether an event was for the GUI.
#[derive(Clone, Copy, Debug, Default, PartialEq, Eq, Structural)]
pub struct EventResponse {
    /// The GUI used the event, so the application should not act on it too
    /// (a click on a GUI window, typing into a text field).
    pub consumed: bool,
    /// The GUI needs repainting because of the event.
    pub repaint: bool,
}

/// Something the GUI asked the application to do for it.
#[derive(Clone, Copy, Debug, PartialEq, Eq, Structural, Hash)]
pub enum ActionRequested {
    /// Take a screenshot, and hand back the given user data with it.
    Screenshot(u64),
    Cut,
    Copy,
    Paste,
}

/// What the caller has to do after a key event.
#[derive(Clone, Copy, Debug, PartialEq, Eq, Structural)]
pub enum KeyboardOutcome {
    Done,
    /// A paste shortcut was pressed: read the clipboard and hand its text to
    /// `State::on_paste`.
    PasteRequested,
}

/// What to do with the system cursor.
#[derive(Clone, Copy, Debug, PartialEq, Eq)]
pub enum CursorUpdate {
    /// Leave it as it is.
    Keep,
    /// Show it, in this shape.
    Show(WinitCursorIcon),
    /// Hide it.
    Hide,
}

/// The input state of one window.
pub struct State<P, F> {
    pub egui_input: RawInput<P, F>,
    pub pointer_pos_in_points: Option<P>,
    pub any_pointer_button_down: bool,
    pub current_cursor_icon: Option<CursorIcon>,
    /// Mouse input is also reported as touches (for trying out touch
    /// handling with a mouse).
    pub simulate_touch_screen: bool,
    /// The touch that currently drives the pointer, if any.
    pub pointer_touch_id: Option<u64>,
    /// An IME enabled event was sent and no disabled event since.
    pub has_sent_ime_enabled: bool,
    /// The last value handed to the window's IME switch.
    pub allow_ime: bool,
}

pub open spec fn touch_phase_spec(phase: WinitTouchPhase) -> TouchPhase {
    match phase {
        WinitTouchPhase::Started => TouchPhase::Start,
        WinitTouchPhase::Moved => TouchPhase::Move,
        WinitTouchPhase::Ended => TouchPhase::End,
        WinitTouchPhase::Cancelled => TouchPhase::Cancel,
    }
}

/// The GUI's name for the stage of a touch.
pub fn translate_touch_phase(phase: WinitTouchPhase) -> (r: TouchPhase)
    ensures
        r == touch_phase_spec(phase),
{
    match phase {
        WinitTouchPhase::Started => TouchPhase::Start,
        WinitTouchPhase::Moved => TouchPhase::Move,
        WinitTouchPhase::Ended => TouchPhase::End,
        WinitTouchPhase::Cancelled => TouchPhase::Cancel,
    }
}

/// The events that moving the pointer to `pos` adds.
pub open spec fn moved_events<P, F>(simulate: bool, any_down: bool, pos: P) -> Seq<Event<P, F>> {
    if simulate {
        if any_down {
            seq![
                Event::PointerMoved(pos),
                Event::Touch { device_id: 0, id: 0, phase: TouchPhase::Move, pos, force: None },
            ]
        } else {
            Seq::empty()
        }
    } else {
        seq![Event::PointerMoved(pos)]
    }
}

/// The events that a mouse button adds, given where the pointer is.
pub open spec fn button_events<P, F>(
    simulate: bool,
    pointer: Option<P>,
    modifiers: Modifiers,
    pressed: bool,
    button: MouseButton,
) -> Seq<Event<P, F>> {
    match (pointer, translate_mouse_button_spec(button)) {
        (Some(pos), Some(b)) => {
            let press = Event::PointerButton { pos, button: b, pressed, modifiers };
            if !simulate {
                seq![press]
            } else if pressed {
                seq![press, Event::Touch { device_id: 0, id: 0, phase: TouchPhase::Start, pos, force: None }]
            } else {
                seq![
                    press,
                    Event::PointerGone,
                    Event::Touch { device_id: 0, id: 0, phase: TouchPhase::End, pos, force: None },
                ]
            }
        },
        _ => Seq::empty(),
    }
}

/// Whether a mouse button, given where the pointer is, changes the record
/// of a held button (only when touches are simulated).
pub open spec fn button_down_after(
    simulate: bool,
    pointer_known: bool,
    any_down: bool,
    pressed: bool,
    button: MouseButton,
) -> bool {
    if simulate && pointer_known && translate_mouse_button_spec(button) is Some {
        pressed
    } else {
        any_down
    }
}

/// All characters of `s` are text to insert.
pub open spec fn all_printable(s: Seq<char>) -> bool {
    forall|i: int| 0 <= i < s.len() ==> !is_private_use(#[trigger] s[i]) && !is_ascii_control(s[i])
}

/// `s` with every carriage return that directly precedes a line feed
/// removed, scanning from the left.
pub open spec fn crlf_to_lf(s: Seq<char>) -> Seq<char>
    decreases s.len(),
{
    if s.len() < 2 {
        s
    } else if s[0] == '\r' && s[1] == '\n' {
        seq!['\n'] + crlf_to_lf(s.subrange(2, s.len() as int))
    } else {
        seq![s[0]] + crlf_to_lf(s.subrange(1, s.len() as int))
    }
}

/// Relies on str::replace: each "\r\n", found from left to right without
/// overlap, is replaced by "\n".
#[verifier::external_body]
fn replace_crlf(s: &str) -> (r: String)
    ensures
        r@ == crlf_to_lf(s@),
{
    s.replace("\r\n", "\n")
}

/// `f` holds what `o` holds, but for its events.
pub open spec fn input_same_but_events<P, F>(o: RawInput<P, F>, f: RawInput<P, F>) -> bool {
    &&& f.modifiers == o.modifiers
    &&& f.focused == o.focused
    &&& f.system_theme == o.system_theme
    &&& f.max_texture_side == o.max_texture_side
}

/// The pointer and touch fields of `f` are those of `o`.
pub open spec fn same_pointer<P, F>(o: State<P, F>, f: State<P, F>) -> bool {
    &&& f.pointer_pos_in_points == o.pointer_pos_in_points
    &&& f.any_pointer_button_down == o.any_pointer_button_down
    &&& f.simulate_touch_screen == o.simulate_touch_screen
    &&& f.pointer_touch_id == o.pointer_touch_id
}

/// The cursor icon and input-method fields of `f` are those of `o`.
pub open spec fn same_cursor_and_ime<P, F>(o: State<P, F>, f: State<P, F>) -> bool {
    &&& f.current_cursor_icon == o.current_cursor_icon
    &&& f.has_sent_ime_enabled == o.has_sent_ime_enabled
    &&& f.allow_ime == o.allow_ime
}

/// Only the events of `f` differ from those of `o`.
pub open spec fn only_events_changed<P, F>(o: State<P, F>, f: State<P, F>) -> bool {
    &&& input_same_but_events(o.egui_input, f.egui_input)
    &&& same_pointer(o, f)
    &&& same_cursor_and_ime(o, f)
}

impl<P: Copy, F: Copy> RawInput<P, F> {
    /// Input with nothing in it yet, for a window without focus.
    pub fn new() -> (r: RawInput<P, F>)
        ensures
            r.events@.len() == 0,
            r.modifiers == (Modifiers { alt: false, ctrl: false, shift: false, mac_cmd: false, command: false }),
            !r.focused,
            (r.system_theme is None),
            (r.max_texture_side is None),
    {
        RawInput {
            events: Vec::new(),
            modifiers: Modifiers { alt: false, ctrl: false, shift: false, mac_cmd: false, command: false },
            focused: false,
            system_theme: None,
            max_texture_side: None,
        }
    }

    /// Hands out the gathered input and starts over: the events and the
    /// texture size move out, the lasting state (modifiers, focus, theme)
    /// stays.
    pub fn take(&mut self) -> (r: RawInput<P, F>)
        ensures
            r.events@ == old(self).events@,
            r.modifiers == old(self).modifiers,
            r.focused == old(self).focused,
            r.system_theme == old(self).system_theme,
            r.max_texture_side == old(self).max_texture_side,
            final(self).events@.len() == 0,
            final(self).modifiers == old(self).modifiers,
            final(self).focused == old(self).focused,
            final(self).system_theme == old(self).system_theme,
            (final(self).max_texture_side is None),
    {
        let mut events = Vec::new();
        std::mem::swap(&mut events, &mut self.events);
        let max_texture_side = self.max_texture_side;
        self.max_texture_side = None;
        RawInput {
            events,
            modifiers: self.modifiers,
            focused: self.focused,
            system_theme: self.system_theme,
            max_texture_side,
        }
    }
}

impl<P: Copy, F: Copy> State<P, F> {
    /// The state of a new window: no focus yet, the system theme if known,
    /// and the largest texture side if known.
    pub fn new(theme: Option<WinitTheme>, max_texture_side: Option<usize>) -> (s: State<P, F>)
        ensures
            s.egui_input.events@.len() == 0,
            !s.egui_input.focused,
            s.egui_input.max_texture_side == max_texture_side,
            s.egui_input.system_theme == match theme {
                Some(WinitTheme::Dark) => Some(Theme::Dark),
                Some(WinitTheme::Light) => Some(Theme::Light),
                None => None::<Theme>,
            },
            (s.pointer_pos_in_points is None),
            !s.any_pointer_button_down,
            (s.current_cursor_icon is None),
            !s.simulate_touch_screen,
            (s.pointer_touch_id is None),
            !s.has_sent_ime_enabled,
            !s.allow_ime,
    {
        let mut egui_input = RawInput::new();
        egui_input.system_theme = match theme {
            Some(t) => Some(to_egui_theme(t)),
            None => None,
        };
        egui_input.max_texture_side = max_texture_side;
        State {
            egui_input,
            pointer_pos_in_points: None,
            any_pointer_button_down: false,
            current_cursor_icon: None,
            simulate_touch_screen: false,
            pointer_touch_id: None,
            has_sent_ime_enabled: false,
            allow_ime: false,
        }
    }

    /// Records the largest texture side the graphics context supports.
    pub fn set_max_texture_side(&mut self, max_texture_side: usize)
        ensures
            final(self).egui_input.max_texture_side == Some(max_texture_side),
            final(self).egui_input.events@ == old(self).egui_input.events@,
            final(self).egui_input.modifiers == old(self).egui_input.modifiers,
            final(self).egui_input.focused == old(self).egui_input.focused,
            final(self).egui_input.system_theme == old(self).egui_input.system_theme,
            same_pointer(*old(self), *final(self)),
            same_cursor_and_ime(*old(self), *final(self)),
    {
        self.egui_input.max_texture_side = Some(max_texture_side);
    }

    /// The last value the window's IME switch was set to.
    pub fn allow_ime(&self) -> (r: bool)
        ensures
            r == self.allow_ime,
    {
        self.allow_ime
    }

    /// Records the value the window's IME switch was set to.
    pub fn set_allow_ime(&mut self, allow: bool)
        ensures
            final(self).allow_ime == allow,
            final(self).egui_input.events@ == old(self).egui_input.events@,
            input_same_but_events(old(self).egui_input, final(self).egui_input),
            same_pointer(*old(self), *final(self)),
            final(self).current_cursor_icon == old(self).current_cursor_icon,
            final(self).has_sent_ime_enabled == old(self).has_sent_ime_enabled,
    {
        self.allow_ime = allow;
    }

    /// The input gathered so far.
    pub fn egui_input(&self) -> (r: &RawInput<P, F>)
        ensures
            r == &self.egui_input,
    {
        &self.egui_input
    }

    /// The input gathered so far, for changing.
    pub fn egui_input_mut(&mut self) -> (r: &mut RawInput<P, F>)
        ensures
            *r == old(self).egui_input,
            final(self).egui_input == *final(r),
            same_pointer(*old(self), *final(self)),
            same_cursor_and_ime(*old(self), *final(self)),
    {
        &mut self.egui_input
    }

    /// Hands out the input gathered for this frame and starts gathering anew.
    pub fn take_egui_input(&mut self) -> (r: RawInput<P, F>)
        ensures
            r.events@ == old(self).egui_input.events@,
            r.modifiers == old(self).egui_input.modifiers,
            r.focused == old(self).egui_input.focused,
            r.max_texture_side == old(self).egui_input.max_texture_side,
            final(self).egui_input.events@.len() == 0,
            final(self).egui_input.modifiers == old(self).egui_input.modifiers,
            final(self).egui_input.focused == old(self).egui_input.focused,
            final(self).egui_input.system_theme == old(self).egui_input.system_theme,
            same_pointer(*old(self), *final(self)),
            same_cursor_and_ime(*old(self), *final(self)),
            r.system_theme == old(self).egui_input.system_theme,
            (final(self).egui_input.max_texture_side is None),
    {
        self.egui_input.take()
    }

    /// Reports that the input method started composing, once until it stops.
    pub fn ime_event_enable(&mut self)
        ensures
            final(self).has_sent_ime_enabled,
            old(self).has_sent_ime_enabled ==> final(self).egui_input.events@
                == old(self).egui_input.events@,
            !old(self).has_sent_ime_enabled ==> final(self).egui_input.events@
                == old(self).egui_input.events@.push(Event::Ime(ImeEvent::Enabled)),
            input_same_but_events(old(self).egui_input, final(self).egui_input),
            same_pointer(*old(self), *final(self)),
            final(self).current_cursor_icon == old(self).current_cursor_icon,
            final(self).allow_ime == old(self).allow_ime,
    {
        if !self.has_sent_ime_enabled {
            self.egui_input.events.push(Event::Ime(ImeEvent::Enabled));
            self.has_sent_ime_enabled = true;
        }
    }

    /// Reports that the input method stopped composing.
    pub fn ime_event_disable(&mut self)
        ensures
            !final(self).has_sent_ime_enabled,
            final(self).egui_input.events@ == old(self).egui_input.events@.push(
                Event::Ime(ImeEvent::Disabled),
            ),
            input_same_but_events(old(self).egui_input, final(self).egui_input),
            same_pointer(*old(self), *final(self)),
            final(self).current_cursor_icon == old(self).current_cursor_icon,
            final(self).allow_ime == old(self).allow_ime,
    {
        self.egui_input.events.push(Event::Ime(ImeEvent::Disabled));
        self.has_sent_ime_enabled = false;
    }

    /// Raw mouse motion, not tied to the pointer position.
    pub fn on_mouse_motion(&mut self, delta: P)
        ensures
            final(self).egui_input.events@ == old(self).egui_input.events@.push(Event::MouseMoved(delta)),
            only_events_changed(*old(self), *final(self)),
    {
        self.egui_input.events.push(Event::MouseMoved(delta));
    }

    /// A mouse button was pressed or released where the pointer is. Nothing
    /// is reported while the pointer is outside the window, nor for buttons
    /// the GUI has no name for.
    pub fn on_mouse_button_input(&mut self, state: ElementState, button: MouseButton)
        ensures
            final(self).egui_input.events@ == old(self).egui_input.events@ + button_events(
                old(self).simulate_touch_screen,
                old(self).pointer_pos_in_points,
                old(self).egui_input.modifiers,
                state == ElementState::Pressed,
                button,
            ),
            final(self).any_pointer_button_down == button_down_after(
                old(self).simulate_touch_screen,
                old(self).pointer_pos_in_points is Some,
                old(self).any_pointer_button_down,
                state == ElementState::Pressed,
                button,
            ),
            input_same_but_events(old(self).egui_input, final(self).egui_input),
            final(self).pointer_pos_in_points == old(self).pointer_pos_in_points,
            final(self).simulate_touch_screen == old(self).simulate_touch_screen,
            final(self).pointer_touch_id == old(self).pointer_touch_id,
            same_cursor_and_ime(*old(self), *final(self)),
    {
        let ghost before = self.egui_input.events@;
        if let Some(pos) = self.pointer_pos_in_points {
            if let Some(button) = translate_mouse_button(button) {
                let pressed = match state {
                    ElementState::Pressed => true,
                    ElementState::Released => false,
                };
                self.egui_input.events.push(Event::PointerButton {
                    pos,
                    button,
                    pressed,
                    modifiers: self.egui_input.modifiers,
                });

                if self.simulate_touch_screen {
                    if pressed {
                        self.any_pointer_button_down = true;
                        self.egui_input.events.push(Event::Touch {
                            device_id: 0,
                            id: 0,
                            phase: TouchPhase::Start,
                            pos,
                            force: None,
                        });
                    } else {
                        self.any_pointer_button_down = false;
                        self.egui_input.events.push(Event::PointerGone);
                        self.egui_input.events.push(Event::Touch {
                            device_id: 0,
                            id: 0,
                            phase: TouchPhase::End,
                            pos,
                            force: None,
                        });
                    }
                }
            }
        }
        assert(self.egui_input.events@ =~= before + button_events(
            old(self).simulate_touch_screen,
            old(self).pointer_pos_in_points,
            old(self).egui_input.modifiers,
            state == ElementState::Pressed,
            button,
        ));
    }

    /// The pointer moved to `pos_in_points`.
    pub fn on_cursor_moved(&mut self, pos_in_points: P)
        ensures
            final(self).pointer_pos_in_points == Some(pos_in_points),
            final(self).egui_input.events@ == old(self).egui_input.events@ + moved_events(
                old(self).simulate_touch_screen,
                old(self).any_pointer_button_down,
                pos_in_points,
            ),
            input_same_but_events(old(self).egui_input, final(self).egui_input),
            final(self).any_pointer_button_down == old(self).any_pointer_button_down,
            final(self).simulate_touch_screen == old(self).simulate_touch_screen,
            final(self).pointer_touch_id == old(self).pointer_touch_id,
            same_cursor_and_ime(*old(self), *final(self)),
    {
        let ghost before = self.egui_input.events@;
        self.pointer_pos_in_points = Some(pos_in_points);
        if self.simulate_touch_screen {
            if self.any_pointer_button_down {
                self.egui_input.events.push(Event::PointerMoved(pos_in_points));
                self.egui_input.events.push(Event::Touch {
                    device_id: 0,
                    id: 0,
                    phase: TouchPhase::Move,
                    pos: pos_in_points,
                    force: None,
                });
            }
        } else {
            self.egui_input.events.push(Event::PointerMoved(pos_in_points));
        }
        assert(self.egui_input.events@ =~= before + moved_events(
            old(self).simulate_touch_screen,
            old(self).any_pointer_button_down,
            pos_in_points,
        ));
    }

    /// The pointer left the window.
    pub fn on_cursor_left(&mut self)
        ensures
            (final(self).pointer_pos_in_points is None),
            final(self).egui_input.events@ == old(self).egui_input.events@.push(Event::PointerGone),
            input_same_but_events(old(self).egui_input, final(self).egui_input),
            final(self).any_pointer_button_down == old(self).any_pointer_button_down,
            final(self).simulate_touch_screen == old(self).simulate_touch_screen,
            final(self).pointer_touch_id == old(self).pointer_touch_id,
            same_cursor_and_ime(*old(self), *final(self)),
    {
        self.pointer_pos_in_points = None;
        self.egui_input.events.push(Event::PointerGone);
    }
}

/// Whether touch `id` drives the pointer: no touch does yet, or this one does.
pub open spec fn touch_drives_pointer(pointer_touch_id: Option<u64>, id: u64) -> bool {
    pointer_touch_id is None || pointer_touch_id == Some(id)
}

impl<P: Copy, F: Copy> State<P, F> {
    /// A touch began, moved, ended or was cancelled at `pos`.
    ///
    /// The touch is always reported. One touch at a time also drives the
    /// pointer, as a mouse with its primary button would: it moves the
    /// pointer, presses on start, releases on end, and the pointer leaves
    /// when the touch ends or is cancelled.
    pub fn on_touch(&mut self, device_id: u64, id: u64, phase: WinitTouchPhase, pos: P, force: Option<F>)
        ensures
            ({
                let o = *old(self);
                let f = *final(self);
                let touch = Event::Touch { device_id, id, phase: touch_phase_spec(phase), pos, force };
                let sim = o.simulate_touch_screen;
                let mods = o.egui_input.modifiers;
                if !touch_drives_pointer(o.pointer_touch_id, id) {
                    &&& f.egui_input.events@ == o.egui_input.events@.push(touch)
                    &&& f.pointer_touch_id == o.pointer_touch_id
                    &&& f.pointer_pos_in_points == o.pointer_pos_in_points
                    &&& f.any_pointer_button_down == o.any_pointer_button_down
                } else {
                    match phase {
                        WinitTouchPhase::Started => {
                            &&& f.egui_input.events@ == o.egui_input.events@.push(touch)
                                + moved_events(sim, o.any_pointer_button_down, pos)
                                + button_events(sim, Some(pos), mods, true, MouseButton::Left)
                            &&& f.pointer_touch_id == Some(id)
                            &&& f.pointer_pos_in_points == Some(pos)
                            &&& f.any_pointer_button_down == (sim || o.any_pointer_button_down)
                        },
                        WinitTouchPhase::Moved => {
                            &&& f.egui_input.events@ == o.egui_input.events@.push(touch)
                                + moved_events(sim, o.any_pointer_button_down, pos)
                            &&& f.pointer_touch_id == o.pointer_touch_id
                            &&& f.pointer_pos_in_points == Some(pos)
                            &&& f.any_pointer_button_down == o.any_pointer_button_down
                        },
                        WinitTouchPhase::Ended => {
                            &&& f.egui_input.events@ == o.egui_input.events@.push(touch)
                                + button_events(sim, o.pointer_pos_in_points, mods, false, MouseButton::Left)
                                + seq![Event::PointerGone]
                            &&& (f.pointer_touch_id is None)
                            &&& (f.pointer_pos_in_points is None)
                            &&& f.any_pointer_button_down == button_down_after(
                                sim,
                                o.pointer_pos_in_points is Some,
                                o.any_pointer_button_down,
                                false,
                                MouseButton::Left,
                            )
                        },
                        WinitTouchPhase::Cancelled => {
                            &&& f.egui_input.events@ == o.egui_input.events@.push(touch)
                                .push(Event::PointerGone)
                            &&& (f.pointer_touch_id is None)
                            &&& (f.pointer_pos_in_points is None)
                            &&& f.any_pointer_button_down == o.any_pointer_button_down
                        },
                    }
                }
            }),
            input_same_but_events(old(self).egui_input, final(self).egui_input),
            final(self).simulate_touch_screen == old(self).simulate_touch_screen,
            same_cursor_and_ime(*old(self), *final(self)),
    {
        let ghost before = self.egui_input.events@;
        let touch_phase = translate_touch_phase(phase);
        self.egui_input.events.push(Event::Touch { device_id, id, phase: touch_phase, pos, force });
        let ghost pushed = self.egui_input.events@;
        let drives = match self.pointer_touch_id {
            None => true,
            Some(t) => t == id,
        };
        if drives {
            match phase {
                WinitTouchPhase::Started => {
                    self.pointer_touch_id = Some(id);
                    // First move the pointer to where the touch is.
                    self.on_cursor_moved(pos);
                    self.on_mouse_button_input(ElementState::Pressed, MouseButton::Left);
                    assert(self.egui_input.events@ =~= pushed
                        + moved_events(old(self).simulate_touch_screen, old(self).any_pointer_button_down, pos)
                        + button_events(old(self).simulate_touch_screen, Some(pos), old(self).egui_input.modifiers, true, MouseButton::Left));
                },
                WinitTouchPhase::Moved => {
                    self.on_cursor_moved(pos);
                },
                WinitTouchPhase::Ended => {
                    self.pointer_touch_id = None;
                    self.on_mouse_button_input(ElementState::Released, MouseButton::Left);
                    // The pointer leaves altogether, so that nothing stays hovered.
                    self.pointer_pos_in_points = None;
                    self.egui_input.events.push(Event::PointerGone);
                },
                WinitTouchPhase::Cancelled => {
                    self.pointer_touch_id = None;
                    self.pointer_pos_in_points = None;
                    self.egui_input.events.push(Event::PointerGone);
                },
            }
        }
        assert(before.push(Event::Touch { device_id, id, phase: touch_phase_spec(phase), pos, force }) == pushed);
    }

    /// The mouse wheel turned by `delta`, in `unit`s.
    pub fn on_mouse_wheel(&mut self, unit: MouseWheelUnit, delta: P)
        ensures
            final(self).egui_input.events@ == old(self).egui_input.events@.push(
                Event::MouseWheel { unit, delta, modifiers: old(self).egui_input.modifiers },
            ),
            only_events_changed(*old(self), *final(self)),
    {
        let modifiers = self.egui_input.modifiers;
        self.egui_input.events.push(Event::MouseWheel { unit, delta, modifiers });
    }

    /// A pinch gesture asked to zoom by `zoom_factor`.
    pub fn on_zoom(&mut self, zoom_factor: F)
        ensures
            final(self).egui_input.events@ == old(self).egui_input.events@.push(Event::Zoom(zoom_factor)),
            only_events_changed(*old(self), *final(self)),
    {
        self.egui_input.events.push(Event::Zoom(zoom_factor));
    }

    /// The window gained or lost the keyboard focus.
    pub fn on_focused(&mut self, focused: bool)
        ensures
            final(self).egui_input.focused == focused,
            final(self).egui_input.events@ == old(self).egui_input.events@.push(Event::WindowFocused(focused)),
            final(self).egui_input.modifiers == old(self).egui_input.modifiers,
            final(self).egui_input.system_theme == old(self).egui_input.system_theme,
            final(self).egui_input.max_texture_side == old(self).egui_input.max_texture_side,
            same_pointer(*old(self), *final(self)),
            same_cursor_and_ime(*old(self), *final(self)),
    {
        self.egui_input.focused = focused;
        self.egui_input.events.push(Event::WindowFocused(focused));
    }

    /// The system switched between light and dark.
    pub fn on_theme_changed(&mut self, theme: WinitTheme)
        ensures
            theme == WinitTheme::Dark ==> final(self).egui_input.system_theme == Some(Theme::Dark),
            theme == WinitTheme::Light ==> final(self).egui_input.system_theme == Some(Theme::Light),
            final(self).egui_input.events@ == old(self).egui_input.events@,
            final(self).egui_input.modifiers == old(self).egui_input.modifiers,
            final(self).egui_input.focused == old(self).egui_input.focused,
            final(self).egui_input.max_texture_side == old(self).egui_input.max_texture_side,
            same_pointer(*old(self), *final(self)),
            same_cursor_and_ime(*old(self), *final(self)),
    {
        self.egui_input.system_theme = Some(to_egui_theme(theme));
    }

    /// The modifier keys changed: these are the alt, control, shift and
    /// super keys now.
    pub fn on_modifiers_changed(&mut self, os: OperatingSystem, alt: bool, ctrl: bool, shift: bool, super_: bool)
        ensures
            final(self).egui_input.modifiers.alt == alt,
            final(self).egui_input.modifiers.ctrl == ctrl,
            final(self).egui_input.modifiers.shift == shift,
            final(self).egui_input.modifiers.mac_cmd == (os == OperatingSystem::Mac && super_),
            final(self).egui_input.modifiers.command == if os == OperatingSystem::Mac { super_ } else { ctrl },
            final(self).egui_input.events@ == old(self).egui_input.events@,
            final(self).egui_input.focused == old(self).egui_input.focused,
            final(self).egui_input.system_theme == old(self).egui_input.system_theme,
            final(self).egui_input.max_texture_side == old(self).egui_input.max_texture_side,
            same_pointer(*old(self), *final(self)),
            same_cursor_and_ime(*old(self), *final(self)),
    {
        self.egui_input.modifiers = modifiers_from_keys(os, alt, ctrl, shift, super_);
    }

    /// An event of the input method. On Linux its enabled event is left
    /// aside: X11 and Wayland mean different things by it, and composing
    /// starts with the first preedit anyway. A preedit with no cursor
    /// ends composing, as a commit does after its text.
    pub fn on_ime(&mut self, os: OperatingSystem, ime: &Ime)
        ensures
            ({
                let o = *old(self);
                let f = *final(self);
                let enabled_events = if o.has_sent_ime_enabled {
                    o.egui_input.events@
                } else {
                    o.egui_input.events@.push(Event::Ime(ImeEvent::Enabled))
                };
                match ime {
                    Ime::Enabled => if os == OperatingSystem::Nix {
                        f.egui_input.events@ == o.egui_input.events@
                            && f.has_sent_ime_enabled == o.has_sent_ime_enabled
                    } else {
                        f.egui_input.events@ == enabled_events && f.has_sent_ime_enabled
                    },
                    Ime::Preedit(text, Some(_)) => {
                        &&& f.has_sent_ime_enabled
                        &&& f.egui_input.events@.len() == enabled_events.len() + 1
                        &&& f.egui_input.events@.drop_last() == enabled_events
                        &&& (f.egui_input.events@.last() matches Event::Ime(ImeEvent::Preedit(t)) && t@ == text@)
                    },
                    Ime::Commit(text) => {
                        &&& !f.has_sent_ime_enabled
                        &&& f.egui_input.events@.len() == o.egui_input.events@.len() + 2
                        &&& f.egui_input.events@.subrange(0, o.egui_input.events@.len() as int) == o.egui_input.events@
                        &&& (f.egui_input.events@[o.egui_input.events@.len() as int] matches Event::Ime(ImeEvent::Commit(t)) && t@ == text@)
                        &&& f.egui_input.events@.last() == Event::<P, F>::Ime(ImeEvent::Disabled)
                    },
                    _ => {
                        &&& !f.has_sent_ime_enabled
                        &&& f.egui_input.events@ == o.egui_input.events@.push(Event::Ime(ImeEvent::Disabled))
                    },
                }
            }),
            input_same_but_events(old(self).egui_input, final(self).egui_input),
            same_pointer(*old(self), *final(self)),
            final(self).current_cursor_icon == old(self).current_cursor_icon,
            final(self).allow_ime == old(self).allow_ime,
    {
        match ime {
            Ime::Enabled => {
                if os != OperatingSystem::Nix {
                    self.ime_event_enable();
                }
            },
            Ime::Preedit(text, Some(_)) => {
                self.ime_event_enable();
                self.egui_input.events.push(Event::Ime(ImeEvent::Preedit(text.clone())));
            },
            Ime::Commit(text) => {
                let ghost n = self.egui_input.events@.len();
                let committed = text.clone();
                self.egui_input.events.push(Event::Ime(ImeEvent::Commit(committed)));
                self.ime_event_disable();
                assert(self.egui_input.events@[n as int] == Event::<P, F>::Ime(ImeEvent::Commit(committed)));
            },
            _ => {
                self.ime_event_disable();
            },
        }
    }
}

/// Whether `text`, which came with a key event, is typed: it is not empty,
/// all of it is printable, the key went down, and no shortcut modifier is
/// held (command shortcuts can come with the letter as text).
pub open spec fn typed_text(text: Option<Seq<char>>, pressed: bool, modifiers: Modifiers) -> bool {
    match text {
        Some(t) => t.len() > 0 && all_printable(t) && pressed && !(modifiers.ctrl || modifiers.command
            || modifiers.mac_cmd),
        None => false,
    }
}

/// The key a key event is about: the key of the layout if the GUI knows it,
/// else the one at the physical position (which keeps shortcuts working
/// on layouts without Latin letters).
pub open spec fn active_key(logical_key: Option<Key>, physical_key: Option<Key>) -> Option<Key> {
    match logical_key {
        Some(k) => Some(k),
        None => physical_key,
    }
}

/// Whether every character of `text` is printable.
fn all_chars_printable(text: &str) -> (r: bool)
    ensures
        r == all_printable(text@),
{
    let n = text.unicode_len();
    let mut i: usize = 0;
    while i < n
        invariant
            n == text@.len(),
            i <= n,
            all_printable(text@.subrange(0, i as int)),
        decreases n - i,
    {
        let c = text.get_char(i);
        if !is_printable_char(c) {
            assert(!all_printable(text@)) by {
                assert(text@[i as int] == c);
            }
            return false;
        }
        assert(all_printable(text@.subrange(0, i + 1))) by {
            assert forall|j: int| 0 <= j < i + 1 implies !is_private_use(#[trigger] text@.subrange(0, i + 1)[j])
                && !is_ascii_control(text@.subrange(0, i + 1)[j]) by {
                if j < i {
                    assert(text@.subrange(0, i + 1)[j] == text@.subrange(0, i as int)[j]);
                }
            }
        }
        i = i + 1;
    }
    assert(text@.subrange(0, n as int) =~= text@);
    true
}

impl<P: Copy, F: Copy> State<P, F> {
    /// A key went down or up.
    ///
    /// `logical_key` is the key as the keyboard layout names it,
    /// `physical_key` the position of the key, and `text` what the key types,
    /// if anything. Pressing a cut or copy shortcut reports just that; a paste
    /// shortcut reports nothing and asks the caller for the clipboard text.
    /// Otherwise the key is reported, followed by its text when it types any.
    pub fn on_keyboard_input(
        &mut self,
        os: OperatingSystem,
        state: ElementState,
        logical_key: Option<Key>,
        physical_key: Option<Key>,
        text: Option<&str>,
    ) -> (outcome: KeyboardOutcome)
        ensures
            ({
                let o = *old(self);
                let f = *final(self);
                let events = o.egui_input.events@;
                let mods = o.egui_input.modifiers;
                let pressed = state == ElementState::Pressed;
                let text_view = match text {
                    Some(t) => Some(t@),
                    None => None,
                };
                let with_key = match active_key(logical_key, physical_key) {
                    Some(k) => events.push(Event::Key { key: k, physical_key, pressed, repeat: false, modifiers: mods }),
                    None => events,
                };
                match active_key(logical_key, physical_key) {
                    Some(k) if pressed && is_cut_spec(os, mods, k) => {
                        &&& f.egui_input.events@ == events.push(Event::Cut)
                        &&& outcome == KeyboardOutcome::Done
                    },
                    Some(k) if pressed && is_copy_spec(os, mods, k) => {
                        &&& f.egui_input.events@ == events.push(Event::Copy)
                        &&& outcome == KeyboardOutcome::Done
                    },
                    Some(k) if pressed && is_paste_spec(os, mods, k) => {
                        &&& f.egui_input.events@ == events
                        &&& outcome == KeyboardOutcome::PasteRequested
                    },
                    _ => {
                        &&& outcome == KeyboardOutcome::Done
                        &&& !typed_text(text_view, pressed, mods) ==> f.egui_input.events@ == with_key
                        &&& typed_text(text_view, pressed, mods) ==> {
                            &&& f.egui_input.events@.len() == with_key.len() + 1
                            &&& f.egui_input.events@.drop_last() == with_key
                            &&& (f.egui_input.events@.last() matches Event::Text(t) && t@ == text_view->0)
                        }
                    },
                }
            }),
            only_events_changed(*old(self), *final(self)),
    {
        let pressed = match state {
            ElementState::Pressed => true,
            ElementState::Released => false,
        };
        let modifiers = self.egui_input.modifiers;
        let active = match logical_key {
            Some(k) => Some(k),
            None => physical_key,
        };
        if let Some(active_key) = active {
            if pressed {
                if is_cut_command(os, modifiers, active_key) {
                    self.egui_input.events.push(Event::Cut);
                    return KeyboardOutcome::Done;
                } else if is_copy_command(os, modifiers, active_key) {
                    self.egui_input.events.push(Event::Copy);
                    return KeyboardOutcome::Done;
                } else if is_paste_command(os, modifiers, active_key) {
                    return KeyboardOutcome::PasteRequested;
                }
            }
            self.egui_input.events.push(Event::Key {
                key: active_key,
                physical_key,
                pressed,
                repeat: false,  // the GUI works out repeats itself
                modifiers,
            });
        }
        if let Some(text) = text {
            // Only text, not control characters (macOS sends delete as U+F728).
            if !text.is_empty() && all_chars_printable(text) {
                // Shortcuts such as Cmd-C can come with their letter as text:
                // leave that out, and text of released keys too.
                let is_cmd = modifiers.ctrl || modifiers.command || modifiers.mac_cmd;
                if pressed && !is_cmd {
                    self.egui_input.events.push(Event::Text(text.to_owned()));
                }
            }
        }
        KeyboardOutcome::Done
    }

    /// Text from the clipboard for a paste, with Windows line ends turned
    /// into plain newlines; nothing is reported for empty text.
    pub fn on_paste(&mut self, contents: &str)
        ensures
            crlf_to_lf(contents@).len() == 0 ==> final(self).egui_input.events@ == old(self).egui_input.events@,
            crlf_to_lf(contents@).len() > 0 ==> {
                &&& final(self).egui_input.events@.len() == old(self).egui_input.events@.len() + 1
                &&& final(self).egui_input.events@.drop_last() == old(self).egui_input.events@
                &&& (final(self).egui_input.events@.last() matches Event::Paste(t) && t@ == crlf_to_lf(contents@))
            },
            only_events_changed(*old(self), *final(self)),
    {
        let contents = replace_crlf(contents);
        if !contents.as_str().is_empty() {
            self.egui_input.events.push(Event::Paste(contents));
        }
    }

    /// Which system cursor to show for `cursor_icon`.
    ///
    /// An icon already shown is left alone (setting it again flickers on
    /// Windows). While the pointer is outside the window nothing is set, and
    /// the icon is forgotten so that it is set once the pointer returns.
    pub fn set_cursor_icon(&mut self, cursor_icon: CursorIcon) -> (r: CursorUpdate)
        ensures
            old(self).current_cursor_icon == Some(cursor_icon) ==> r == CursorUpdate::Keep
                && final(self).current_cursor_icon == old(self).current_cursor_icon,
            old(self).current_cursor_icon != Some(cursor_icon) && (old(self).pointer_pos_in_points is Some) ==> {
                &&& final(self).current_cursor_icon == Some(cursor_icon)
                &&& r == match cursor_spec(cursor_icon) {
                    Some(c) => CursorUpdate::Show(c),
                    None => CursorUpdate::Hide,
                }
            },
            old(self).current_cursor_icon != Some(cursor_icon) && (old(self).pointer_pos_in_points is None) ==> {
                &&& (final(self).current_cursor_icon is None)
                &&& r == CursorUpdate::Keep
            },
            final(self).egui_input.events@ == old(self).egui_input.events@,
            input_same_but_events(old(self).egui_input, final(self).egui_input),
            same_pointer(*old(self), *final(self)),
            final(self).has_sent_ime_enabled == old(self).has_sent_ime_enabled,
            final(self).allow_ime == old(self).allow_ime,
    {
        let same = match self.current_cursor_icon {
            Some(c) => c == cursor_icon,
            None => false,
        };
        if same {
            return CursorUpdate::Keep;
        }
        if self.pointer_pos_in_points.is_some() {
            self.current_cursor_icon = Some(cursor_icon);
            match translate_cursor(cursor_icon) {
                Some(c) => CursorUpdate::Show(c),
                None => CursorUpdate::Hide,
            }
        } else {
            self.current_cursor_icon = None;
            CursorUpdate::Keep
        }
    }

    /// Records whether the GUI wants the input method on, and says whether
    /// that differs from what the window was last told.
    pub fn update_allow_ime(&mut self, allow_ime: bool) -> (changed: bool)
        ensures
            changed == (old(self).allow_ime != allow_ime),
            final(self).allow_ime == allow_ime,
            final(self).egui_input.events@ == old(self).egui_input.events@,
            input_same_but_events(old(self).egui_input, final(self).egui_input),
            same_pointer(*old(self), *final(self)),
            final(self).current_cursor_icon == old(self).current_cursor_icon,
            final(self).has_sent_ime_enabled == old(self).has_sent_ime_enabled,
    {
        if self.allow_ime != allow_ime {
            self.allow_ime = allow_ime;
            true
        } else {
            false
        }
    }
}

/// A window event, as far as the answer to it depends on it.
#[derive(Clone, Copy, Debug, PartialEq, Eq)]
pub enum WindowEventKind {
    /// Changes what is drawn but is no input the GUI could take: a new
    /// scale, focus, theme, files, modifiers, the pointer entering or
    /// leaving, a redraw, resize, move, close request, occlusion, touchpad
    /// pressure or the window's end.
    Repaint,
    /// Something the GUI does not look at.
    Ignored,
    /// A mouse button, a wheel turn or a pinch.
    PointerPress,
    /// The pointer moved.
    PointerMove,
    Touch(WinitTouchPhase),
    Ime,
    /// A key event; `synthetic` ones the system makes up when the focus
    /// changes, and `tab` says it is the Tab key.
    Key { synthetic: bool, state: ElementState, tab: bool },
}

pub open spec fn is_key_input_spec(synthetic: bool, state: ElementState) -> bool {
    !(synthetic && state == ElementState::Pressed)
}

/// Whether a key event is input for the GUI: key presses that the system
/// makes up when the focus changes are not.
pub fn is_key_input(synthetic: bool, state: ElementState) -> (r: bool)
    ensures
        r == is_key_input_spec(synthetic, state),
{
    let pressed = match state {
        ElementState::Pressed => true,
        ElementState::Released => false,
    };
    !(synthetic && pressed)
}

pub open spec fn event_response_spec(
    kind: WindowEventKind,
    wants_pointer_input: bool,
    wants_keyboard_input: bool,
    is_using_pointer: bool,
) -> EventResponse {
    match kind {
        WindowEventKind::Repaint => EventResponse { consumed: false, repaint: true },
        WindowEventKind::Ignored => EventResponse { consumed: false, repaint: false },
        WindowEventKind::PointerPress => EventResponse { consumed: wants_pointer_input, repaint: true },
        WindowEventKind::PointerMove => EventResponse { consumed: is_using_pointer, repaint: true },
        WindowEventKind::Touch(phase) => EventResponse {
            consumed: if phase == WinitTouchPhase::Moved { is_using_pointer } else { wants_pointer_input },
            repaint: true,
        },
        WindowEventKind::Ime => EventResponse { consumed: wants_keyboard_input, repaint: true },
        WindowEventKind::Key { synthetic, state, tab } => EventResponse {
            consumed: is_key_input_spec(synthetic, state) && (wants_keyboard_input || tab),
            repaint: true,
        },
    }
}

/// The answer to a window event, given what the GUI wants after it saw the
/// event. Everything but ignored events asks for a repaint. Pointer presses
/// and touches that start or end are the GUI's when it wants pointer input,
/// moves when it is using the pointer, and text-method and key events when
/// it wants keyboard input. Tab is always the GUI's (it moves the focus);
/// made-up key presses never are.
pub fn event_response(
    kind: WindowEventKind,
    wants_pointer_input: bool,
    wants_keyboard_input: bool,
    is_using_pointer: bool,
) -> (r: EventResponse)
    ensures
        r == event_response_spec(kind, wants_pointer_input, wants_keyboard_input, is_using_pointer),
{
    match kind {
        WindowEventKind::Repaint => EventResponse { consumed: false, repaint: true },
        WindowEventKind::Ignored => EventResponse { consumed: false, repaint: false },
        WindowEventKind::PointerPress => EventResponse { consumed: wants_pointer_input, repaint: true },
        WindowEventKind::PointerMove => EventResponse { consumed: is_using_pointer, repaint: true },
        WindowEventKind::Touch(phase) => {
            let consumed = match phase {
                WinitTouchPhase::Started | WinitTouchPhase::Ended | WinitTouchPhase::Cancelled => {
                    wants_pointer_input
                },
                WinitTouchPhase::Moved => is_using_pointer,
            };
            EventResponse { consumed, repaint: true }
        },
        WindowEventKind::Ime => EventResponse { consumed: wants_keyboard_input, repaint: true },
        WindowEventKind::Key { synthetic, state, tab } => {
            if is_key_input(synthetic, state) {
                EventResponse { consumed: wants_keyboard_input || tab, repaint: true }
            } else {
                EventResponse { consumed: false, repaint: true }
            }
        },
    }
}

} // verus!
