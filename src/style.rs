//! Colors and timings that painting reads from the visual style.

use vstd::prelude::*;
use crate::geometry::{Color32, Stroke};

verus! {

/// How selected text is highlighted.
#[derive(Clone, Copy, Debug, PartialEq, Eq, Structural)]
pub struct Selection {
    pub bg_fill: Color32,
    pub stroke: Stroke,
}

/// How the text cursor is drawn and how it blinks. Durations are in
/// milliseconds.
#[derive(Clone, Copy, Debug, PartialEq, Eq, Structural)]
pub struct TextCursorStyle {
    pub stroke: Stroke,
    pub preview: bool,
    pub blink: bool,
    pub on_duration: u32,
    pub off_duration: u32,
}

/// The part of the visual style that text painting uses.
#[derive(Clone, Copy, Debug, PartialEq, Eq, Structural)]
pub struct Visuals {
    pub selection: Selection,
    pub text_cursor: TextCursorStyle,
}

} // verus!
