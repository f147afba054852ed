//! Painting the text cursor, steady or blinking.

use vstd::prelude::*;
use crate::geometry::{Pos2, Rect, Stroke};
use crate::style::{TextCursorStyle, Visuals};

verus! {

/// Something drawn by a painter.
#[derive(Clone, Copy, Debug, PartialEq)]
pub enum Shape {
    /// A straight line between two points.
    LineSegment { points: [Pos2; 2], stroke: Stroke },
}

/// Collects the shapes of one layer, in drawing order.
#[derive(Clone, Debug)]
pub struct Painter {
    pub shapes: Vec<Shape>,
}

impl Painter {
    pub fn new() -> (p: Painter)
        ensures
            p.shapes@ == Seq::<Shape>::empty(),
    {
        Painter { shapes: Vec::new() }
    }

    /// Draws a line from `points[0]` to `points[1]`.
    pub fn line_segment(&mut self, points: [Pos2; 2], stroke: Stroke)
        ensures
            final(self).shapes@ == old(self).shapes@.push(Shape::LineSegment { points, stroke }),
    {
        self.shapes.push(Shape::LineSegment { points, stroke });
    }
}

/// The vertical line through the middle of `rect`, drawn with `stroke`.
pub open spec fn cursor_line(rect: Rect, stroke: Stroke) -> Shape {
    Shape::LineSegment {
        points: [
            Pos2 { x: ((rect.min.x + rect.max.x) / 2) as i32, y: rect.min.y },
            Pos2 { x: ((rect.min.x + rect.max.x) / 2) as i32, y: rect.max.y },
        ],
        stroke,
    }
}

/// Whether a blinking cursor is shown `t` milliseconds after the last
/// interaction: in each cycle it is on first, then off.
pub open spec fn blink_on(style: TextCursorStyle, t: int) -> bool {
    t % (style.on_duration + style.off_duration) < style.on_duration
}

/// Milliseconds from `t` until a blinking cursor next turns on or off.
pub open spec fn blink_wake_in(style: TextCursorStyle, t: int) -> int {
    let total = style.on_duration + style.off_duration;
    let phase = t % total;
    if phase < style.on_duration {
        style.on_duration - phase
    } else {
        total - phase
    }
}

/// Paints one end of the selection, such as the primary cursor: a vertical
/// line through the middle of `cursor_rect`. It never blinks.
pub fn paint_cursor_end(painter: &mut Painter, visuals: &Visuals, cursor_rect: Rect)
    ensures
        final(painter).shapes@ == old(painter).shapes@.push(
            cursor_line(cursor_rect, visuals.text_cursor.stroke),
        ),
{
    let stroke = visuals.text_cursor.stroke;
    let top = cursor_rect.center_top();
    let bottom = cursor_rect.center_bottom();
    painter.line_segment([top, bottom], stroke);
    assert([top, bottom] =~= [
        Pos2 { x: ((cursor_rect.min.x + cursor_rect.max.x) / 2) as i32, y: cursor_rect.min.y },
        Pos2 { x: ((cursor_rect.min.x + cursor_rect.max.x) / 2) as i32, y: cursor_rect.max.y },
    ]);
}

/// Paints one end of the selection, such as the primary cursor, blinking
/// when the style says so.
///
/// `time_since_last_interaction` is in milliseconds. The result is the
/// repaint the caller should schedule: after how many milliseconds the
/// cursor next turns on or off, or `None` when it does not blink.
pub fn paint_text_cursor(
    visuals: &Visuals,
    painter: &mut Painter,
    primary_cursor_rect: Rect,
    time_since_last_interaction: u64,
) -> (wake_in: Option<u64>)
    requires
        visuals.text_cursor.blink ==> visuals.text_cursor.on_duration
            + visuals.text_cursor.off_duration > 0,
    ensures
        ({
            let style = visuals.text_cursor;
            let t = time_since_last_interaction as int;
            let line = cursor_line(primary_cursor_rect, style.stroke);
            if !style.blink {
                &&& final(painter).shapes@ == old(painter).shapes@.push(line)
                &&& wake_in == None::<u64>
            } else {
                &&& blink_on(style, t) ==> final(painter).shapes@ == old(painter).shapes@.push(line)
                &&& !blink_on(style, t) ==> final(painter).shapes@ == old(painter).shapes@
                &&& wake_in == Some(blink_wake_in(style, t) as u64)
            }
        }),
{
    if visuals.text_cursor.blink {
        let on_duration = visuals.text_cursor.on_duration as u64;
        let off_duration = visuals.text_cursor.off_duration as u64;
        let total_duration = on_duration + off_duration;

        let time_in_cycle = time_since_last_interaction % total_duration;

        let wake_in = if time_in_cycle < on_duration {
            // The cursor is visible.
            paint_cursor_end(painter, visuals, primary_cursor_rect);
            on_duration - time_in_cycle
        } else {
            // The cursor is hidden.
            total_duration - time_in_cycle
        };
        Some(wake_in)
    } else {
        paint_cursor_end(painter, visuals, primary_cursor_rect);
        None
    }
}

/// The blinking repeats: `t` and `t` plus one whole on-off cycle give the
/// same visibility and the same wake-up delay.
pub proof fn lemma_blink_periodic(style: TextCursorStyle, t: int)
    requires
        t >= 0,
        style.on_duration + style.off_duration > 0,
    ensures
        blink_on(style, t + style.on_duration + style.off_duration) == blink_on(style, t),
        blink_wake_in(style, t + style.on_duration + style.off_duration) == blink_wake_in(style, t),
{
    let total = style.on_duration + style.off_duration;
    assert((t + total) % total == t % total) by (nonlinear_arith)
        requires total > 0, t >= 0;
}

/// A blinking cursor is always due to change within one on or off period,
/// and never at once.
pub proof fn lemma_blink_wake_in_range(style: TextCursorStyle, t: int)
    requires
        t >= 0,
        style.on_duration + style.off_duration > 0,
    ensures
        0 < blink_wake_in(style, t),
        blink_on(style, t) ==> blink_wake_in(style, t) <= style.on_duration,
        !blink_on(style, t) ==> blink_wake_in(style, t) <= style.off_duration,
{
    let total = style.on_duration + style.off_duration;
    assert(0 <= t % total < total) by (nonlinear_arith)
        requires total > 0;
}

} // verus!
