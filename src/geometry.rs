//! Points, rectangles, colors and strokes on an integer grid.
//!
//! Coordinates are whole units. They stay within `MAX_COORD` in magnitude,
//! the range in which a single-precision float holds every integer exactly.

use vstd::prelude::*;

verus! {

/// Largest coordinate magnitude that well-formed geometry uses.
pub const MAX_COORD: i32 = 16777216;

/// A position on screen.
#[derive(Clone, Copy, Debug, PartialEq, Eq, Structural)]
pub struct Pos2 {
    pub x: i32,
    pub y: i32,
}

/// A size or a displacement.
#[derive(Clone, Copy, Debug, PartialEq, Eq, Structural)]
pub struct Vec2 {
    pub x: i32,
    pub y: i32,
}

/// An axis-aligned rectangle, from `min` (top left) to `max` (bottom right).
#[derive(Clone, Copy, Debug, PartialEq, Eq, Structural)]
pub struct Rect {
    pub min: Pos2,
    pub max: Pos2,
}

/// A color as premultiplied red, green, blue and alpha.
#[derive(Clone, Copy, Debug, PartialEq, Eq, Structural)]
pub struct Color32 {
    pub r: u8,
    pub g: u8,
    pub b: u8,
    pub a: u8,
}

/// Width and color of a line.
#[derive(Clone, Copy, Debug, PartialEq, Eq, Structural)]
pub struct Stroke {
    pub width: i32,
    pub color: Color32,
}

pub fn pos2(x: i32, y: i32) -> (r: Pos2)
    ensures
        r == (Pos2 { x, y }),
{
    Pos2 { x, y }
}

pub fn vec2(x: i32, y: i32) -> (r: Vec2)
    ensures
        r == (Vec2 { x, y }),
{
    Vec2 { x, y }
}

/// The empty rectangle, which contains nothing and is the unit of `extend`.
pub open spec fn nothing_spec() -> Rect {
    Rect { min: Pos2 { x: i32::MAX, y: i32::MAX }, max: Pos2 { x: i32::MIN, y: i32::MIN } }
}

/// The smallest rectangle holding both `r` and `p`.
pub open spec fn extend_spec(r: Rect, p: Pos2) -> Rect {
    Rect {
        min: Pos2 {
            x: if p.x < r.min.x { p.x } else { r.min.x },
            y: if p.y < r.min.y { p.y } else { r.min.y },
        },
        max: Pos2 {
            x: if p.x > r.max.x { p.x } else { r.max.x },
            y: if p.y > r.max.y { p.y } else { r.max.y },
        },
    }
}

/// The midpoint of `a` and `b`, rounded down.
pub fn mid(a: i32, b: i32) -> (m: i32)
    ensures
        m == (a + b) / 2,
{
    let s: i64 = a as i64 + b as i64;
    if s >= 0 {
        (s / 2) as i32
    } else {
        (-((1 - s) / 2)) as i32
    }
}

impl Color32 {
    pub fn from_rgba_premultiplied(r: u8, g: u8, b: u8, a: u8) -> (c: Color32)
        ensures
            c == (Color32 { r, g, b, a }),
    {
        Color32 { r, g, b, a }
    }
}

impl Rect {
    pub fn nothing() -> (r: Rect)
        ensures
            r == nothing_spec(),
    {
        Rect { min: Pos2 { x: i32::MAX, y: i32::MAX }, max: Pos2 { x: i32::MIN, y: i32::MIN } }
    }

    pub fn from_min_max(min: Pos2, max: Pos2) -> (r: Rect)
        ensures
            r == (Rect { min, max }),
    {
        Rect { min, max }
    }

    pub fn left_top(&self) -> (p: Pos2)
        ensures
            p == self.min,
    {
        self.min
    }

    pub fn right_top(&self) -> (p: Pos2)
        ensures
            p == (Pos2 { x: self.max.x, y: self.min.y }),
    {
        Pos2 { x: self.max.x, y: self.min.y }
    }

    pub fn left_bottom(&self) -> (p: Pos2)
        ensures
            p == (Pos2 { x: self.min.x, y: self.max.y }),
    {
        Pos2 { x: self.min.x, y: self.max.y }
    }

    pub fn right_bottom(&self) -> (p: Pos2)
        ensures
            p == self.max,
    {
        self.max
    }

    /// The middle of the top edge, rounded towards the left.
    pub fn center_top(&self) -> (p: Pos2)
        ensures
            p.x == (self.min.x + self.max.x) / 2,
            p.y == self.min.y,
    {
        Pos2 { x: mid(self.min.x, self.max.x), y: self.min.y }
    }

    /// The middle of the bottom edge, rounded towards the left.
    pub fn center_bottom(&self) -> (p: Pos2)
        ensures
            p.x == (self.min.x + self.max.x) / 2,
            p.y == self.max.y,
    {
        Pos2 { x: mid(self.min.x, self.max.x), y: self.max.y }
    }

    /// Grows the rectangle to hold `p`.
    pub fn extend_with(&mut self, p: Pos2)
        ensures
            *final(self) == extend_spec(*old(self), p),
    {
        if p.x < self.min.x {
            self.min.x = p.x;
        }
        if p.y < self.min.y {
            self.min.y = p.y;
        }
        if p.x > self.max.x {
            self.max.x = p.x;
        }
        if p.y > self.max.y {
            self.max.y = p.y;
        }
    }
}

} // verus!
