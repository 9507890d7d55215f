//! The drawing primitives a cell is made of.

use vstd::prelude::*;
use crate::layout::{half_toward_zero, halve_toward_zero, Coord};
use crate::policy::Color;

verus! {

/// Width of every stroke, in pixels.
pub const STROKE_WIDTH: u32 = 1;

/// A primitive for the drawing surface. Strokes are [`STROKE_WIDTH`] wide; a
/// `None` fill leaves the inside undrawn.
#[derive(Clone, Copy, Debug, PartialEq, Eq, Structural)]
pub enum Shape {
    Triangle { a: Coord, b: Coord, c: Coord, color: Color },
    Line { from: Coord, to: Coord, stroke: Color },
    Circle { center: Coord, diameter: u32, fill: Option<Color>, stroke: Color },
    Square { top_left: Coord, side: u32, fill: Option<Color>, stroke: Color },
}

/// A diamond cell: its centre, the distance between opposite corners, and its fill.
#[derive(Clone, Copy, Debug, PartialEq, Eq, Structural)]
pub struct Diamond {
    pub center: Coord,
    pub size: i32,
    pub fill: Color,
}

/// Every corner of the diamond lies in the range of a coordinate.
pub open spec fn diamond_fits(center: Coord, size: i32) -> bool {
    let h = half_toward_zero(size as int);
    &&& i64::MIN <= center.x - h <= i64::MAX
    &&& i64::MIN <= center.x + h <= i64::MAX
    &&& i64::MIN <= center.y - h <= i64::MAX
    &&& i64::MIN <= center.y + h <= i64::MAX
}

/// The corners of a diamond, top, right, bottom and left, half its size away
/// from the centre.
pub open spec fn diamond_corners(center: Coord, size: i32) -> (Coord, Coord, Coord, Coord) {
    let h = half_toward_zero(size as int);
    (
        Coord { x: center.x, y: (center.y - h) as i64 },
        Coord { x: (center.x + h) as i64, y: center.y },
        Coord { x: center.x, y: (center.y + h) as i64 },
        Coord { x: (center.x - h) as i64, y: center.y },
    )
}

/// A filled diamond with a black border: two triangles (top, right, bottom and
/// bottom, left, top) in the fill colour, then its four edges, clockwise from
/// the top.
pub open spec fn diamond_shapes(center: Coord, size: i32, fill: Color) -> Seq<Shape> {
    let (top, right, bottom, left) = diamond_corners(center, size);
    seq![
        Shape::Triangle { a: top, b: right, c: bottom, color: fill },
        Shape::Triangle { a: bottom, b: left, c: top, color: fill },
        Shape::Line { from: top, to: right, stroke: Color::Black },
        Shape::Line { from: right, to: bottom, stroke: Color::Black },
        Shape::Line { from: bottom, to: left, stroke: Color::Black },
        Shape::Line { from: left, to: top, stroke: Color::Black },
    ]
}

/// The primitives of a filled diamond with a border, in drawing order.
pub fn diamond_parts(center: Coord, size: i32, fill: Color) -> (parts: Vec<Shape>)
    requires
        diamond_fits(center, size),
    ensures
        parts@ == diamond_shapes(center, size, fill),
{
    let h = halve_toward_zero(size as i64);
    let top = Coord { x: center.x, y: center.y - h };
    let right = Coord { x: center.x + h, y: center.y };
    let bottom = Coord { x: center.x, y: center.y + h };
    let left = Coord { x: center.x - h, y: center.y };
    let parts = vec![
        Shape::Triangle { a: top, b: right, c: bottom, color: fill },
        Shape::Triangle { a: bottom, b: left, c: top, color: fill },
        Shape::Line { from: top, to: right, stroke: Color::Black },
        Shape::Line { from: right, to: bottom, stroke: Color::Black },
        Shape::Line { from: bottom, to: left, stroke: Color::Black },
        Shape::Line { from: left, to: top, stroke: Color::Black },
    ];
    assert(parts@ =~= diamond_shapes(center, size, fill));
    parts
}

} // verus!
