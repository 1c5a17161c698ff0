//! Points, vectors, sizes and rectangles with fixed-point coordinates, and
//! the pointer position as the windowing layer reports it.

use vstd::prelude::*;
use crate::fixed::{half, minus, plus, saturate};

verus! {

/// A position in the plane.
#[derive(Clone, Copy, Debug, PartialEq, Eq, Structural)]
pub struct Point {
    pub x: i64,
    pub y: i64,
}

/// A displacement in the plane.
#[derive(Clone, Copy, Debug, PartialEq, Eq, Structural)]
pub struct Vector {
    pub x: i64,
    pub y: i64,
}

/// A width and a height.
#[derive(Clone, Copy, Debug, PartialEq, Eq, Structural)]
pub struct Size {
    pub width: i64,
    pub height: i64,
}

/// An axis-aligned rectangle, given by its top-left corner and its extent.
#[derive(Clone, Copy, Debug, PartialEq, Eq, Structural)]
pub struct Rectangle {
    pub x: i64,
    pub y: i64,
    pub width: i64,
    pub height: i64,
}

impl Point {
    pub fn new(x: i64, y: i64) -> (p: Point)
        ensures
            p == (Point { x, y }),
    {
        Point { x, y }
    }

    /// The point with both coordinates zero.
    pub fn origin() -> (p: Point)
        ensures
            p == (Point { x: 0, y: 0 }),
    {
        Point { x: 0, y: 0 }
    }

    /// This point moved back by `v`, each coordinate clamped to the `i64` range.
    pub open spec fn spec_minus(self, v: Vector) -> Point {
        Point { x: saturate(self.x - v.x) as i64, y: saturate(self.y - v.y) as i64 }
    }

    /// This point moved forward by `v`, each coordinate clamped to the `i64` range.
    pub open spec fn spec_plus(self, v: Vector) -> Point {
        Point { x: saturate(self.x + v.x) as i64, y: saturate(self.y + v.y) as i64 }
    }

    pub fn minus(self, v: Vector) -> (p: Point)
        ensures
            p == self.spec_minus(v),
    {
        Point { x: minus(self.x, v.x), y: minus(self.y, v.y) }
    }

    pub fn plus(self, v: Vector) -> (p: Point)
        ensures
            p == self.spec_plus(v),
    {
        Point { x: plus(self.x, v.x), y: plus(self.y, v.y) }
    }
}

impl Vector {
    pub fn new(x: i64, y: i64) -> (v: Vector)
        ensures
            v == (Vector { x, y }),
    {
        Vector { x, y }
    }

    /// The displacement that moves nothing.
    pub fn zero() -> (v: Vector)
        ensures
            v == (Vector { x: 0, y: 0 }),
    {
        Vector { x: 0, y: 0 }
    }
}

impl Size {
    pub fn new(width: i64, height: i64) -> (s: Size)
        ensures
            s == (Size { width, height }),
    {
        Size { width, height }
    }

    /// Both extents are greater than zero.
    pub open spec fn is_positive(self) -> bool {
        self.width > 0 && self.height > 0
    }
}

impl Rectangle {
    pub fn new(position: Point, size: Size) -> (r: Rectangle)
        ensures
            r == (Rectangle {
                x: position.x,
                y: position.y,
                width: size.width,
                height: size.height,
            }),
    {
        Rectangle { x: position.x, y: position.y, width: size.width, height: size.height }
    }

    /// The top-left corner.
    pub fn position(&self) -> (p: Point)
        ensures
            p == (Point { x: self.x, y: self.y }),
    {
        Point { x: self.x, y: self.y }
    }

    pub fn size(&self) -> (s: Size)
        ensures
            s == (Size { width: self.width, height: self.height }),
    {
        Size { width: self.width, height: self.height }
    }

    /// The middle of the rectangle: the corner moved by half the extent.
    pub open spec fn spec_center(&self) -> Point {
        Point {
            x: saturate(self.x + self.width / 2) as i64,
            y: saturate(self.y + self.height / 2) as i64,
        }
    }

    pub fn center(&self) -> (p: Point)
        ensures
            p == self.spec_center(),
    {
        Point { x: plus(self.x, half(self.width)), y: plus(self.y, half(self.height)) }
    }

    /// Whether the point lies inside: the left and top edges belong to the
    /// rectangle, the right and bottom edges do not.
    pub open spec fn spec_contains(&self, point: Point) -> bool {
        &&& self.x <= point.x < self.x + self.width
        &&& self.y <= point.y < self.y + self.height
    }

    pub fn contains(&self, point: Point) -> (inside: bool)
        ensures
            inside == self.spec_contains(point),
    {
        self.x <= point.x && (point.x as i128) < self.x as i128 + self.width as i128
            && self.y <= point.y && (point.y as i128) < self.y as i128 + self.height as i128
    }
}

/// Where the pointer is, in window coordinates, if the windowing layer knows.
#[derive(Clone, Copy, Debug, PartialEq, Eq, Structural)]
pub enum Cursor {
    Available(Point),
    Unavailable,
}

impl Cursor {
    /// The absolute position, if there is one.
    pub open spec fn spec_position(self) -> Option<Point> {
        match self {
            Cursor::Available(position) => Some(position),
            Cursor::Unavailable => None,
        }
    }

    /// The absolute position, if it lies inside `bounds`.
    pub open spec fn spec_position_over(self, bounds: Rectangle) -> Option<Point> {
        match self {
            Cursor::Available(position) if bounds.spec_contains(position) => Some(position),
            _ => None,
        }
    }

    /// The position relative to the top-left corner of `bounds`, if the
    /// pointer is inside them.
    pub open spec fn spec_position_in(self, bounds: Rectangle) -> Option<Point> {
        match self.spec_position_over(bounds) {
            Some(position) => Some(position.spec_minus(Vector { x: bounds.x, y: bounds.y })),
            None => None,
        }
    }

    /// The position relative to `origin`, wherever the pointer is.
    pub open spec fn spec_position_from(self, origin: Point) -> Option<Point> {
        match self {
            Cursor::Available(position) => Some(
                position.spec_minus(Vector { x: origin.x, y: origin.y }),
            ),
            Cursor::Unavailable => None,
        }
    }

    pub fn position(self) -> (p: Option<Point>)
        ensures
            p == self.spec_position(),
    {
        match self {
            Cursor::Available(position) => Some(position),
            Cursor::Unavailable => None,
        }
    }

    pub fn position_over(self, bounds: Rectangle) -> (p: Option<Point>)
        ensures
            p == self.spec_position_over(bounds),
    {
        match self {
            Cursor::Available(position) => {
                if bounds.contains(position) {
                    Some(position)
                } else {
                    None
                }
            },
            Cursor::Unavailable => None,
        }
    }

    pub fn position_in(self, bounds: Rectangle) -> (p: Option<Point>)
        ensures
            p == self.spec_position_in(bounds),
    {
        match self.position_over(bounds) {
            Some(position) => Some(position.minus(Vector { x: bounds.x, y: bounds.y })),
            None => None,
        }
    }

    pub fn position_from(self, origin: Point) -> (p: Option<Point>)
        ensures
            p == self.spec_position_from(origin),
    {
        match self {
            Cursor::Available(position) => Some(
                position.minus(Vector { x: origin.x, y: origin.y }),
            ),
            Cursor::Unavailable => None,
        }
    }
}

} // verus!
