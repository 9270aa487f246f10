//! Integer geometry in logical pixels.

use vstd::prelude::*;

use crate::num::clamp_i32;
use crate::num::saturating_add_i32;

verus! {

/// A position.
#[derive(Clone, Copy, Debug, PartialEq, Eq, Structural)]
pub struct Point {
    pub x: i32,
    pub y: i32,
}

/// An extent.
#[derive(Clone, Copy, Debug, PartialEq, Eq, Structural)]
pub struct Size {
    pub w: i32,
    pub h: i32,
}

/// A rectangle given by its top left corner and its extent.
#[derive(Clone, Copy, Debug, PartialEq, Eq, Structural)]
pub struct Rectangle {
    pub loc: Point,
    pub size: Size,
}

impl Point {
    pub fn new(x: i32, y: i32) -> (r: Self)
        ensures
            r == (Point { x, y }),
    {
        Point { x, y }
    }
}

impl Size {
    pub fn new(w: i32, h: i32) -> (r: Self)
        ensures
            r == (Size { w, h }),
    {
        Size { w, h }
    }
}

impl Rectangle {
    pub fn new(loc: Point, size: Size) -> (r: Self)
        ensures
            r == (Rectangle { loc, size }),
    {
        Rectangle { loc, size }
    }

    /// The rectangle of the given extent at the origin.
    pub fn from_size(size: Size) -> (r: Self)
        ensures
            r == (Rectangle { loc: Point { x: 0, y: 0 }, size }),
    {
        Rectangle { loc: Point { x: 0, y: 0 }, size }
    }

    /// `point` lies inside: the near edges count, the far edges do not. A far
    /// edge past the largest coordinate is held there.
    pub open spec fn spec_contains(self, point: Point) -> bool {
        &&& self.loc.x <= point.x < clamp_i32(self.loc.x + self.size.w)
        &&& self.loc.y <= point.y < clamp_i32(self.loc.y + self.size.h)
    }

    /// Whether `point` lies inside the rectangle.
    pub fn contains(&self, point: Point) -> (r: bool)
        ensures
            r == self.spec_contains(point),
    {
        point.x >= self.loc.x && point.x < saturating_add_i32(self.loc.x, self.size.w) && point.y
            >= self.loc.y && point.y < saturating_add_i32(self.loc.y, self.size.h)
    }

    /// The pixel that holds a sub-pixel position lies inside. The far edges are
    /// exact, as they are for sub-pixel positions.
    pub open spec fn holds_pixel(self, pixel: Point) -> bool {
        &&& self.loc.x <= pixel.x < self.loc.x + self.size.w
        &&& self.loc.y <= pixel.y < self.loc.y + self.size.h
    }

    /// Whether the pixel of a sub-pixel position lies inside the rectangle.
    pub fn contains_pixel(&self, pixel: Point) -> (r: bool)
        ensures
            r == self.holds_pixel(pixel),
    {
        pixel.x >= self.loc.x && (pixel.x as i64) < self.loc.x as i64 + self.size.w as i64
            && pixel.y >= self.loc.y && (pixel.y as i64) < self.loc.y as i64 + self.size.h as i64
    }

    /// Every pixel of `self` is a pixel of `other`.
    pub open spec fn within(self, other: Rectangle) -> bool {
        &&& other.loc.x <= self.loc.x
        &&& other.loc.y <= self.loc.y
        &&& self.loc.x + self.size.w <= other.loc.x + other.size.w
        &&& self.loc.y + self.size.h <= other.loc.y + other.size.h
    }

    /// The two rectangles share no pixel.
    pub open spec fn apart(self, other: Rectangle) -> bool {
        ||| self.loc.x + self.size.w <= other.loc.x
        ||| other.loc.x + other.size.w <= self.loc.x
        ||| self.loc.y + self.size.h <= other.loc.y
        ||| other.loc.y + other.size.h <= self.loc.y
    }
}

/// Half of a length, rounded toward zero.
pub open spec fn half_of(length: int) -> int {
    if length >= 0 {
        length / 2
    } else {
        -((-length) / 2)
    }
}

/// Half of a length, rounded toward zero.
pub fn half(length: i32) -> (r: i32)
    ensures
        r == half_of(length as int),
{
    if length >= 0 {
        length / 2
    } else {
        let magnitude: i64 = -(length as i64);
        (-(magnitude / 2)) as i32
    }
}

/// The middle of a rectangle, in whole pixels.
pub open spec fn center_of(rect: Rectangle) -> (int, int) {
    (rect.loc.x + half_of(rect.size.w as int), rect.loc.y + half_of(rect.size.h as int))
}

/// The middle of the rectangle is a representable position.
pub open spec fn has_center(rect: Rectangle) -> bool {
    &&& i32::MIN <= center_of(rect).0 <= i32::MAX
    &&& i32::MIN <= center_of(rect).1 <= i32::MAX
}

/// The middle of a rectangle, in whole pixels.
pub fn rect_center(rect: Rectangle) -> (r: Point)
    requires
        has_center(rect),
    ensures
        (r.x as int, r.y as int) == center_of(rect),
{
    Point { x: rect.loc.x + half(rect.size.w), y: rect.loc.y + half(rect.size.h) }
}

/// The middle of a rectangle is as far from its near edges as from its far ones, but for a
/// pixel that an odd extent leaves over at the far side.
pub proof fn the_middle_is_in_the_middle(rect: Rectangle)
    requires
        rect.size.w >= 0,
        rect.size.h >= 0,
    ensures
        0 <= (rect.loc.x + rect.size.w - center_of(rect).0) - (center_of(rect).0 - rect.loc.x) <= 1,
        0 <= (rect.loc.y + rect.size.h - center_of(rect).1) - (center_of(rect).1 - rect.loc.y) <= 1,
{
}

/// Halves of opposite lengths are opposite.
pub proof fn halves_are_symmetric(length: int)
    ensures
        half_of(-length) == -half_of(length),
        length >= 0 ==> 0 <= length - 2 * half_of(length) <= 1,
{
}

/// A pixel lies inside a rectangle exactly where the rectangle of that one pixel lies within
/// it, as far as the far edges are in the range of coordinates.
pub proof fn pixels_inside_are_within(rect: Rectangle, pixel: Point)
    ensures
        rect.holds_pixel(pixel) <==> (Rectangle { loc: pixel, size: Size { w: 1, h: 1 } }).within(
            rect,
        ),
        rect.loc.x + rect.size.w <= i32::MAX && rect.loc.y + rect.size.h <= i32::MAX
            && rect.size.w >= 0 && rect.size.h >= 0 ==> (rect.spec_contains(pixel)
            <==> rect.holds_pixel(pixel)),
{
}

} // verus!
