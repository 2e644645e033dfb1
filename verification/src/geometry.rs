//! Integer screen geometry in logical pixels: points, sizes and
//! axis-aligned rectangles.

use vstd::prelude::*;

verus! {

/// `v` is representable as an `i32`.
pub open spec fn fits_i32(v: int) -> bool {
    i32::MIN <= v <= i32::MAX
}

/// `v` clamped to the `i32` range.
pub open spec fn saturate_i32(v: int) -> int {
    if v < i32::MIN {
        i32::MIN as int
    } else if v > i32::MAX {
        i32::MAX as int
    } else {
        v
    }
}

/// A point in logical coordinates.
#[derive(Debug, Clone, Copy, PartialEq, Eq, Structural)]
pub struct Point {
    pub x: i32,
    pub y: i32,
}

/// A width and height in logical pixels.
#[derive(Debug, Clone, Copy, PartialEq, Eq, Structural)]
pub struct Size {
    pub w: i32,
    pub h: i32,
}

/// An axis-aligned rectangle: its top-left corner and its size.
#[derive(Debug, Clone, Copy, PartialEq, Eq, Structural)]
pub struct Rectangle {
    pub loc: Point,
    pub size: Size,
}

/// A pointer position rounded down to whole logical pixels.
///
/// For an integer bound `n` and a real coordinate `p`, `p >= n` and
/// `p < n` hold exactly when they hold of `floor(p)`, so comparisons of a
/// pointer against integer rectangles can be made on this position.
#[derive(Debug, Clone, Copy, PartialEq, Eq, Structural)]
pub struct PixelPos {
    pub x: i64,
    pub y: i64,
}

/// The rectangle with corner `(x, y)` and size `(w, h)`.
pub open spec fn rect(x: int, y: int, w: int, h: int) -> Rectangle {
    Rectangle { loc: Point { x: x as i32, y: y as i32 }, size: Size { w: w as i32, h: h as i32 } }
}

/// `p` lies in `r`; the far edges are computed with saturating addition.
pub open spec fn rect_contains(r: Rectangle, p: Point) -> bool {
    &&& p.x >= r.loc.x
    &&& p.x < saturate_i32(r.loc.x + r.size.w)
    &&& p.y >= r.loc.y
    &&& p.y < saturate_i32(r.loc.y + r.size.h)
}

/// Containment is half-open: where the far edges fit in `i32`, a point
/// lies in a rectangle exactly when it is at or past the corner and
/// strictly before the far edges; past `i32`, the far edges are clamped.
pub proof fn law_contains_half_open(r: Rectangle, p: Point)
    ensures
        fits_i32(r.loc.x + r.size.w) && fits_i32(r.loc.y + r.size.h) ==> (rect_contains(r, p) <==> (
        r.loc.x <= p.x < r.loc.x + r.size.w && r.loc.y <= p.y < r.loc.y + r.size.h)),
        r.loc.x + r.size.w > i32::MAX && r.loc.y + r.size.h > i32::MAX ==> (rect_contains(r, p) <==> (
        r.loc.x <= p.x < i32::MAX && r.loc.y <= p.y < i32::MAX)),
{
}

/// Whether `v` is representable as an `i32`.
pub fn fits_i32_exec(v: i64) -> (res: bool)
    ensures
        res == fits_i32(v as int),
{
    i32::MIN as i64 <= v && v <= i32::MAX as i64
}

fn saturating_add_i32(a: i32, b: i32) -> (res: i32)
    ensures
        res == saturate_i32(a + b),
{
    let s: i64 = a as i64 + b as i64;
    if s < i32::MIN as i64 {
        i32::MIN
    } else if s > i32::MAX as i64 {
        i32::MAX
    } else {
        s as i32
    }
}

impl Rectangle {
    /// The rectangle with the given corner and size.
    pub fn new(loc: Point, size: Size) -> (res: Self)
        ensures
            res == (Rectangle { loc, size }),
    {
        Rectangle { loc, size }
    }

    /// Whether `point` lies inside the rectangle: at or right of / below its
    /// corner and strictly left of / above its far edges.
    pub fn contains(&self, point: Point) -> (res: bool)
        ensures
            res == rect_contains(*self, point),
    {
        point.x >= self.loc.x && point.x < saturating_add_i32(self.loc.x, self.size.w) && point.y
            >= self.loc.y && point.y < saturating_add_i32(self.loc.y, self.size.h)
    }
}

} // verus!
