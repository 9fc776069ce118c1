//! Fixed-point lengths, points, sizes and rectangles.

use vstd::prelude::*;

verus! {

/// A length in fixed-point sub-pixel units. Its view is the number of units.
#[derive(Clone, Copy, Debug, PartialEq, Eq, Structural)]
pub struct Au(pub i32);

impl View for Au {
    type V = int;

    open spec fn view(&self) -> int {
        self.0 as int
    }
}

/// Whether a number of units can be held by a length.
pub open spec fn fits(x: int) -> bool {
    i32::MIN <= x <= i32::MAX
}

/// The length of `x` units; meaningful where `fits(x)`.
pub open spec fn au(x: int) -> Au {
    Au(x as i32)
}

pub open spec fn max_int(a: int, b: int) -> int {
    if a >= b {
        a
    } else {
        b
    }
}

pub open spec fn min_int(a: int, b: int) -> int {
    if a <= b {
        a
    } else {
        b
    }
}

impl Au {
    pub fn zero() -> (r: Au)
        ensures
            r == au(0),
    {
        Au(0)
    }

    /// Whether a length can hold `units`.
    pub fn can_hold(units: i64) -> (r: bool)
        ensures
            r == fits(units as int),
    {
        -0x8000_0000 <= units && units <= 0x7fff_ffff
    }

    /// The sum of two lengths.
    pub fn plus(self, other: Au) -> (r: Au)
        requires
            fits(self@ + other@),
        ensures
            r == au(self@ + other@),
    {
        Au(self.0 + other.0)
    }

    /// The difference of two lengths.
    pub fn minus(self, other: Au) -> (r: Au)
        requires
            fits(self@ - other@),
        ensures
            r == au(self@ - other@),
    {
        Au(self.0 - other.0)
    }
}

/// The larger of two lengths.
pub fn max(a: Au, b: Au) -> (r: Au)
    ensures
        r == au(max_int(a@, b@)),
{
    if a.0 >= b.0 {
        a
    } else {
        b
    }
}

/// The smaller of two lengths.
pub fn min(a: Au, b: Au) -> (r: Au)
    ensures
        r == au(min_int(a@, b@)),
{
    if a.0 <= b.0 {
        a
    } else {
        b
    }
}

#[derive(Clone, Copy, Debug, PartialEq, Eq, Structural)]
pub struct Point2D {
    pub x: Au,
    pub y: Au,
}

#[derive(Clone, Copy, Debug, PartialEq, Eq, Structural)]
pub struct Size2D {
    pub width: Au,
    pub height: Au,
}

/// A rectangle: the origin is its top-left corner.
#[derive(Clone, Copy, Debug, PartialEq, Eq, Structural)]
pub struct Rect {
    pub origin: Point2D,
    pub size: Size2D,
}

impl Point2D {
    pub fn new(x: Au, y: Au) -> (r: Point2D)
        ensures
            r == (Point2D { x, y }),
    {
        Point2D { x, y }
    }
}

impl Rect {
    pub open spec fn zero_rect() -> Rect {
        Rect { origin: Point2D { x: Au(0), y: Au(0) }, size: Size2D { width: Au(0), height: Au(0) } }
    }

    pub fn zero() -> (r: Rect)
        ensures
            r == Rect::zero_rect(),
    {
        Rect { origin: Point2D { x: Au(0), y: Au(0) }, size: Size2D { width: Au(0), height: Au(0) } }
    }

    pub fn new(x: Au, y: Au, width: Au, height: Au) -> (r: Rect)
        ensures
            r == (Rect { origin: Point2D { x, y }, size: Size2D { width, height } }),
    {
        Rect { origin: Point2D { x, y }, size: Size2D { width, height } }
    }

    /// Whether the rectangle can be moved by `offset` without leaving the
    /// range of lengths.
    pub open spec fn can_translate(self, offset: Point2D) -> bool {
        fits(self.origin.x@ + offset.x@) && fits(self.origin.y@ + offset.y@)
    }

    /// The rectangle moved by `offset`; its size stays.
    pub open spec fn moved_by(self, offset: Point2D) -> Rect {
        Rect {
            origin: Point2D {
                x: au(self.origin.x@ + offset.x@),
                y: au(self.origin.y@ + offset.y@),
            },
            size: self.size,
        }
    }

    /// Whether `translate` can be called with `offset`.
    pub fn translates(&self, offset: &Point2D) -> (r: bool)
        ensures
            r == self.can_translate(*offset),
    {
        Au::can_hold(self.origin.x.0 as i64 + offset.x.0 as i64) && Au::can_hold(
            self.origin.y.0 as i64 + offset.y.0 as i64,
        )
    }

    pub fn translate(&self, offset: &Point2D) -> (r: Rect)
        requires
            self.can_translate(*offset),
        ensures
            r == self.moved_by(*offset),
    {
        Rect {
            origin: Point2D {
                x: self.origin.x.plus(offset.x),
                y: self.origin.y.plus(offset.y),
            },
            size: self.size,
        }
    }

    /// Two rectangles intersect where each begins before the other ends, on
    /// both axes.
    pub open spec fn overlaps(self, other: Rect) -> bool {
        &&& self.origin.x@ < other.origin.x@ + other.size.width@
        &&& other.origin.x@ < self.origin.x@ + self.size.width@
        &&& self.origin.y@ < other.origin.y@ + other.size.height@
        &&& other.origin.y@ < self.origin.y@ + self.size.height@
    }

    pub fn intersects(&self, other: &Rect) -> (r: bool)
        ensures
            r == self.overlaps(*other),
    {
        let sx: i64 = self.origin.x.0 as i64;
        let sy: i64 = self.origin.y.0 as i64;
        let sw: i64 = self.size.width.0 as i64;
        let sh: i64 = self.size.height.0 as i64;
        let ox: i64 = other.origin.x.0 as i64;
        let oy: i64 = other.origin.y.0 as i64;
        let ow: i64 = other.size.width.0 as i64;
        let oh: i64 = other.size.height.0 as i64;
        sx < ox + ow && ox < sx + sw && sy < oy + oh && oy < sy + sh
    }
}

} // verus!
