//! Points, sizes and axis-aligned rectangles in integer device units, and
//! the clamping primitive the layout engine is built on.

use vstd::prelude::*;

verus! {

/// A position in device units, measured from the top-left corner of the
/// window.
#[derive(Clone, Copy, Debug, PartialEq, Eq, Structural)]
pub struct Point {
    pub x: u32,
    pub y: u32,
}

/// A width/height pair in device units.
#[derive(Clone, Copy, Debug, PartialEq, Eq, Structural)]
pub struct Size {
    pub width: u32,
    pub height: u32,
}

/// An axis-aligned rectangle: origin plus extent. Produced by the layout
/// pass for one frame; never persisted across frames.
#[derive(Clone, Copy, Debug, PartialEq, Eq, Structural)]
pub struct Rect {
    pub x: u32,
    pub y: u32,
    pub width: u32,
    pub height: u32,
}

impl Rect {
    /// Whether `p` lies inside the rectangle. The near edges are inclusive,
    /// the far edges exclusive, so adjacent boxes never share a point.
    pub open spec fn contains_spec(self, p: Point) -> bool {
        &&& self.x <= p.x < self.x + self.width
        &&& self.y <= p.y < self.y + self.height
    }

    /// Hit test against this rectangle.
    pub fn contains(&self, p: Point) -> (r: bool)
        ensures
            r == self.contains_spec(p),
    {
        p.x >= self.x && p.x - self.x < self.width && p.y >= self.y && p.y - self.y < self.height
    }
}

/// `x` forced into the interval `[lo, hi]` (meaningful when `lo <= hi`).
pub open spec fn clamp_spec(x: int, lo: int, hi: int) -> int {
    if x < lo {
        lo
    } else if x > hi {
        hi
    } else {
        x
    }
}

/// The smaller of two integers.
pub open spec fn min_spec(a: int, b: int) -> int {
    if a < b {
        a
    } else {
        b
    }
}

/// `a - b`, with a floor of zero instead of underflow.
pub open spec fn sub_floor_spec(a: int, b: int) -> int {
    if a >= b {
        a - b
    } else {
        0
    }
}

/// Clamp a device length into an allowed interval.
pub fn clamp_u32(x: u32, lo: u32, hi: u32) -> (r: u32)
    requires
        lo <= hi,
    ensures
        r == clamp_spec(x as int, lo as int, hi as int),
{
    if x < lo {
        lo
    } else if x > hi {
        hi
    } else {
        x
    }
}

/// Subtract one device length from another, clamping at zero instead of
/// going negative.
pub fn sub_floor(a: u32, b: u32) -> (r: u32)
    ensures
        r == sub_floor_spec(a as int, b as int),
{
    if a >= b {
        a - b
    } else {
        0
    }
}

/// The smaller of two device lengths.
pub fn min_u32(a: u32, b: u32) -> (r: u32)
    ensures
        r == min_spec(a as int, b as int),
{
    if a < b {
        a
    } else {
        b
    }
}

} // verus!
