//! Integer geometry for the shell core.
//!
//! The protocol carries window dimensions as strictly positive 32-bit
//! integers and surface coordinates as 32-bit fixed-point values, so the
//! core models positions and rectangles over `i64` and sizes over `u32`.
//! Every quantity the render pipeline computes from them (buffer lengths,
//! expanded damage rectangles) is proved free of overflow under the
//! well-formedness bounds below.

use vstd::prelude::*;

verus! {

/// Smallest coordinate a well-formed rectangle corner may carry.
pub const MIN_COORD: i64 = -2147483648;

/// Largest coordinate a well-formed rectangle corner may carry.
pub const MAX_COORD: i64 = 2147483647;

/// Largest width or height of a window: the shell protocol proposes
/// dimensions as positive 32-bit integers.
pub const MAX_DIM: u32 = 2147483647;

/// Margin added on every side of an invalidated rectangle, to counteract
/// anti-aliasing and rounding at tile boundaries.
pub const DAMAGE_MARGIN: i64 = 1;

/// A position in logical units.
#[derive(Clone, Copy, Debug, PartialEq, Eq, Structural)]
pub struct Point {
    pub x: i64,
    pub y: i64,
}

/// A window size in logical units.
#[derive(Clone, Copy, Debug, PartialEq, Eq, Structural)]
pub struct Size {
    pub width: u32,
    pub height: u32,
}

/// An axis-aligned rectangle; `x1`/`y1` are exclusive.
#[derive(Clone, Copy, Debug, PartialEq, Eq, Structural)]
pub struct Rect {
    pub x0: i64,
    pub y0: i64,
    pub x1: i64,
    pub y1: i64,
}

impl Point {
    /// The origin, `(0, 0)`.
    pub fn origin() -> (r: Point)
        ensures
            r == (Point { x: 0, y: 0 }),
    {
        Point { x: 0, y: 0 }
    }

    pub fn new(x: i64, y: i64) -> (r: Point)
        ensures
            r == (Point { x, y }),
    {
        Point { x, y }
    }
}

impl Size {
    /// Both dimensions stay within the protocol's positive 32-bit range.
    pub open spec fn wf(self) -> bool {
        self.width <= MAX_DIM && self.height <= MAX_DIM
    }

    pub fn new(width: u32, height: u32) -> (r: Size)
        requires
            width <= MAX_DIM,
            height <= MAX_DIM,
        ensures
            r == (Size { width, height }),
            r.wf(),
    {
        Size { width, height }
    }

    /// Byte length of a 32-bit ARGB backing buffer of this size.
    pub open spec fn spec_buffer_len(self) -> int {
        self.width * self.height * 4
    }

    /// Byte length of a 32-bit ARGB backing buffer of this size: four bytes
    /// per pixel, row-major.
    pub fn buffer_len(&self) -> (r: u64)
        requires
            self.wf(),
        ensures
            r == self.spec_buffer_len(),
    {
        proof {
            assert((self.width as int) * (self.height as int) * 4 < 0x10000000000000000int)
                by (nonlinear_arith)
                requires
                    self.width <= MAX_DIM,
                    self.height <= MAX_DIM,
            ;
        }
        (self.width as u64) * (self.height as u64) * 4
    }

    /// The rectangle from the origin to this size's extent.
    pub open spec fn spec_to_rect(self) -> Rect {
        Rect { x0: 0, y0: 0, x1: self.width as i64, y1: self.height as i64 }
    }

    pub fn to_rect(&self) -> (r: Rect)
        ensures
            r == self.spec_to_rect(),
    {
        Rect { x0: 0, y0: 0, x1: self.width as i64, y1: self.height as i64 }
    }
}

/// The ratio of physical to logical pixels, per axis.  This backend is
/// fixed at 1 on both axes.
#[derive(Clone, Copy, Debug, PartialEq, Eq, Structural)]
pub struct Scale {
    pub x: u32,
    pub y: u32,
}

impl Scale {
    pub fn new(x: u32, y: u32) -> (r: Scale)
        ensures
            r == (Scale { x, y }),
    {
        Scale { x, y }
    }
}

impl Default for Scale {
    /// The identity scale.
    fn default() -> (r: Self)
        ensures
            r == (Scale { x: 1, y: 1 }),
    {
        Scale { x: 1, y: 1 }
    }
}

impl Rect {
    /// Corners ordered and within the coordinate bounds.
    pub open spec fn wf(self) -> bool {
        &&& MIN_COORD <= self.x0 <= self.x1 <= MAX_COORD
        &&& MIN_COORD <= self.y0 <= self.y1 <= MAX_COORD
    }

    pub fn new(x0: i64, y0: i64, x1: i64, y1: i64) -> (r: Rect)
        requires
            MIN_COORD <= x0 <= x1 <= MAX_COORD,
            MIN_COORD <= y0 <= y1 <= MAX_COORD,
        ensures
            r == (Rect { x0, y0, x1, y1 }),
            r.wf(),
    {
        Rect { x0, y0, x1, y1 }
    }

    /// Corners ordered and within the coordinate bounds, allowing for the
    /// damage margin on each side: what a rectangle held in an invalid
    /// region may look like.
    pub open spec fn damage_wf(self) -> bool {
        &&& MIN_COORD - DAMAGE_MARGIN <= self.x0 <= self.x1 <= MAX_COORD + DAMAGE_MARGIN
        &&& MIN_COORD - DAMAGE_MARGIN <= self.y0 <= self.y1 <= MAX_COORD + DAMAGE_MARGIN
    }

    /// This rectangle grown by the damage margin on every side.
    pub open spec fn spec_expand(self) -> Rect {
        Rect {
            x0: (self.x0 - DAMAGE_MARGIN) as i64,
            y0: (self.y0 - DAMAGE_MARGIN) as i64,
            x1: (self.x1 + DAMAGE_MARGIN) as i64,
            y1: (self.y1 + DAMAGE_MARGIN) as i64,
        }
    }

    /// Grow the rectangle by the damage margin on every side.
    pub fn expand(&self) -> (r: Rect)
        requires
            self.wf(),
        ensures
            r == self.spec_expand(),
            r.x0 == self.x0 - DAMAGE_MARGIN,
            r.y0 == self.y0 - DAMAGE_MARGIN,
            r.x1 == self.x1 + DAMAGE_MARGIN,
            r.y1 == self.y1 + DAMAGE_MARGIN,
            r.damage_wf(),
    {
        Rect {
            x0: self.x0 - DAMAGE_MARGIN,
            y0: self.y0 - DAMAGE_MARGIN,
            x1: self.x1 + DAMAGE_MARGIN,
            y1: self.y1 + DAMAGE_MARGIN,
        }
    }

    /// Whether the point `(x, y)` lies inside this rectangle.
    pub open spec fn spec_contains(self, x: int, y: int) -> bool {
        self.x0 <= x < self.x1 && self.y0 <= y < self.y1
    }

    /// Whether the point `(x, y)` lies inside this rectangle.
    pub fn contains(&self, x: i64, y: i64) -> (r: bool)
        ensures
            r == self.spec_contains(x as int, y as int),
    {
        self.x0 <= x && x < self.x1 && self.y0 <= y && y < self.y1
    }
}

} // verus!
