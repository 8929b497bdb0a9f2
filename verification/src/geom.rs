//! Integral screen geometry: points, rectangles, and the shared numeric
//! range that keeps every offset computation free of overflow.

use vstd::prelude::*;

verus! {

/// Largest magnitude allowed for any coordinate, offset or drag delta handled
/// by the library. Keeping every input inside this bound lets all of the
/// `i64` arithmetic in the crate be proved free of overflow.
pub const COORD_LIMIT: i64 = 0x1000_0000;

/// Whether a value lies within the coordinate range the library works on.
pub open spec fn in_range(x: int) -> bool {
    -(COORD_LIMIT as int) <= x <= COORD_LIMIT as int
}

/// Whether a value lies within four times the coordinate range; differences
/// and short sums of in-range values land here, still far inside `i64`.
pub open spec fn in_span(x: int) -> bool {
    -4 * (COORD_LIMIT as int) <= x <= 4 * (COORD_LIMIT as int)
}

/// Absolute difference between two integers.
pub open spec fn dist(a: int, b: int) -> int {
    if a >= b {
        a - b
    } else {
        b - a
    }
}

/// `x` clamped into the closed interval `[lo, hi]` (meaningful when `lo <= hi`).
pub open spec fn clamp_int(x: int, lo: int, hi: int) -> int {
    if x < lo {
        lo
    } else if x > hi {
        hi
    } else {
        x
    }
}

/// A point on the screen, in integral pixels.
#[derive(Clone, Copy, Debug, PartialEq, Eq, Structural)]
pub struct Pos {
    pub x: i64,
    pub y: i64,
}

/// An axis-aligned rectangle, given by its two corner points.
#[derive(Clone, Copy, Debug, PartialEq, Eq, Structural)]
pub struct Rect {
    pub min: Pos,
    pub max: Pos,
}

impl Pos {
    pub open spec fn spec_in_range(&self) -> bool {
        in_range(self.x as int) && in_range(self.y as int)
    }

    pub fn new(x: i64, y: i64) -> (p: Pos)
        ensures
            p.x == x,
            p.y == y,
    {
        Pos { x, y }
    }
}

impl Rect {
    pub open spec fn spec_in_range(&self) -> bool {
        self.min.spec_in_range() && self.max.spec_in_range()
    }

    /// Whether `p` lies inside the rectangle, edges included.
    pub open spec fn spec_contains(&self, p: Pos) -> bool {
        self.min.x <= p.x <= self.max.x && self.min.y <= p.y <= self.max.y
    }

    pub fn new(min: Pos, max: Pos) -> (r: Rect)
        ensures
            r.min == min,
            r.max == max,
    {
        Rect { min, max }
    }

    pub fn contains(&self, p: &Pos) -> (b: bool)
        ensures
            b == self.spec_contains(*p),
    {
        self.min.x <= p.x && p.x <= self.max.x && self.min.y <= p.y && p.y <= self.max.y
    }

    /// The rectangle spanning from `min` over a width of `w` and a height of `h`.
    pub fn from_min_size(min: Pos, w: i64, h: i64) -> (r: Rect)
        requires
            in_span(min.x as int),
            in_span(min.y as int),
            in_span(w as int),
            in_span(h as int),
        ensures
            r.min == min,
            r.max.x == min.x + w,
            r.max.y == min.y + h,
    {
        Rect { min, max: Pos { x: min.x + w, y: min.y + h } }
    }

    pub fn width(&self) -> (w: i64)
        requires
            self.spec_in_range(),
        ensures
            w == self.max.x - self.min.x,
    {
        self.max.x - self.min.x
    }

    pub fn height(&self) -> (h: i64)
        requires
            self.spec_in_range(),
        ensures
            h == self.max.y - self.min.y,
    {
        self.max.y - self.min.y
    }

    pub fn top(&self) -> (y: i64)
        ensures
            y == self.min.y,
    {
        self.min.y
    }

    pub fn bottom(&self) -> (y: i64)
        ensures
            y == self.max.y,
    {
        self.max.y
    }

    /// Split into an upper and a lower part at the horizontal line `y`.
    pub fn split_top_bottom_at(&self, y: i64) -> (r: (Rect, Rect))
        ensures
            r.0.min == self.min,
            r.0.max.x == self.max.x,
            r.0.max.y == y,
            r.1.min.x == self.min.x,
            r.1.min.y == y,
            r.1.max == self.max,
    {
        (
            Rect { min: self.min, max: Pos { x: self.max.x, y } },
            Rect { min: Pos { x: self.min.x, y }, max: self.max },
        )
    }

    /// Split into a left and a right part at the vertical line `x`.
    pub fn split_left_right_at(&self, x: i64) -> (r: (Rect, Rect))
        ensures
            r.0.min == self.min,
            r.0.max.x == x,
            r.0.max.y == self.max.y,
            r.1.min.x == x,
            r.1.min.y == self.min.y,
            r.1.max == self.max,
    {
        (
            Rect { min: self.min, max: Pos { x, y: self.max.y } },
            Rect { min: Pos { x, y: self.min.y }, max: self.max },
        )
    }
}

} // verus!
