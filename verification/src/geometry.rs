//! Plain integer geometry: points and rectangles in canvas coordinates.
//!
//! Coordinates are signed and may lie outside the canvas; the canvas itself
//! clips reads and writes. All selection geometry is kept inside a fixed
//! working window (`WORK_LIMIT`) so that geometry arithmetic can never
//! overflow a machine integer, and pointer events are accepted from the
//! somewhat smaller `COORD_LIMIT` window, which covers every coordinate a
//! 32-bit host event can carry.

use vstd::prelude::*;

verus! {

/// Largest magnitude a raw pointer-event coordinate may have. Every
/// 32-bit host coordinate fits, so callers never need to drop an event.
pub const EVENT_LIMIT: i64 = 0x8000_0000;

/// Largest magnitude a scroll-adjusted pointer coordinate may have: a
/// raw event coordinate plus any scroll offset a canvas can produce
/// stays well inside it.
pub const COORD_LIMIT: i64 = 0x1_0000_0000;

/// Largest magnitude a stored selection coordinate may have. Vastly larger
/// than any canvas; selection edges are confined to this window.
pub const WORK_LIMIT: i64 = 0x100_0000_0000;

/// A position in canvas coordinates, origin at the top-left cell.
#[derive(Clone, Copy, Debug, PartialEq, Eq, Structural)]
pub struct Point {
    pub x: i64,
    pub y: i64,
}

impl Point {
    pub fn new(x: i64, y: i64) -> (p: Point)
        ensures
            p == (Point { x, y }),
    {
        Point { x, y }
    }
}

/// A rectangle given by its four edges, all inclusive.
/// `Rect::new` normalises the edges so that `left <= right` and
/// `top <= bottom` always hold for a freshly built rectangle.
#[derive(Clone, Copy, Debug, PartialEq, Eq, Structural)]
pub struct Rect {
    pub left: i64,
    pub top: i64,
    pub right: i64,
    pub bottom: i64,
}

pub open spec fn spec_min(a: int, b: int) -> int {
    if a <= b {
        a
    } else {
        b
    }
}

pub open spec fn spec_max(a: int, b: int) -> int {
    if a >= b {
        a
    } else {
        b
    }
}

pub fn min64(a: i64, b: i64) -> (r: i64)
    ensures
        r == spec_min(a as int, b as int),
{
    if a <= b {
        a
    } else {
        b
    }
}

pub fn max64(a: i64, b: i64) -> (r: i64)
    ensures
        r == spec_max(a as int, b as int),
{
    if a >= b {
        a
    } else {
        b
    }
}

/// `v` forced into the closed interval `[lo, hi]`.
pub open spec fn spec_clamp(v: int, lo: int, hi: int) -> int {
    spec_min(spec_max(v, lo), hi)
}

pub fn clamp64(v: i64, lo: i64, hi: i64) -> (r: i64)
    ensures
        r == spec_clamp(v as int, lo as int, hi as int),
{
    min64(max64(v, lo), hi)
}

/// The rectangle `Rect::new(left, top, right, bottom)` builds: edges are
/// reordered so the result is normalised, exactly as a caller handing the
/// two corners of a drag in either order would expect.
pub open spec fn rect_new(left: i64, top: i64, right: i64, bottom: i64) -> Rect {
    Rect {
        left: spec_min(left as int, right as int) as i64,
        top: spec_min(top as int, bottom as int) as i64,
        right: spec_max(right as int, left as int) as i64,
        bottom: spec_max(bottom as int, top as int) as i64,
    }
}

impl Rect {
    /// Builds a normalised rectangle from two corners in any order.
    pub fn new(left: i64, top: i64, right: i64, bottom: i64) -> (r: Rect)
        ensures
            r == rect_new(left, top, right, bottom),
    {
        Rect {
            left: min64(left, right),
            top: min64(top, bottom),
            right: max64(right, left),
            bottom: max64(bottom, top),
        }
    }

    /// Builds the rectangle with the given top-left corner and edge lengths,
    /// without normalisation (the caller supplies non-negative extents).
    pub fn with_extent(left: i64, top: i64, w: i64, h: i64) -> (r: Rect)
        requires
            0 <= w,
            0 <= h,
            left + w <= i64::MAX,
            top + h <= i64::MAX,
        ensures
            r.left == left,
            r.top == top,
            r.right == left + w,
            r.bottom == top + h,
    {
        Rect { left, top, right: left + w, bottom: top + h }
    }

    pub open spec fn spec_width(self) -> int {
        self.right - self.left + 1
    }

    pub open spec fn spec_height(self) -> int {
        self.bottom - self.top + 1
    }

    pub open spec fn spec_contains(self, x: int, y: int) -> bool {
        self.left <= x <= self.right && self.top <= y <= self.bottom
    }

    pub open spec fn well_formed(self) -> bool {
        self.left <= self.right && self.top <= self.bottom
    }

    pub fn contains(self, p: Point) -> (b: bool)
        ensures
            b == self.spec_contains(p.x as int, p.y as int),
    {
        self.left <= p.x && p.x <= self.right && self.top <= p.y && p.y <= self.bottom
    }

    /// The x coordinate of the rectangle's horizontal middle, rounded
    /// towards zero as the host's integer division rounds.
    pub open spec fn spec_center_x(self) -> int {
        trunc_div2(self.left + self.right)
    }

    /// The y coordinate of the rectangle's vertical middle, rounded
    /// towards zero.
    pub open spec fn spec_center_y(self) -> int {
        trunc_div2(self.top + self.bottom)
    }

    pub fn center_x(self) -> (c: i64)
        requires
            i64::MIN < self.left + self.right <= i64::MAX,
        ensures
            c == self.spec_center_x(),
    {
        half_toward_zero(self.left + self.right)
    }

    pub fn center_y(self) -> (c: i64)
        requires
            i64::MIN < self.top + self.bottom <= i64::MAX,
        ensures
            c == self.spec_center_y(),
    {
        half_toward_zero(self.top + self.bottom)
    }
}

/// `s / 2` rounded towards zero, the rounding of the host's signed division.
pub open spec fn trunc_div2(s: int) -> int {
    if s >= 0 {
        s / 2
    } else {
        -((-s) / 2)
    }
}

fn half_toward_zero(s: i64) -> (r: i64)
    requires
        s > i64::MIN,
    ensures
        r == trunc_div2(s as int),
{
    if s >= 0 {
        (((s as u64) / 2) as i64)
    } else {
        let m = -s;
        -(((m as u64) / 2) as i64)
    }
}

} // verus!
