//! Plain integer geometry for the simulation world.
//!
//! World coordinates and lengths are fixed-point integers counting
//! thousandths of a world unit. Every coordinate the library handles stays
//! within [`COORD_LIMIT`] in magnitude, which keeps squared distances and
//! scale products inside `i64`.

use vstd::prelude::*;

verus! {

/// Largest coordinate magnitude the world model admits, in thousandths of a
/// world unit (one million world units).
pub const COORD_LIMIT: i64 = 1_000_000_000;

/// A point or vector in world space, in thousandths of a world unit.
#[derive(Debug, Clone, Copy, PartialEq, Eq, Structural)]
pub struct Vec2 {
    pub x: i64,
    pub y: i64,
}

impl Vec2 {
    /// True when both coordinates are within the world's coordinate limit.
    pub open spec fn in_bounds(self) -> bool {
        -COORD_LIMIT <= self.x <= COORD_LIMIT && -COORD_LIMIT <= self.y <= COORD_LIMIT
    }

    pub fn new(x: i64, y: i64) -> (r: Vec2)
        ensures
            r.x == x,
            r.y == y,
    {
        Vec2 { x, y }
    }

    /// Squared Euclidean distance between two in-bounds points.
    pub open spec fn spec_dist_sq(self, other: Vec2) -> int {
        (self.x - other.x) * (self.x - other.x) + (self.y - other.y) * (self.y - other.y)
    }

    /// Squared Euclidean distance; both points must be in bounds so the
    /// squares fit in `i64`.
    pub fn dist_sq(self, other: Vec2) -> (r: i64)
        requires
            self.in_bounds(),
            other.in_bounds(),
        ensures
            r == self.spec_dist_sq(other),
    {
        let dx: i64 = self.x - other.x;
        let dy: i64 = self.y - other.y;
        proof {
            assert(0 <= dx * dx <= 4_000_000_000_000_000_000 && 0 <= dy * dy
                <= 4_000_000_000_000_000_000) by (nonlinear_arith)
                requires
                    -2 * COORD_LIMIT <= dx <= 2 * COORD_LIMIT,
                    -2 * COORD_LIMIT <= dy <= 2 * COORD_LIMIT,
            ;
        }
        dx * dx + dy * dy
    }

    /// Componentwise difference.
    pub open spec fn spec_sub(self, other: Vec2) -> Vec2 {
        Vec2 { x: (self.x - other.x) as i64, y: (self.y - other.y) as i64 }
    }

    pub fn sub(self, other: Vec2) -> (r: Vec2)
        requires
            self.in_bounds(),
            other.in_bounds(),
        ensures
            r == self.spec_sub(other),
            r.x == self.x - other.x,
            r.y == self.y - other.y,
    {
        Vec2 { x: self.x - other.x, y: self.y - other.y }
    }
}

/// An axis-aligned box in world space: `lo` is the corner with the smaller
/// coordinates, `hi` the one with the larger.
#[derive(Debug, Clone, Copy, PartialEq, Eq, Structural)]
pub struct Aabb {
    pub lo: Vec2,
    pub hi: Vec2,
}

impl Aabb {
    /// Corners ordered and in bounds.
    pub open spec fn wf(self) -> bool {
        self.lo.in_bounds() && self.hi.in_bounds() && self.lo.x <= self.hi.x && self.lo.y
            <= self.hi.y
    }

    /// Whether two boxes share at least one point (touching edges count).
    pub open spec fn spec_overlaps(self, other: Aabb) -> bool {
        self.lo.x <= other.hi.x && other.lo.x <= self.hi.x && self.lo.y <= other.hi.y
            && other.lo.y <= self.hi.y
    }

    pub fn new(lo: Vec2, hi: Vec2) -> (r: Aabb)
        ensures
            r.lo == lo,
            r.hi == hi,
    {
        Aabb { lo, hi }
    }

    /// Box of the given half-extents centred at `center`.
    pub fn centered(center: Vec2, half_width: i64, half_height: i64) -> (r: Aabb)
        requires
            center.in_bounds(),
            0 <= half_width <= COORD_LIMIT,
            0 <= half_height <= COORD_LIMIT,
            -COORD_LIMIT <= center.x - half_width,
            center.x + half_width <= COORD_LIMIT,
            -COORD_LIMIT <= center.y - half_height,
            center.y + half_height <= COORD_LIMIT,
        ensures
            r.wf(),
            r.lo.x == center.x - half_width,
            r.hi.x == center.x + half_width,
            r.lo.y == center.y - half_height,
            r.hi.y == center.y + half_height,
    {
        Aabb {
            lo: Vec2 { x: center.x - half_width, y: center.y - half_height },
            hi: Vec2 { x: center.x + half_width, y: center.y + half_height },
        }
    }

    /// Center point, rounded toward the lower corner.
    pub fn center(self) -> (r: Vec2)
        requires
            self.wf(),
        ensures
            r.x == self.lo.x + (self.hi.x - self.lo.x) / 2,
            r.y == self.lo.y + (self.hi.y - self.lo.y) / 2,
            r.in_bounds(),
    {
        Vec2 {
            x: self.lo.x + (self.hi.x - self.lo.x) / 2,
            y: self.lo.y + (self.hi.y - self.lo.y) / 2,
        }
    }

    pub fn overlaps(self, other: Aabb) -> (r: bool)
        ensures
            r == self.spec_overlaps(other),
    {
        self.lo.x <= other.hi.x && other.lo.x <= self.hi.x && self.lo.y <= other.hi.y
            && other.lo.y <= self.hi.y
    }
}

/// An RGB color, one byte per channel.
#[derive(Debug, Clone, Copy, PartialEq, Eq, Structural)]
pub struct Rgb {
    pub r: u8,
    pub g: u8,
    pub b: u8,
}

impl Rgb {
    pub fn new(r: u8, g: u8, b: u8) -> (c: Rgb)
        ensures
            c.r == r,
            c.g == g,
            c.b == b,
    {
        Rgb { r, g, b }
    }
}

/// A filled triangle in body-local space, in thousandths of a world unit,
/// with its render color.
#[derive(Debug, Clone, Copy, PartialEq, Eq, Structural)]
pub struct Triangle {
    pub a: Vec2,
    pub b: Vec2,
    pub c: Vec2,
    pub color: Rgb,
}

impl Triangle {
    pub fn new(a: Vec2, b: Vec2, c: Vec2, color: Rgb) -> (t: Triangle)
        ensures
            t.a == a,
            t.b == b,
            t.c == c,
            t.color == color,
    {
        Triangle { a, b, c, color }
    }
}

} // verus!
