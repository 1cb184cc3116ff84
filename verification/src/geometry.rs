//! Points of the arena and the exact comparison of distances.
//!
//! A Euclidean distance is never computed: whether two points lie within a
//! radius of each other is decided on squared distances, which integers hold
//! exactly.

use vstd::prelude::*;

verus! {

/// A position in the arena, in thousandths of a world unit.
#[derive(Clone, Copy, Debug, PartialEq, Eq, Structural)]
pub struct Point {
    pub x: i32,
    pub y: i32,
}

/// The absolute difference of two coordinates.
pub open spec fn gap(a: int, b: int) -> int {
    if a >= b {
        a - b
    } else {
        b - a
    }
}

impl Point {
    /// The square of the Euclidean distance between two points.
    pub open spec fn dist_sq(self, other: Point) -> int {
        (self.x - other.x) * (self.x - other.x) + (self.y - other.y) * (self.y - other.y)
    }

    /// The distance between the two points is at most `radius`.
    pub open spec fn within(self, other: Point, radius: u32) -> bool {
        self.dist_sq(other) <= radius * radius
    }

    /// The distance between the two points is less than `radius`.
    pub open spec fn inside(self, other: Point, radius: u32) -> bool {
        self.dist_sq(other) < radius * radius
    }

    /// The point with the given coordinates.
    pub fn new(x: i32, y: i32) -> (p: Point)
        ensures
            p == (Point { x, y }),
    {
        Point { x, y }
    }

    /// The origin of the arena.
    pub fn origin() -> (p: Point)
        ensures
            p == (Point { x: 0, y: 0 }),
    {
        Point { x: 0, y: 0 }
    }

    /// Computes the squared distance to `other`.
    pub fn distance_squared(&self, other: &Point) -> (d: u128)
        ensures
            d == self.dist_sq(*other),
    {
        let dx: u64 = span(self.x, other.x);
        let dy: u64 = span(self.y, other.y);
        proof {
            lemma_square_bound(dx as int);
            lemma_square_bound(dy as int);
            lemma_square_of_gap(self.x as int, other.x as int);
            lemma_square_of_gap(self.y as int, other.y as int);
        }
        let sx: u64 = dx * dx;
        let sy: u64 = dy * dy;
        sx as u128 + sy as u128
    }

    /// Decides whether `other` lies within `radius` of this point, the rim
    /// included.
    pub fn is_within(&self, other: &Point, radius: u32) -> (b: bool)
        ensures
            b == self.within(*other, radius),
    {
        let r: u64 = radius as u64;
        proof {
            lemma_square_bound(r as int);
        }
        let limit: u64 = r * r;
        self.distance_squared(other) <= limit as u128
    }

    /// Decides whether `other` lies strictly closer than `radius` to this
    /// point.
    pub fn is_inside(&self, other: &Point, radius: u32) -> (b: bool)
        ensures
            b == self.inside(*other, radius),
    {
        let r: u64 = radius as u64;
        proof {
            lemma_square_bound(r as int);
        }
        let limit: u64 = r * r;
        self.distance_squared(other) < limit as u128
    }
}

/// The absolute difference of two coordinates, which always fits 32 bits.
fn span(a: i32, b: i32) -> (d: u64)
    ensures
        d == gap(a as int, b as int),
        d <= 0xFFFF_FFFF,
{
    if a >= b {
        (a as i64 - b as i64) as u64
    } else {
        (b as i64 - a as i64) as u64
    }
}

proof fn lemma_square_bound(d: int)
    by (nonlinear_arith)
    requires
        0 <= d <= 0xFFFF_FFFF,
    ensures
        0 <= d * d <= 0xFFFF_FFFE_0000_0001,
{
}

proof fn lemma_square_of_gap(a: int, b: int)
    by (nonlinear_arith)
    ensures
        gap(a, b) * gap(a, b) == (a - b) * (a - b),
{
}

/// A point is at distance zero from itself, hence within any radius of
/// itself.
pub proof fn lemma_dist_self(a: Point, radius: u32)
    ensures
        a.dist_sq(a) == 0,
        a.within(a, radius),
{
    assert(0 <= radius * radius) by (nonlinear_arith);
}

} // verus!
