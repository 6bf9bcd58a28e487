//! Plain 2D geometry on integer playfield units: vectors, axis-aligned
//! boxes, overlap tests and squared distances.

use vstd::prelude::*;

verus! {

/// A 2D vector of playfield units, used for positions, velocities and
/// sizes alike.
#[derive(Clone, Copy, PartialEq, Eq, Structural, Debug)]
pub struct Vec2i {
    pub x: i32,
    pub y: i32,
}

impl Vec2i {
    pub fn new(x: i32, y: i32) -> (v: Vec2i)
        ensures
            v.x == x,
            v.y == y,
    {
        Vec2i { x, y }
    }
}

/// An axis-aligned bounding box: the closed-open region
/// `[min.x, max.x) x [min.y, max.y)`.
#[derive(Clone, Copy, PartialEq, Eq, Structural, Debug)]
pub struct Aabb {
    pub min: Vec2i,
    pub max: Vec2i,
}

/// Two boxes overlap when their interiors share a point; boxes that
/// merely touch along an edge do not overlap.
pub open spec fn overlaps(a: Aabb, b: Aabb) -> bool {
    &&& a.min.x < b.max.x
    &&& b.min.x < a.max.x
    &&& a.min.y < b.max.y
    &&& b.min.y < a.max.y
}

/// Executable overlap test, exact against [`overlaps`].
pub fn overlaps_exec(a: &Aabb, b: &Aabb) -> (r: bool)
    ensures
        r == overlaps(*a, *b),
{
    a.min.x < b.max.x && b.min.x < a.max.x && a.min.y < b.max.y && b.min.y < a.max.y
}

/// Squared Euclidean distance between two points.
pub open spec fn sqdist(p: Vec2i, q: Vec2i) -> int {
    (p.x - q.x) * (p.x - q.x) + (p.y - q.y) * (p.y - q.y)
}

/// Executable squared distance, exact against [`sqdist`]; widening to
/// 64 bits keeps every i32 input in range.
pub fn sqdist_exec(p: &Vec2i, q: &Vec2i) -> (d: i64)
    requires
        -0x10000 <= p.x - q.x <= 0x10000,
        -0x10000 <= p.y - q.y <= 0x10000,
    ensures
        d == sqdist(*p, *q),
{
    let dx: i64 = p.x as i64 - q.x as i64;
    let dy: i64 = p.y as i64 - q.y as i64;
    proof {
        assert(0 <= dx * dx <= 0x100000000) by (nonlinear_arith)
            requires
                -0x10000 <= dx <= 0x10000,
        ;
        assert(0 <= dy * dy <= 0x100000000) by (nonlinear_arith)
            requires
                -0x10000 <= dy <= 0x10000,
        ;
    }
    dx * dx + dy * dy
}

} // verus!
