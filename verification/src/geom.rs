use vstd::prelude::*;

verus! {

/// Positions are kept within this many world units of the origin on each
/// axis, so that squared distances never overflow a signed 64-bit machine
/// integer.
pub const COORD_LIMIT: i64 = 1_000_000;

/// A point or direction in the arena, in integer world units.
#[derive(Clone, Copy, PartialEq, Eq, Structural, Debug)]
pub struct Vec2i {
    pub x: i64,
    pub y: i64,
}

impl Vec2i {
    /// Both coordinates lie within the arena's coordinate limit.
    pub open spec fn in_bounds(self) -> bool {
        &&& -COORD_LIMIT <= self.x <= COORD_LIMIT
        &&& -COORD_LIMIT <= self.y <= COORD_LIMIT
    }

    pub open spec fn zero_spec() -> Vec2i {
        Vec2i { x: 0, y: 0 }
    }

    pub fn zero() -> (r: Vec2i)
        ensures
            r == Vec2i::zero_spec(),
    {
        Vec2i { x: 0, y: 0 }
    }

    pub fn new(x: i64, y: i64) -> (r: Vec2i)
        ensures
            r.x == x,
            r.y == y,
    {
        Vec2i { x, y }
    }

    /// Squared Euclidean distance between two points.
    pub open spec fn dist_sq_spec(self, other: Vec2i) -> int {
        (self.x - other.x) * (self.x - other.x) + (self.y - other.y) * (self.y - other.y)
    }

    /// Squared Euclidean distance; distances compare the same way the real
    /// distances do, with no root extraction.
    pub fn dist_sq(&self, other: &Vec2i) -> (d: i64)
        requires
            self.in_bounds(),
            other.in_bounds(),
        ensures
            d == self.dist_sq_spec(*other),
    {
        let dx: i64 = self.x - other.x;
        let dy: i64 = self.y - other.y;
        assert(dx * dx <= 4_000_000_000_000 && dx * dx >= 0) by (nonlinear_arith)
            requires
                -2_000_000 <= dx <= 2_000_000,
        ;
        assert(dy * dy <= 4_000_000_000_000 && dy * dy >= 0) by (nonlinear_arith)
            requires
                -2_000_000 <= dy <= 2_000_000,
        ;
        dx * dx + dy * dy
    }

    /// The componentwise difference `a - b`, defined for points within
    /// the coordinate limit.
    pub open spec fn sub_spec(a: Vec2i, b: Vec2i) -> Vec2i {
        Vec2i { x: (a.x - b.x) as i64, y: (a.y - b.y) as i64 }
    }

    /// The displacement from `self` to `other`, as handed to the host for
    /// steering toward a target.
    pub fn direction_to(&self, other: &Vec2i) -> (r: Vec2i)
        requires
            self.in_bounds(),
            other.in_bounds(),
        ensures
            r == Vec2i::sub_spec(*other, *self),
            r.x == other.x - self.x,
            r.y == other.y - self.y,
    {
        Vec2i { x: other.x - self.x, y: other.y - self.y }
    }
}

} // verus!
