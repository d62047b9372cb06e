//! Integer three-component vectors for world-space points and directions.
//!
//! Coordinates are fixed-point values; which scale a given vector carries
//! ([`crate::units::UNIT`] for engine-facing coordinates, its square times
//! that for fine camera positions) is documented at each use.

use vstd::prelude::*;
use crate::units::COORD_LIMIT;

verus! {

/// A vector of three fixed-point coordinates (right-handed, Y-up).
#[derive(Clone, Copy, Debug, PartialEq, Eq, Structural)]
pub struct Vec3 {
    pub x: i128,
    pub y: i128,
    pub z: i128,
}

impl Vec3 {
    /// The squared Euclidean norm, as a mathematical integer.
    pub open spec fn norm_sq(self) -> int {
        self.x * self.x + self.y * self.y + self.z * self.z
    }

    /// Every coordinate lies in `[-bound, bound]`.
    pub open spec fn in_range(self, bound: int) -> bool {
        &&& -bound <= self.x <= bound
        &&& -bound <= self.y <= bound
        &&& -bound <= self.z <= bound
    }

    pub fn new(x: i128, y: i128, z: i128) -> (v: Vec3)
        ensures
            v == (Vec3 { x, y, z }),
    {
        Vec3 { x, y, z }
    }

    /// Componentwise difference `self - other`, exact.
    pub fn sub(self, other: Vec3) -> (d: Vec3)
        requires
            self.in_range(COORD_LIMIT as int),
            other.in_range(COORD_LIMIT as int),
        ensures
            d == sub_spec(self, other),
            d.x == self.x - other.x,
            d.y == self.y - other.y,
            d.z == self.z - other.z,
    {
        Vec3 { x: self.x - other.x, y: self.y - other.y, z: self.z - other.z }
    }
}

/// Componentwise difference of two coordinate vectors. The casts are lossless
/// whenever both vectors are `in_range(COORD_LIMIT)`.
pub open spec fn sub_spec(a: Vec3, b: Vec3) -> Vec3 {
    Vec3 { x: (a.x - b.x) as i128, y: (a.y - b.y) as i128, z: (a.z - b.z) as i128 }
}

/// The squared distance between two points, exact.
pub fn dist_sq(a: Vec3, b: Vec3) -> (d: i128)
    requires
        a.in_range(COORD_LIMIT as int),
        b.in_range(COORD_LIMIT as int),
    ensures
        d == sub_spec(a, b).norm_sq(),
{
    let dx = a.x - b.x;
    let dy = a.y - b.y;
    let dz = a.z - b.z;
    assert(dx * dx <= 4 * COORD_LIMIT * COORD_LIMIT && dx * dx >= 0) by (nonlinear_arith)
        requires
            -2 * COORD_LIMIT <= dx <= 2 * COORD_LIMIT,
    ;
    assert(dy * dy <= 4 * COORD_LIMIT * COORD_LIMIT && dy * dy >= 0) by (nonlinear_arith)
        requires
            -2 * COORD_LIMIT <= dy <= 2 * COORD_LIMIT,
    ;
    assert(dz * dz <= 4 * COORD_LIMIT * COORD_LIMIT && dz * dz >= 0) by (nonlinear_arith)
        requires
            -2 * COORD_LIMIT <= dz <= 2 * COORD_LIMIT,
    ;
    dx * dx + dy * dy + dz * dz
}

} // verus!
