use vstd::prelude::*;

verus! {

/// A point or a velocity; each component in thousandths of an arena unit.
#[derive(Clone, Copy, Debug, PartialEq, Eq, Structural)]
pub struct Vec3 {
    pub x: i64,
    pub y: i64,
    pub z: i64,
}

impl Vec3 {
    pub fn new(x: i64, y: i64, z: i64) -> (r: Vec3)
        ensures
            r == (Vec3 { x, y, z }),
    {
        Vec3 { x, y, z }
    }

    pub fn zero() -> (r: Vec3)
        ensures
            r == origin(),
    {
        Vec3 { x: 0, y: 0, z: 0 }
    }
}

/// The point (0, 0, 0).
pub open spec fn origin() -> Vec3 {
    Vec3 { x: 0, y: 0, z: 0 }
}

pub open spec fn abs(v: int) -> int {
    if v < 0 {
        -v
    } else {
        v
    }
}

/// Manhattan distance in the plane of `x` and `y`.
pub open spec fn manhattan_xy(a: Vec3, b: Vec3) -> int {
    abs(a.x - b.x) + abs(a.y - b.y)
}

/// Square of the Euclidean distance.
pub open spec fn dist_sq(a: Vec3, b: Vec3) -> int {
    (a.x - b.x) * (a.x - b.x) + (a.y - b.y) * (a.y - b.y) + (a.z - b.z) * (a.z - b.z)
}

fn abs_diff(a: i64, b: i64) -> (r: i128)
    ensures
        r == abs(a - b),
{
    let d: i128 = a as i128 - b as i128;
    if d < 0 {
        -d
    } else {
        d
    }
}

/// `|a.x - b.x| + |a.y - b.y|`.
pub fn manhattan_distance_xy(a: Vec3, b: Vec3) -> (r: i128)
    ensures
        r == manhattan_xy(a, b),
{
    abs_diff(a.x, b.x) + abs_diff(a.y, b.y)
}

/// Whether the Euclidean distance from `a` to `b` is at most `radius`.
pub fn within_radius(a: Vec3, b: Vec3, radius: u32) -> (r: bool)
    ensures
        r == (dist_sq(a, b) <= radius * radius),
{
    let dx = abs_diff(a.x, b.x);
    let dy = abs_diff(a.y, b.y);
    let dz = abs_diff(a.z, b.z);
    let rad = radius as i128;
    if dx > rad || dy > rad || dz > rad {
        proof {
            let ddx = a.x - b.x;
            let ddy = a.y - b.y;
            let ddz = a.z - b.z;
            assert(ddx * ddx >= 0 && ddy * ddy >= 0 && ddz * ddz >= 0) by (nonlinear_arith);
            assert(ddx * ddx == abs(ddx) * abs(ddx)) by (nonlinear_arith);
            assert(ddy * ddy == abs(ddy) * abs(ddy)) by (nonlinear_arith);
            assert(ddz * ddz == abs(ddz) * abs(ddz)) by (nonlinear_arith);
            let rr = radius as int;
            if dx > rad {
                assert(abs(ddx) * abs(ddx) > rr * rr) by (nonlinear_arith)
                    requires abs(ddx) > rr, rr >= 0;
            } else if dy > rad {
                assert(abs(ddy) * abs(ddy) > rr * rr) by (nonlinear_arith)
                    requires abs(ddy) > rr, rr >= 0;
            } else {
                assert(abs(ddz) * abs(ddz) > rr * rr) by (nonlinear_arith)
                    requires abs(ddz) > rr, rr >= 0;
            }
        }
        false
    } else {
        proof {
            assert(dx * dx <= rad * rad) by (nonlinear_arith)
                requires 0 <= dx <= rad;
            assert(dy * dy <= rad * rad) by (nonlinear_arith)
                requires 0 <= dy <= rad;
            assert(dz * dz <= rad * rad) by (nonlinear_arith)
                requires 0 <= dz <= rad;
            assert(rad * rad <= 0x1_0000_0000 * 0x1_0000_0000) by (nonlinear_arith)
                requires 0 <= rad < 0x1_0000_0000;
            let ddx = a.x - b.x;
            let ddy = a.y - b.y;
            let ddz = a.z - b.z;
            assert(ddx * ddx == dx * dx) by (nonlinear_arith)
                requires dx == abs(ddx);
            assert(ddy * ddy == dy * dy) by (nonlinear_arith)
                requires dy == abs(ddy);
            assert(ddz * ddz == dz * dz) by (nonlinear_arith)
                requires dz == abs(ddz);
        }
        dx * dx + dy * dy + dz * dz <= rad * rad
    }
}

} // verus!
