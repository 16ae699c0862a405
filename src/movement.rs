use vstd::prelude::*;
use crate::geometry::Vec3;

verus! {

/// Speed of the head, in thousandths of a unit per millisecond
/// (that is, in units per second).
pub const SPEED: i64 = 5;

/// The arena spans `[-ARENA_HALF_WIDTH, ARENA_HALF_WIDTH]` along `x`.
pub const ARENA_HALF_WIDTH: i64 = 16000;

/// The arena spans `[-ARENA_HALF_HEIGHT, ARENA_HALF_HEIGHT]` along `y`.
pub const ARENA_HALF_HEIGHT: i64 = 9000;

/// One of the four direction keys.
#[derive(Clone, Copy, Debug, PartialEq, Eq, Structural)]
pub enum Heading {
    Up,
    Down,
    Left,
    Right,
}

/// The velocity that a key press selects: `SPEED` along `y` (up, down) or
/// along `x` (left, right).
pub open spec fn velocity_of(h: Heading) -> Vec3 {
    match h {
        Heading::Up => Vec3 { x: 0, y: SPEED, z: 0 },
        Heading::Down => Vec3 { x: 0, y: (-SPEED) as i64, z: 0 },
        Heading::Left => Vec3 { x: (-SPEED) as i64, y: 0, z: 0 },
        Heading::Right => Vec3 { x: SPEED, y: 0, z: 0 },
    }
}

/// A velocity that the head can have: in the plane, no faster than `SPEED`
/// along each axis.
pub open spec fn valid_direction(d: Vec3) -> bool {
    &&& d.z == 0
    &&& -SPEED <= d.x <= SPEED
    &&& -SPEED <= d.y <= SPEED
}

pub fn velocity(h: Heading) -> (r: Vec3)
    ensures
        r == velocity_of(h),
        valid_direction(r),
{
    match h {
        Heading::Up => Vec3 { x: 0, y: SPEED, z: 0 },
        Heading::Down => Vec3 { x: 0, y: -SPEED, z: 0 },
        Heading::Left => Vec3 { x: -SPEED, y: 0, z: 0 },
        Heading::Right => Vec3 { x: SPEED, y: 0, z: 0 },
    }
}

/// A coordinate past one edge of `[-bound, bound]` is moved to the opposite edge.
pub open spec fn wrap_spec(v: int, bound: int) -> int {
    if v < -bound {
        bound
    } else if v > bound {
        -bound
    } else {
        v
    }
}

pub fn wrap(v: i128, bound: i64) -> (r: i64)
    requires
        bound >= 0,
    ensures
        r == wrap_spec(v as int, bound as int),
{
    if v < -(bound as i128) {
        bound
    } else if v > bound as i128 {
        -bound
    } else {
        v as i64
    }
}

/// Where a head at `p` moving at `d` stands after `dt` milliseconds,
/// wrapped around the arena's edges.
pub open spec fn integrate_spec(p: Vec3, d: Vec3, dt: int) -> Vec3 {
    Vec3 {
        x: wrap_spec(p.x + d.x * dt, ARENA_HALF_WIDTH as int) as i64,
        y: wrap_spec(p.y + d.y * dt, ARENA_HALF_HEIGHT as int) as i64,
        z: p.z,
    }
}

pub fn integrate(p: Vec3, d: Vec3, dt: u32) -> (r: Vec3)
    requires
        valid_direction(d),
    ensures
        r == integrate_spec(p, d, dt as int),
{
    let t = dt as i128;
    proof {
        assert(-(SPEED as int) * 0x1_0000_0000 <= d.x * dt <= (SPEED as int) * 0x1_0000_0000)
            by (nonlinear_arith)
            requires -SPEED <= d.x <= SPEED, 0 <= dt < 0x1_0000_0000;
        assert(-(SPEED as int) * 0x1_0000_0000 <= d.y * dt <= (SPEED as int) * 0x1_0000_0000)
            by (nonlinear_arith)
            requires -SPEED <= d.y <= SPEED, 0 <= dt < 0x1_0000_0000;
    }
    let x = wrap(p.x as i128 + d.x as i128 * t, ARENA_HALF_WIDTH);
    let y = wrap(p.y as i128 + d.y as i128 * t, ARENA_HALF_HEIGHT);
    Vec3 { x, y, z: p.z }
}

} // verus!
