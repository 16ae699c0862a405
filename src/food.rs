use vstd::prelude::*;
use crate::geometry::Vec3;

verus! {

/// New food is placed with `FOOD_X_MIN <= x < FOOD_X_MAX`.
pub const FOOD_X_MIN: i64 = -15000;

pub const FOOD_X_MAX: i64 = 15000;

/// New food is placed with `FOOD_Y_MIN <= y < FOOD_Y_MAX`.
pub const FOOD_Y_MIN: i64 = -4000;

pub const FOOD_Y_MAX: i64 = 4000;

/// Depth at which all food is placed.
pub const FOOD_DEPTH: i64 = -2000;

/// Whether `p` is a place where the spawner may put food.
pub open spec fn in_spawn_area(p: Vec3) -> bool {
    &&& FOOD_X_MIN <= p.x < FOOD_X_MAX
    &&& FOOD_Y_MIN <= p.y < FOOD_Y_MAX
    &&& p.z == FOOD_DEPTH
}

/// Relies on rand::thread_rng and rand::Rng::gen_range: a value drawn from the
/// half-open range `lo..hi`, which must not be empty (else gen_range panics).
#[verifier::external_body]
fn random_in(lo: i64, hi: i64) -> (r: i64)
    requires
        lo < hi,
    ensures
        lo <= r < hi,
{
    rand::Rng::gen_range(&mut rand::thread_rng(), lo..hi)
}

/// The food item placed at the drawn coordinates `x` and `y`.
pub fn food_at(x: i64, y: i64) -> (r: Vec3)
    ensures
        r == (Vec3 { x, y, z: FOOD_DEPTH }),
{
    Vec3 { x, y, z: FOOD_DEPTH }
}

/// A new food position, drawn at random within the spawn area.
pub fn gen_food() -> (r: Vec3)
    ensures
        in_spawn_area(r),
{
    let x = random_in(FOOD_X_MIN, FOOD_X_MAX);
    let y = random_in(FOOD_Y_MIN, FOOD_Y_MAX);
    food_at(x, y)
}

} // verus!
