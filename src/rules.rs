use vstd::prelude::*;
use crate::geometry::{Vec3, manhattan_xy, dist_sq, manhattan_distance_xy, within_radius};

verus! {

/// Largest Manhattan distance at which the head eats food that is not below it.
pub const EAT_REACH: i64 = 400;

/// Largest Manhattan distance at which the head eats food that is below it
/// (the head's `y` is greater than the food's).
pub const EAT_REACH_ABOVE: i64 = 1800;

/// Largest Euclidean distance at which the head hits a body segment.
pub const HIT_RADIUS: u32 = 20;

/// Whether a head at `head` eats food at `food`.
pub open spec fn food_reached_spec(head: Vec3, food: Vec3) -> bool {
    let reach = if head.y > food.y { EAT_REACH_ABOVE } else { EAT_REACH };
    manhattan_xy(head, food) <= reach
}

/// Whether a head at `head` hits a body segment at `seg`.
pub open spec fn touches_spec(head: Vec3, seg: Vec3) -> bool {
    dist_sq(head, seg) <= HIT_RADIUS * HIT_RADIUS
}

/// Whether a head at `head` hits any of the segments `segs`.
pub open spec fn collides_spec(head: Vec3, segs: Seq<Vec3>) -> bool {
    exists|i: int| 0 <= i < segs.len() && touches_spec(head, #[trigger] segs[i])
}

pub fn food_reached(head: Vec3, food: Vec3) -> (r: bool)
    ensures
        r == food_reached_spec(head, food),
{
    let reach: i64 = if head.y > food.y { EAT_REACH_ABOVE } else { EAT_REACH };
    manhattan_distance_xy(head, food) <= reach as i128
}

pub fn touches(head: Vec3, seg: Vec3) -> (r: bool)
    ensures
        r == touches_spec(head, seg),
{
    within_radius(head, seg, HIT_RADIUS)
}

pub fn collides(head: Vec3, segs: &Vec<Vec3>) -> (r: bool)
    ensures
        r == collides_spec(head, segs@),
{
    let mut i: usize = 0;
    while i < segs.len()
        invariant
            i <= segs@.len(),
            forall|j: int| 0 <= j < i ==> !touches_spec(head, #[trigger] segs@[j]),
        decreases segs@.len() - i,
    {
        if touches(head, segs[i]) {
            return true;
        }
        i = i + 1;
    }
    false
}

} // verus!
