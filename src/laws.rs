use vstd::prelude::*;
use crate::geometry::{Vec3, origin};
use crate::movement::{Heading, ARENA_HALF_WIDTH, ARENA_HALF_HEIGHT};
use crate::trail::{recorded, last_or_origin, recent_spec};
use crate::game::{GameModel, step_model, step_outcome, growth, repositioned, spawned};

verus! {

/// The inputs of one tick, as `Game::step` takes them.
pub struct TickInput {
    pub key: Option<Heading>,
    pub grow: bool,
    pub dt_ms: u32,
    pub fresh_food: Vec3,
}

/// The state after running the ticks `ins` in order from `g`.
pub open spec fn run(g: GameModel, ins: Seq<TickInput>) -> GameModel
    decreases ins.len(),
{
    if ins.len() == 0 {
        g
    } else {
        let i = ins.last();
        step_model(run(g, ins.drop_last()), i.key, i.grow, i.dt_ms as nat, i.fresh_food)
    }
}

/// The number of growth events (eaten food, growth key) in the ticks `ins`,
/// starting from the segments `g` has, and counted afresh from zero after
/// each tick that detects a hit.
pub open spec fn growth_since_hit(g: GameModel, ins: Seq<TickInput>) -> nat
    decreases ins.len(),
{
    if ins.len() == 0 {
        g.segments.len()
    } else {
        let i = ins.last();
        let out = step_outcome(run(g, ins.drop_last()), i.key, i.grow, i.dt_ms as nat);
        if out.collided {
            0
        } else {
            growth_since_hit(g, ins.drop_last()) + growth(out.ate, i.grow)
        }
    }
}

/// A head past an edge of the arena, standing still, is moved to the
/// opposite edge by one tick, along `x` and along `y` independently.
pub proof fn lemma_wraparound(g: GameModel, grow: bool, dt_ms: u32, fresh_food: Vec3)
    requires
        g.direction == origin(),
    ensures
        ({
            let p = step_model(g, None, grow, dt_ms as nat, fresh_food).position;
            &&& g.position.x > ARENA_HALF_WIDTH ==> p.x == -ARENA_HALF_WIDTH
            &&& g.position.x < -ARENA_HALF_WIDTH ==> p.x == ARENA_HALF_WIDTH
            &&& g.position.y > ARENA_HALF_HEIGHT ==> p.y == -ARENA_HALF_HEIGHT
            &&& g.position.y < -ARENA_HALF_HEIGHT ==> p.y == ARENA_HALF_HEIGHT
        }),
{
}

/// One tick leaves as many segments as the tick grew after the segments
/// already there, or none when it detected a hit.
pub proof fn lemma_step_count(g: GameModel, i: TickInput)
    ensures
        ({
            let out = step_outcome(g, i.key, i.grow, i.dt_ms as nat);
            step_model(g, i.key, i.grow, i.dt_ms as nat, i.fresh_food).segments.len() == if out.collided {
                0
            } else {
                g.segments.len() + growth(out.ate, i.grow)
            }
        }),
{
    let trail = recorded(g.trail, g.position);
    let out = step_outcome(g, i.key, i.grow, i.dt_ms as nat);
    assert(repositioned(g.segments, trail).len() == g.segments.len());
    assert(spawned(growth(out.ate, i.grow), last_or_origin(trail)).len() == growth(out.ate, i.grow));
}

/// After any sequence of ticks, the number of segments equals the number of
/// growth events, counted from the starting segments and reset to zero by
/// each detected hit.
pub proof fn lemma_segment_count(g: GameModel, ins: Seq<TickInput>)
    ensures
        run(g, ins).segments.len() == growth_since_hit(g, ins),
    decreases ins.len(),
{
    if ins.len() > 0 {
        lemma_segment_count(g, ins.drop_last());
        lemma_step_count(run(g, ins.drop_last()), ins.last());
    }
}

/// Seeing the head twice at the same place records it once.
pub proof fn lemma_record_idempotent(t: Seq<Vec3>, p: Vec3)
    ensures
        recorded(recorded(t, p), p) == recorded(t, p),
{
}

/// If a tick leaves the head where it was, the next tick adds nothing to the
/// trail.
pub proof fn lemma_trail_steady(g: GameModel, a: TickInput, b: TickInput)
    requires
        step_model(g, a.key, a.grow, a.dt_ms as nat, a.fresh_food).position == g.position,
    ensures
        ({
            let g1 = step_model(g, a.key, a.grow, a.dt_ms as nat, a.fresh_food);
            step_model(g1, b.key, b.grow, b.dt_ms as nat, b.fresh_food).trail == g1.trail
        }),
{
    lemma_record_idempotent(g.trail, g.position);
}

/// After a tick that neither grows nor detects a hit, with a trail at least
/// as long as the body, the segments stand on the trail's most recent
/// entries, most recent first.
pub proof fn lemma_segments_follow_trail(g: GameModel, i: TickInput)
    requires
        ({
            let out = step_outcome(g, i.key, i.grow, i.dt_ms as nat);
            !out.collided && growth(out.ate, i.grow) == 0
        }),
        recorded(g.trail, g.position).len() >= g.segments.len(),
    ensures
        ({
            let g1 = step_model(g, i.key, i.grow, i.dt_ms as nat, i.fresh_food);
            g1.segments == recent_spec(g1.trail, g1.segments.len())
        }),
{
    let g1 = step_model(g, i.key, i.grow, i.dt_ms as nat, i.fresh_food);
    let trail = recorded(g.trail, g.position);
    assert(spawned(0, last_or_origin(trail)) =~= Seq::<Vec3>::empty());
    assert(g1.segments =~= repositioned(g.segments, trail));
    assert(g1.segments =~= recent_spec(g1.trail, g1.segments.len()));
}

} // verus!
