use vstd::prelude::*;
use crate::geometry::Vec3;
use crate::movement::{Heading, velocity_of, valid_direction, integrate_spec, velocity, integrate};
use crate::trail::{Trail, last_or_origin, recorded};
use crate::rules::{food_reached_spec, collides_spec, food_reached, collides};
use crate::food::{in_spawn_area, gen_food};

verus! {

/// Where the first food item stands.
pub const INITIAL_FOOD_X: i64 = 4000;

pub const INITIAL_FOOD_Y: i64 = 8000;

pub const INITIAL_FOOD_Z: i64 = -2000;

/// The whole game state, as a mathematical value.
pub struct GameModel {
    pub position: Vec3,
    pub direction: Vec3,
    pub trail: Seq<Vec3>,
    /// Body segment positions, in the order the segments were created.
    pub segments: Seq<Vec3>,
    pub food: Option<Vec3>,
}

/// What a tick detected.
#[derive(Clone, Copy, Debug, PartialEq, Eq, Structural)]
pub struct TickOutcome {
    /// The head reached the food, which was replaced.
    pub ate: bool,
    /// The head hit a body segment, and all segments were removed.
    pub collided: bool,
}

/// Whether a head at `pos` eats the food `food`, if there is any.
pub open spec fn eats(pos: Vec3, food: Option<Vec3>) -> bool {
    match food {
        Some(f) => food_reached_spec(pos, f),
        None => false,
    }
}

/// The segments moved onto the trail: segment `i` takes the `i`-th most
/// recent trail entry; segments beyond the trail's length stay where they are.
pub open spec fn repositioned(segs: Seq<Vec3>, trail: Seq<Vec3>) -> Seq<Vec3> {
    Seq::new(
        segs.len(),
        |i: int|
            if i < trail.len() {
                trail[trail.len() - 1 - i]
            } else {
                segs[i]
            },
    )
}

/// `n` new segments, all at `p`.
pub open spec fn spawned(n: nat, p: Vec3) -> Seq<Vec3> {
    Seq::new(n, |i: int| p)
}

/// The direction after a tick in which `key` was pressed, if any.
pub open spec fn steered(d: Vec3, key: Option<Heading>) -> Vec3 {
    match key {
        Some(h) => velocity_of(h),
        None => d,
    }
}

/// How many segments a tick asks for: one for eaten food, one for the growth key.
pub open spec fn growth(ate: bool, grow: bool) -> nat {
    (if ate { 1nat } else { 0nat }) + (if grow { 1nat } else { 0nat })
}

/// What one tick detects.
pub open spec fn step_outcome(
    g: GameModel,
    key: Option<Heading>,
    grow: bool,
    dt: nat,
) -> TickOutcome {
    let trail = recorded(g.trail, g.position);
    let pos = integrate_spec(g.position, steered(g.direction, key), dt as int);
    TickOutcome {
        ate: eats(pos, g.food),
        collided: collides_spec(pos, repositioned(g.segments, trail)),
    }
}

/// The state after one tick: steer, record the trail and move; test the food
/// and count growth; move the existing segments onto the trail and test for a
/// hit; then add the new segments at the trail's end, or remove all segments
/// after a hit. Eaten food is replaced by `fresh`.
pub open spec fn step_model(
    g: GameModel,
    key: Option<Heading>,
    grow: bool,
    dt: nat,
    fresh: Vec3,
) -> GameModel {
    let d = steered(g.direction, key);
    let trail = recorded(g.trail, g.position);
    let pos = integrate_spec(g.position, d, dt as int);
    let out = step_outcome(g, key, grow, dt);
    let moved = repositioned(g.segments, trail);
    GameModel {
        position: pos,
        direction: d,
        trail,
        segments: if out.collided {
            Seq::empty()
        } else {
            moved + spawned(growth(out.ate, grow), last_or_origin(trail))
        },
        food: if out.ate {
            Some(fresh)
        } else {
            g.food
        },
    }
}

/// The game: a head with its trail and body segments, and one food item.
pub struct Game {
    position: Vec3,
    direction: Vec3,
    trail: Trail,
    segments: Vec<Vec3>,
    food: Option<Vec3>,
}

impl View for Game {
    type V = GameModel;

    closed spec fn view(&self) -> GameModel {
        GameModel {
            position: self.position,
            direction: self.direction,
            trail: self.trail@,
            segments: self.segments@,
            food: self.food,
        }
    }
}

impl Game {
    /// The head's direction is one a key can set, or zero.
    pub open spec fn wf(&self) -> bool {
        valid_direction(self@.direction)
    }

    /// The starting state: the head at rest at the origin with an empty
    /// trail and no segments, the food at its initial place.
    pub fn new() -> (r: Game)
        ensures
            r.wf(),
            r@.position == (Vec3 { x: 0, y: 0, z: 0 }),
            r@.direction == (Vec3 { x: 0, y: 0, z: 0 }),
            r@.trail.len() == 0,
            r@.segments.len() == 0,
            r@.food == Some(Vec3 { x: INITIAL_FOOD_X, y: INITIAL_FOOD_Y, z: INITIAL_FOOD_Z }),
    {
        Game {
            position: Vec3::zero(),
            direction: Vec3::zero(),
            trail: Trail::new(),
            segments: Vec::new(),
            food: Some(Vec3 { x: INITIAL_FOOD_X, y: INITIAL_FOOD_Y, z: INITIAL_FOOD_Z }),
        }
    }

    /// A head at rest at `position`, with the given trail (oldest first),
    /// body segments and food.
    pub fn from_parts(
        position: Vec3,
        trail: Vec<Vec3>,
        segments: Vec<Vec3>,
        food: Option<Vec3>,
    ) -> (r: Game)
        ensures
            r.wf(),
            r@.position == position,
            r@.direction == (Vec3 { x: 0, y: 0, z: 0 }),
            r@.trail == trail@,
            r@.segments == segments@,
            r@.food == food,
    {
        Game { position, direction: Vec3::zero(), trail: Trail::from_vec(trail), segments, food }
    }

    pub fn position(&self) -> (r: Vec3)
        ensures
            r == self@.position,
    {
        self.position
    }

    pub fn direction(&self) -> (r: Vec3)
        ensures
            r == self@.direction,
    {
        self.direction
    }

    pub fn food(&self) -> (r: Option<Vec3>)
        ensures
            r == self@.food,
    {
        self.food
    }

    /// The number of body segments.
    pub fn segment_count(&self) -> (r: usize)
        ensures
            r == self@.segments.len(),
    {
        self.segments.len()
    }

    pub fn segment(&self, i: usize) -> (r: Vec3)
        requires
            i < self@.segments.len(),
        ensures
            r == self@.segments[i as int],
    {
        self.segments[i]
    }

    pub fn trail_len(&self) -> (r: usize)
        ensures
            r == self@.trail.len(),
    {
        self.trail.len()
    }

    pub fn trail_entry(&self, i: usize) -> (r: Vec3)
        requires
            i < self@.trail.len(),
        ensures
            r == self@.trail[i as int],
    {
        self.trail.get(i)
    }

    /// The trail's last `n` entries (all, if fewer), most recent first.
    pub fn recent_trail(&self, n: usize) -> (r: Vec<Vec3>)
        ensures
            r@ == crate::trail::recent_spec(self@.trail, n as nat),
    {
        self.trail.recent(n)
    }

    /// Moves every existing segment onto the trail, most recent entry first.
    fn reposition(&mut self)
        ensures
            final(self)@ == (GameModel {
                segments: repositioned(old(self)@.segments, old(self)@.trail),
                ..old(self)@
            }),
    {
        let n = self.segments.len();
        let len = self.trail.len();
        let ghost segs0 = self.segments@;
        let ghost trail0 = self.trail@;
        let mut i: usize = 0;
        while i < n
            invariant
                n == segs0.len(),
                len == trail0.len(),
                self.trail@ == trail0,
                trail0 == old(self)@.trail,
                segs0 == old(self)@.segments,
                self.position == old(self).position,
                self.direction == old(self).direction,
                self.food == old(self).food,
                i <= n,
                self.segments@.len() == n,
                forall|j: int|
                    0 <= j < n ==> #[trigger] self.segments@[j] == (if j < i {
                        repositioned(segs0, trail0)[j]
                    } else {
                        segs0[j]
                    }),
            decreases n - i,
        {
            if i < len {
                let p = self.trail.get(len - 1 - i);
                self.segments[i] = p;
            }
            i = i + 1;
        }
        assert(self.segments@ =~= repositioned(segs0, trail0));
    }

    /// Adds `n` segments at point `p`.
    fn spawn_segments(&mut self, n: usize, p: Vec3)
        ensures
            final(self)@ == (GameModel {
                segments: old(self)@.segments + spawned(n as nat, p),
                ..old(self)@
            }),
    {
        let ghost segs0 = self.segments@;
        let mut i: usize = 0;
        while i < n
            invariant
                i <= n,
                self.segments@ =~= segs0 + spawned(i as nat, p),
                self.position == old(self).position,
                self.direction == old(self).direction,
                self.trail@ == old(self).trail@,
                self.food == old(self).food,
                segs0 == old(self)@.segments,
            decreases n - i,
        {
            self.segments.push(p);
            i = i + 1;
        }
    }

    /// Removes every body segment.
    pub fn reset_segments(&mut self)
        ensures
            final(self)@ == (GameModel { segments: Seq::empty(), ..old(self)@ }),
            final(self).wf() == old(self).wf(),
    {
        self.segments = Vec::new();
        assert(self@.segments =~= Seq::<Vec3>::empty());
    }

    /// Runs one tick of `dt_ms` milliseconds, in which `key` was pressed (if
    /// any) and the growth key was pressed if `grow`; eaten food is replaced
    /// by `fresh_food`.
    pub fn step(&mut self, key: Option<Heading>, grow: bool, dt_ms: u32, fresh_food: Vec3) -> (r:
        TickOutcome)
        requires
            old(self).wf(),
        ensures
            final(self).wf(),
            final(self)@ == step_model(old(self)@, key, grow, dt_ms as nat, fresh_food),
            r == step_outcome(old(self)@, key, grow, dt_ms as nat),
    {
        match key {
            Some(h) => {
                self.direction = velocity(h);
            },
            None => {},
        }
        self.trail.record(self.position);
        self.position = integrate(self.position, self.direction, dt_ms);
        let ate = match self.food {
            Some(f) => food_reached(self.position, f),
            None => false,
        };
        let mut n: usize = 0;
        if ate {
            n = n + 1;
            self.food = Some(fresh_food);
        }
        if grow {
            n = n + 1;
        }
        self.reposition();
        let collided = collides(self.position, &self.segments);
        if collided {
            self.reset_segments();
        } else {
            let p = self.trail.last();
            self.spawn_segments(n, p);
        }
        TickOutcome { ate, collided }
    }

    /// Runs one tick as `step` does, drawing the replacement food at random
    /// within the spawn area.
    pub fn tick(&mut self, key: Option<Heading>, grow: bool, dt_ms: u32) -> (r: TickOutcome)
        requires
            old(self).wf(),
        ensures
            final(self).wf(),
            exists|f: Vec3|
                in_spawn_area(f) && final(self)@ == #[trigger] step_model(
                    old(self)@,
                    key,
                    grow,
                    dt_ms as nat,
                    f,
                ),
            r == step_outcome(old(self)@, key, grow, dt_ms as nat),
    {
        let fresh = gen_food();
        self.step(key, grow, dt_ms, fresh)
    }
}

} // verus!
