use snake::{
    collides, food_at, food_reached, gen_food, integrate, manhattan_distance_xy, touches,
    velocity, within_radius, wrap, Game, Heading, TickOutcome, Trail, Vec3,
};

fn v(x: i64, y: i64, z: i64) -> Vec3 {
    Vec3::new(x, y, z)
}

#[test]
fn head_at_rest_stays_put_and_trail_stays_empty() {
    let mut g = Game::new();
    for dt in [0u32, 16, 1000, 60000] {
        let out = g.tick(None, false, dt);
        assert_eq!(out, TickOutcome { ate: false, collided: false });
        assert_eq!(g.position(), v(0, 0, 0));
        assert_eq!(g.trail_len(), 0);
    }
}

#[test]
fn new_game_starting_state() {
    let g = Game::new();
    assert_eq!(g.position(), v(0, 0, 0));
    assert_eq!(g.direction(), v(0, 0, 0));
    assert_eq!(g.segment_count(), 0);
    assert_eq!(g.food(), Some(v(4000, 8000, -2000)));
}

#[test]
fn head_past_right_edge_wraps_to_left_edge() {
    let mut g = Game::from_parts(v(16500, 0, 0), vec![], vec![], None);
    g.step(None, false, 16, v(0, 0, -2000));
    assert_eq!(g.position(), v(-16000, 0, 0));
}

#[test]
fn wraparound_on_every_edge() {
    let cases = [
        (v(-16001, 0, 0), v(16000, 0, 0)),
        (v(0, 9001, 0), v(0, -9000, 0)),
        (v(0, -9500, 7), v(0, 9000, 7)),
        (v(17000, -10000, 0), v(-16000, 9000, 0)),
        (v(16000, 9000, 0), v(16000, 9000, 0)),
    ];
    for (start, end) in cases {
        let mut g = Game::from_parts(start, vec![], vec![], None);
        g.step(None, false, 100, v(0, 0, 0));
        assert_eq!(g.position(), end);
    }
}

#[test]
fn moving_across_an_edge_wraps() {
    let mut g = Game::from_parts(v(15990, 0, 0), vec![], vec![], None);
    g.step(Some(Heading::Right), false, 2, v(0, 0, 0));
    assert_eq!(g.position(), v(16000, 0, 0));
    g.step(None, false, 1, v(0, 0, 0));
    assert_eq!(g.position(), v(-16000, 0, 0));
}

#[test]
fn keys_select_axis_velocities() {
    assert_eq!(velocity(Heading::Up), v(0, 5, 0));
    assert_eq!(velocity(Heading::Down), v(0, -5, 0));
    assert_eq!(velocity(Heading::Left), v(-5, 0, 0));
    assert_eq!(velocity(Heading::Right), v(5, 0, 0));
}

#[test]
fn last_key_press_replaces_direction() {
    let mut g = Game::new();
    g.step(Some(Heading::Up), false, 100, v(0, 0, 0));
    assert_eq!(g.position(), v(0, 500, 0));
    g.step(Some(Heading::Left), false, 100, v(0, 0, 0));
    assert_eq!(g.direction(), v(-5, 0, 0));
    assert_eq!(g.position(), v(-500, 500, 0));
    g.step(None, false, 10, v(0, 0, 0));
    assert_eq!(g.position(), v(-550, 500, 0));
}

#[test]
fn integrate_and_wrap_values() {
    assert_eq!(integrate(v(100, 200, 3), v(0, -5, 0), 10), v(100, 150, 3));
    assert_eq!(integrate(v(0, 8990, 0), v(0, 5, 0), 10), v(0, -9000, 0));
    assert_eq!(wrap(5, 4), -4);
    assert_eq!(wrap(-5, 4), 4);
    assert_eq!(wrap(4, 4), 4);
}

#[test]
fn food_within_reach_is_eaten_and_replaced() {
    let mut g = Game::from_parts(v(0, 0, 0), vec![], vec![], Some(v(300, 0, -2000)));
    let out = g.step(None, false, 0, v(-7000, 2500, -2000));
    assert!(out.ate);
    assert!(!out.collided);
    assert_eq!(g.segment_count(), 1);
    assert_eq!(g.food(), Some(v(-7000, 2500, -2000)));
}

#[test]
fn food_below_head_is_eaten_with_wider_reach() {
    let mut g = Game::from_parts(v(0, 1000, 0), vec![], vec![], Some(v(0, -500, 0)));
    let out = g.step(None, false, 0, v(1000, 1000, -2000));
    assert!(out.ate);
    assert_eq!(g.segment_count(), 1);
    assert_eq!(g.food(), Some(v(1000, 1000, -2000)));
}

#[test]
fn food_above_head_needs_narrow_reach() {
    let mut g = Game::from_parts(v(0, -500, 0), vec![], vec![], Some(v(0, 1000, 0)));
    let out = g.step(None, false, 0, v(1000, 1000, -2000));
    assert!(!out.ate);
    assert_eq!(g.segment_count(), 0);
    assert_eq!(g.food(), Some(v(0, 1000, 0)));
}

#[test]
fn food_reach_thresholds() {
    assert!(food_reached(v(0, 0, 0), v(200, 200, -2000)));
    assert!(!food_reached(v(0, 0, 0), v(201, 200, 0)));
    assert!(food_reached(v(0, 1, 0), v(900, -899, 0)));
    assert!(!food_reached(v(0, 1, 0), v(900, -900, 0)));
    assert_eq!(manhattan_distance_xy(v(3, -4, 100), v(-2, 6, 0)), 15);
}

#[test]
fn no_food_means_no_consumption() {
    let mut g = Game::from_parts(v(0, 0, 0), vec![], vec![], None);
    let out = g.step(None, false, 0, v(1, 1, 1));
    assert!(!out.ate);
    assert_eq!(g.food(), None);
}

#[test]
fn tick_replaces_eaten_food_inside_spawn_area() {
    let mut g = Game::from_parts(v(0, 0, 0), vec![], vec![], Some(v(0, 0, 0)));
    let out = g.tick(None, false, 0);
    assert!(out.ate);
    let f = g.food().unwrap();
    assert!(-15000 <= f.x && f.x < 15000);
    assert!(-4000 <= f.y && f.y < 4000);
    assert_eq!(f.z, -2000);
}

#[test]
fn spawned_food_varies_and_stays_in_area() {
    let mut seen = Vec::new();
    for _ in 0..64 {
        let f = gen_food();
        assert!(-15000 <= f.x && f.x < 15000);
        assert!(-4000 <= f.y && f.y < 4000);
        assert_eq!(f.z, -2000);
        seen.push(f);
    }
    assert!(seen.iter().any(|f| f.x != seen[0].x));
    assert!(seen.iter().any(|f| f.y != seen[0].y));
    assert_eq!(food_at(1, 2), v(1, 2, -2000));
}

#[test]
fn segment_near_head_resets_body() {
    let mut g = Game::from_parts(v(10, 0, 0), vec![], vec![], None);
    g.step(None, true, 0, v(0, 0, 0));
    assert_eq!(g.segment_count(), 1);
    assert_eq!(g.segment(0), v(10, 0, 0));
    let out = g.step(Some(Heading::Right), false, 2, v(0, 0, 0));
    assert_eq!(g.position(), v(20, 0, 0));
    assert!(out.collided);
    assert_eq!(g.segment_count(), 0);
}

#[test]
fn hit_cancels_growth_of_the_same_tick() {
    let mut g = Game::from_parts(v(10, 0, 0), vec![], vec![], Some(v(20, 0, 0)));
    g.step(None, true, 0, v(20, 0, 0));
    assert_eq!(g.segment_count(), 2);
    let out = g.step(Some(Heading::Right), true, 2, v(9000, 0, -2000));
    assert!(out.ate);
    assert!(out.collided);
    assert_eq!(g.segment_count(), 0);
    assert_eq!(g.food(), Some(v(9000, 0, -2000)));
}

#[test]
fn segment_just_out_of_reach_is_no_hit() {
    let mut g = Game::from_parts(v(10, 0, 0), vec![], vec![], None);
    g.step(None, true, 0, v(0, 0, 0));
    let out = g.step(Some(Heading::Right), false, 5, v(0, 0, 0));
    assert!(!out.collided);
    assert_eq!(g.segment_count(), 1);
    assert_eq!(g.segment(0), v(10, 0, 0));
}

#[test]
fn hit_radius_values() {
    assert!(touches(v(0, 0, 0), v(10, 0, 0)));
    assert!(touches(v(0, 0, 0), v(12, 16, 0)));
    assert!(!touches(v(0, 0, 0), v(12, 16, 1)));
    assert!(within_radius(v(i64::MAX, 0, 0), v(i64::MAX, 0, 0), 0));
    assert!(!within_radius(v(i64::MAX, 0, 0), v(i64::MIN, 0, 0), u32::MAX));
    assert!(collides(v(0, 0, 0), &vec![v(100, 0, 0), v(0, 0, 20)]));
    assert!(!collides(v(0, 0, 0), &vec![v(100, 0, 0), v(0, 0, 21)]));
    assert!(!collides(v(0, 0, 0), &vec![]));
}

#[test]
fn trail_does_not_grow_while_head_is_still() {
    let mut g = Game::from_parts(v(500, 500, 0), vec![], vec![], None);
    g.step(None, false, 16, v(0, 0, 0));
    assert_eq!(g.trail_len(), 1);
    g.step(None, false, 16, v(0, 0, 0));
    g.step(None, false, 16, v(0, 0, 0));
    assert_eq!(g.trail_len(), 1);
    g.step(Some(Heading::Down), false, 16, v(0, 0, 0));
    assert_eq!(g.trail_len(), 1);
    g.step(None, false, 16, v(0, 0, 0));
    assert_eq!(g.trail_len(), 2);
    assert_eq!(g.trail_entry(1), v(500, 420, 0));
}

#[test]
fn segments_follow_the_trail_most_recent_first() {
    let mut g = Game::from_parts(v(0, 0, 0), vec![], vec![], None);
    g.step(Some(Heading::Right), false, 100, v(0, 0, 0));
    g.step(None, true, 100, v(0, 0, 0));
    g.step(None, true, 100, v(0, 0, 0));
    g.step(None, true, 100, v(0, 0, 0));
    assert_eq!(g.segment_count(), 3);
    g.step(None, false, 100, v(0, 0, 0));
    assert_eq!(g.position(), v(2500, 0, 0));
    assert_eq!(g.trail_len(), 4);
    assert_eq!(g.segment(0), v(2000, 0, 0));
    assert_eq!(g.segment(1), v(1500, 0, 0));
    assert_eq!(g.segment(2), v(1000, 0, 0));
    let recent = g.recent_trail(3);
    assert_eq!(recent, vec![v(2000, 0, 0), v(1500, 0, 0), v(1000, 0, 0)]);
}

#[test]
fn new_segment_starts_at_trail_end() {
    let mut g = Game::from_parts(v(0, 0, 0), vec![], vec![], None);
    g.step(Some(Heading::Up), false, 100, v(0, 0, 0));
    g.step(None, true, 100, v(0, 0, 0));
    assert_eq!(g.segment_count(), 1);
    assert_eq!(g.segment(0), v(0, 500, 0));
}

#[test]
fn segment_count_is_growth_since_last_hit() {
    let mut g = Game::from_parts(v(10, 0, 0), vec![], vec![], None);
    g.step(None, true, 0, v(0, 0, 0));
    assert_eq!(g.segment_count(), 1);
    g.step(Some(Heading::Right), true, 2, v(0, 0, 0));
    assert_eq!(g.segment_count(), 0);
    g.step(None, true, 100, v(0, 0, 0));
    g.step(None, true, 100, v(0, 0, 0));
    g.step(None, true, 100, v(0, 0, 0));
    assert_eq!(g.segment_count(), 3);
}

#[test]
fn trail_recent_and_record() {
    let mut t = Trail::new();
    assert_eq!(t.last(), v(0, 0, 0));
    assert!(!t.record(v(0, 0, 0)));
    assert!(t.record(v(1, 0, 0)));
    assert!(!t.record(v(1, 0, 0)));
    assert!(t.record(v(2, 0, 0)));
    assert!(t.record(v(1, 0, 0)));
    assert_eq!(t.len(), 3);
    assert_eq!(t.recent(2), vec![v(1, 0, 0), v(2, 0, 0)]);
    assert_eq!(t.recent(10), vec![v(1, 0, 0), v(2, 0, 0), v(1, 0, 0)]);
    let u = Trail::from_vec(vec![v(5, 5, 5)]);
    assert_eq!(u.get(0), v(5, 5, 5));
    assert!(u.recent(0).is_empty());
}

#[test]
fn reset_removes_all_segments() {
    let mut g = Game::from_parts(v(0, 0, 0), vec![v(1, 1, 1)], vec![v(1, 1, 1), v(2, 2, 2)], None);
    assert_eq!(g.segment_count(), 2);
    g.reset_segments();
    assert_eq!(g.segment_count(), 0);
}
