use bubble_sim::{
    boxes_overlap, centre_bounds, circles_overlap, overlaps, placement_bounds, respawn_bubble,
    respawn_marks, spawn_bubble, BubbleBundle, Config, OverlapTest, Point, Velocity, TickError,
    Viewport, World,
};

fn bubble(x: i32, y: i32, vx: i32, vy: i32, size: i32) -> BubbleBundle {
    BubbleBundle { position: Point { x, y }, velocity: Velocity { x: vx, y: vy }, size }
}

fn circle_config(slack: i32) -> Config {
    Config { min_size: 5, max_size: 40, max_speed: 30, test: OverlapTest::Circle { slack } }
}

fn box_config(shrink_permille: i32) -> Config {
    Config { min_size: 5, max_size: 80, max_speed: 30, test: OverlapTest::Box { shrink_permille } }
}

const VIEW: Viewport = Viewport { width: 1200, height: 650 };

#[test]
fn circles_fifteen_apart_with_radius_ten_touch_and_first_respawns() {
    let config = circle_config(0);
    let a = bubble(-10, 0, 1, 2, 10);
    let b = bubble(5, 0, 3, 4, 10);
    assert!(circles_overlap(&a, &b, 0));
    assert_eq!(respawn_marks(&vec![a, b], config.test), vec![true, false]);
    let mut world = World { config, bubbles: vec![a, b] };
    world.collide_bubbles(VIEW);
    assert_eq!(world.bubbles.len(), 2);
    assert_eq!(world.bubbles[1], b);
    let r = world.bubbles[0];
    assert!(5 <= r.size && r.size < 40);
    assert!(-30 <= r.velocity.x && r.velocity.x <= 30);
    assert!(-30 <= r.velocity.y && r.velocity.y <= 30);
    assert!(-600 <= r.position.x && r.position.x <= 600);
    assert!(-325 <= r.position.y && r.position.y <= 325);
}

#[test]
fn circle_test_boundary_and_slack() {
    // distance 20, radii sum 20: touching counts
    assert!(circles_overlap(&bubble(0, 0, 0, 0, 10), &bubble(20, 0, 0, 0, 10), 0));
    // distance 21 needs a slack of 1
    assert!(!circles_overlap(&bubble(0, 0, 0, 0, 10), &bubble(21, 0, 0, 0, 10), 0));
    assert!(circles_overlap(&bubble(0, 0, 0, 0, 10), &bubble(21, 0, 0, 0, 10), 1));
    // a 3-4-5 triangle: distance 50
    assert!(circles_overlap(&bubble(0, 0, 0, 0, 25), &bubble(30, 40, 0, 0, 25), 0));
    assert!(!circles_overlap(&bubble(0, 0, 0, 0, 24), &bubble(30, 40, 0, 0, 25), 0));
}

#[test]
fn right_edge_reflects_x_only() {
    let width: i32 = 100;
    let mut world = World {
        config: circle_config(0),
        bubbles: vec![bubble(width / 2 - 2, 0, 3, 7, 5)],
    };
    world.border_collision(Viewport { width: 100, height: 100 });
    assert_eq!(world.bubbles[0].velocity, Velocity { x: -3, y: 7 });
    assert_eq!(world.bubbles[0].position, Point { x: 48, y: 0 });
}

#[test]
fn corner_reflects_both_axes_and_inside_reflects_none() {
    let mut world = World {
        config: circle_config(0),
        bubbles: vec![bubble(-48, 48, -3, 4, 5), bubble(0, 0, -3, 4, 5)],
    };
    world.border_collision(Viewport { width: 100, height: 100 });
    assert_eq!(world.bubbles[0].velocity, Velocity { x: 3, y: -4 });
    assert_eq!(world.bubbles[1].velocity, Velocity { x: -3, y: 4 });
}

#[test]
fn box_extent_meeting_the_edge_reflects() {
    // box test: size is a diameter, so the extent reaches x + 5 = 50
    let mut world = World { config: box_config(150), bubbles: vec![bubble(45, 0, 2, 0, 10), bubble(44, 0, 2, 0, 10)] };
    world.border_collision(Viewport { width: 100, height: 100 });
    assert_eq!(world.bubbles[0].velocity.x, -2);
    assert_eq!(world.bubbles[1].velocity.x, 2);
}

#[test]
fn empty_population_tick_does_nothing() {
    let mut world = World { config: circle_config(0), bubbles: Vec::new() };
    assert_eq!(world.tick(Some(VIEW), 16), Ok(()));
    assert!(world.bubbles.is_empty());
    assert_eq!(world.step(Some(VIEW), 16), Ok(()));
    assert!(world.bubbles.is_empty());
    assert_eq!(respawn_marks(&Vec::new(), OverlapTest::Circle { slack: 0 }), Vec::<bool>::new());
}

#[test]
fn shrunk_hit_boxes_six_apart_intersect() {
    // side 10 shrunk by 20% gives half-extent 4
    let a = bubble(0, 0, 0, 0, 10);
    let b = bubble(6, 0, 0, 0, 10);
    assert!(boxes_overlap(&a, &b, 200));
    assert_eq!(respawn_marks(&vec![a, b], OverlapTest::Box { shrink_permille: 200 }), vec![true, false]);
    // half-extents 4 and 4 with centres 8 apart only share an edge
    assert!(!boxes_overlap(&a, &bubble(8, 0, 0, 0, 10), 200));
    // without the shrink they do intersect
    assert!(boxes_overlap(&a, &bubble(8, 0, 0, 0, 10), 0));
    // both axes must intersect
    assert!(!boxes_overlap(&a, &bubble(6, 9, 0, 0, 10), 200));
}

#[test]
fn move_is_position_plus_velocity_times_dt() {
    let mut world = World {
        config: circle_config(0),
        bubbles: vec![bubble(10, -20, 3, -4, 7), bubble(0, 0, -30, 30, 39)],
    };
    assert!(world.can_move(7));
    assert!(world.move_bubbles(7));
    assert_eq!(world.bubbles[0], bubble(31, -48, 3, -4, 7));
    assert_eq!(world.bubbles[1], bubble(-210, 210, -30, 30, 39));
    assert!(world.move_bubbles(0));
    assert_eq!(world.bubbles[0], bubble(31, -48, 3, -4, 7));
}

#[test]
fn overlap_verdict_is_symmetric_and_repeatable() {
    let a = bubble(3, 4, 1, 1, 12);
    let b = bubble(22, 9, -1, 2, 6);
    for test in [OverlapTest::Circle { slack: 0 }, OverlapTest::Circle { slack: 3 }, OverlapTest::Box { shrink_permille: 150 }] {
        assert_eq!(overlaps(test, &a, &b), overlaps(test, &b, &a));
        assert_eq!(overlaps(test, &a, &b), overlaps(test, &a, &b));
    }
    assert!(!overlaps(OverlapTest::Circle { slack: 0 }, &a, &b));
    assert!(overlaps(OverlapTest::Circle { slack: 3 }, &a, &b));
}

#[test]
fn a_bubble_touching_two_others_is_respawned_once_and_the_rest_kept() {
    let a = bubble(0, 0, 1, 1, 10);
    let b = bubble(15, 0, 1, 1, 10);
    let c = bubble(-15, 0, 1, 1, 10);
    let d = bubble(400, 300, 1, 1, 10);
    assert_eq!(respawn_marks(&vec![a, b, c, d], OverlapTest::Circle { slack: 0 }), vec![true, false, false, false]);
    let mut world = World { config: circle_config(0), bubbles: vec![a, b, c, d] };
    world.collide_bubbles(VIEW);
    assert_eq!(&world.bubbles[1..], &[b, c, d]);
}

#[test]
fn population_stays_the_same_over_many_ticks() {
    let config = circle_config(2);
    let mut world = World::setup(config, VIEW, 50);
    assert_eq!(world.bubbles.len(), 50);
    assert!(world.is_valid());
    for _ in 0..200 {
        assert_eq!(world.tick(Some(VIEW), 1), Ok(()));
        assert_eq!(world.bubbles.len(), 50);
        assert!(world.is_valid());
    }
}

#[test]
fn setup_places_centres_inside_the_viewport() {
    let world = World::setup(box_config(150), VIEW, 300);
    for b in &world.bubbles {
        assert!(-600 <= b.position.x && b.position.x <= 600);
        assert!(-325 <= b.position.y && b.position.y <= 325);
        assert!(5 <= b.size && b.size < 80);
    }
}

#[test]
fn respawned_box_bubble_lies_wholly_inside() {
    let config = box_config(150);
    let vp = Viewport { width: 120, height: 90 };
    for _ in 0..500 {
        let b = respawn_bubble(&config, vp);
        assert!(5 <= b.size && b.size < 80);
        assert!(-30 <= b.velocity.x && b.velocity.x <= 30);
        assert!(-30 <= b.velocity.y && b.velocity.y <= 30);
        assert!(-120 <= 2 * b.position.x - b.size && 2 * b.position.x + b.size <= 120);
        assert!(-90 <= 2 * b.position.y - b.size && 2 * b.position.y + b.size <= 90);
    }
}

#[test]
fn respawned_circle_bubble_has_centre_inside() {
    let config = circle_config(0);
    let vp = Viewport { width: 20, height: 10 };
    for _ in 0..500 {
        let b = respawn_bubble(&config, vp);
        assert!(-10 <= b.position.x && b.position.x <= 10);
        assert!(-5 <= b.position.y && b.position.y <= 5);
        assert!(5 <= b.size && b.size < 40);
        let s = spawn_bubble(&config, vp);
        assert!(-10 <= s.position.x && s.position.x <= 10);
    }
}

#[test]
fn respawn_draws_vary() {
    let config = Config { min_size: 1, max_size: 1000000, max_speed: 1000000, test: OverlapTest::Circle { slack: 0 } };
    let first = respawn_bubble(&config, Viewport { width: 1000000, height: 1000000 });
    let differs = (0..50).any(|_| respawn_bubble(&config, Viewport { width: 1000000, height: 1000000 }) != first);
    assert!(differs);
}

#[test]
fn narrow_viewport_centres_box_bubble() {
    let config = Config { min_size: 50, max_size: 60, max_speed: 1, test: OverlapTest::Box { shrink_permille: 0 } };
    let b = respawn_bubble(&config, Viewport { width: 10, height: 0 });
    assert_eq!(b.position, Point { x: 0, y: 0 });
}

#[test]
fn placement_and_centre_bounds() {
    assert_eq!(placement_bounds(100, 10), (-45, 45));
    assert_eq!(placement_bounds(101, 10), (-45, 45));
    assert_eq!(placement_bounds(10, 10), (0, 0));
    assert_eq!(placement_bounds(11, 10), (0, 0));
    assert_eq!(placement_bounds(5, 10), (0, 0));
    assert_eq!(centre_bounds(101), (-50, 50));
    assert_eq!(centre_bounds(0), (0, 0));
    assert_eq!(centre_bounds(u32::MAX), (-2147483647, 2147483647));
}

#[test]
fn missing_viewport_changes_nothing() {
    let bubbles = vec![bubble(0, 0, 3, 3, 10), bubble(1, 1, 3, 3, 10)];
    let mut world = World { config: circle_config(0), bubbles: bubbles.clone() };
    assert_eq!(world.tick(None, 5), Err(TickError::MissingViewport));
    assert_eq!(world.step(None, 5), Err(TickError::MissingViewport));
    assert_eq!(world.bubbles, bubbles);
}

#[test]
fn move_out_of_range_is_refused() {
    let near_max = i32::MAX - 10;
    let mut world = World { config: circle_config(0), bubbles: vec![bubble(near_max, 0, -30, 0, 5)] };
    // reflection at the right edge turns the bubble towards the limit
    assert_eq!(world.tick(Some(VIEW), 1), Err(TickError::OutOfRange));
    assert_eq!(world.bubbles[0], bubble(near_max, 0, 30, 0, 5));
    assert!(!world.can_move(1));
}

#[test]
fn fixed_step_moves_then_collides() {
    let a = bubble(-30, 0, 10, 0, 10);
    let b = bubble(30, 0, -10, 0, 10);
    let mut world = World { config: circle_config(0), bubbles: vec![a, b] };
    assert_eq!(world.step(Some(VIEW), 2), Ok(()));
    // after the move the centres are 20 apart: the first is respawned
    assert_eq!(world.bubbles[1], bubble(10, 0, -10, 0, 10));
    assert_eq!(world.bubbles.len(), 2);
}

#[test]
fn validity_checks() {
    assert!(circle_config(0).is_valid());
    assert!(!circle_config(-1).is_valid());
    assert!(box_config(999).is_valid());
    assert!(!box_config(1000).is_valid());
    assert!(!Config { min_size: 0, max_size: 10, max_speed: 1, test: OverlapTest::Circle { slack: 0 } }.is_valid());
    assert!(!Config { min_size: 10, max_size: 10, max_speed: 1, test: OverlapTest::Circle { slack: 0 } }.is_valid());
    assert!(!Config { min_size: 1, max_size: 10, max_speed: -1, test: OverlapTest::Circle { slack: 0 } }.is_valid());
    let world = World { config: circle_config(0), bubbles: vec![bubble(0, 0, 31, 0, 10)] };
    assert!(!world.is_valid());
    let world = World { config: circle_config(0), bubbles: vec![bubble(0, 0, 30, -30, 39)] };
    assert!(world.is_valid());
    let world = World { config: circle_config(0), bubbles: vec![bubble(0, 0, 0, 0, 40)] };
    assert!(!world.is_valid());
}

#[test]
fn verdicts_ignore_velocities() {
    let test = OverlapTest::Box { shrink_permille: 150 };
    let slow = vec![bubble(0, 0, 0, 0, 20), bubble(10, 5, 0, 0, 20), bubble(300, 0, 0, 0, 20)];
    let fast = vec![bubble(0, 0, 30, -30, 20), bubble(10, 5, -7, 9, 20), bubble(300, 0, 1, 1, 20)];
    assert_eq!(respawn_marks(&slow, test), vec![true, false, false]);
    assert_eq!(respawn_marks(&slow, test), respawn_marks(&fast, test));
}

#[test]
fn zero_width_viewport_reflects_nothing() {
    let mut world = World { config: circle_config(0), bubbles: vec![bubble(0, 0, 3, 0, 5), bubble(40, -7, -2, 9, 12)] };
    let before = world.bubbles.clone();
    world.border_collision(Viewport { width: 0, height: 650 });
    assert_eq!(world.bubbles, before);
    world.border_collision(Viewport { width: 1200, height: 0 });
    assert_eq!(world.bubbles, before);
}

#[test]
fn zero_size_viewport_respawns_nothing() {
    let a = bubble(-10, 0, 1, 2, 10);
    let b = bubble(5, 0, 3, 4, 10);
    let mut world = World { config: circle_config(0), bubbles: vec![a, b] };
    world.collide_bubbles(Viewport { width: 0, height: 650 });
    assert_eq!(world.bubbles, vec![a, b]);
    world.collide_bubbles(Viewport { width: 0, height: 0 });
    assert_eq!(world.bubbles, vec![a, b]);
}

#[test]
fn zero_size_viewport_tick_only_moves() {
    let a = bubble(-10, 0, 1, 2, 10);
    let b = bubble(5, 0, 3, 4, 10);
    let mut world = World { config: circle_config(0), bubbles: vec![a, b] };
    assert_eq!(world.tick(Some(Viewport { width: 1200, height: 0 }), 2), Ok(()));
    assert_eq!(world.bubbles, vec![bubble(-8, 4, 1, 2, 10), bubble(11, 8, 3, 4, 10)]);
}

#[test]
fn move_that_overflows_changes_nothing() {
    let bubbles = vec![bubble(0, 0, 30, 0, 5), bubble(i32::MAX - 10, 0, 30, 0, 5)];
    let mut world = World { config: circle_config(0), bubbles: bubbles.clone() };
    assert!(!world.move_bubbles(1));
    assert_eq!(world.bubbles, bubbles);
    assert_eq!(world.step(Some(VIEW), 1), Err(TickError::OutOfRange));
    assert_eq!(world.bubbles, bubbles);
}
