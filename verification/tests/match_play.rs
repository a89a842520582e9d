use pong_core::entities::{Ball, Score};
use pong_core::geometry::{Vec2, UNIT};
use pong_core::world::World;

#[test]
fn spawn_geometry_for_800_by_600_window() {
    let world = World::new(400 * UNIT, 300 * UNIT);

    let ball = world.ball.unwrap();
    assert_eq!(ball.position, Vec2 { x: 0, y: 0 });
    assert_eq!(ball.velocity, Vec2 { x: 10_000, y: 11_725 });
    assert_eq!(ball.shape, Vec2 { x: 25_000, y: 25_000 });

    let player = world.player.unwrap();
    assert_eq!(player.position, Vec2 { x: 350 * UNIT, y: 0 });
    assert_eq!(player.shape, Vec2 { x: 5 * UNIT, y: 25 * UNIT });

    let ai = world.ai.unwrap();
    assert_eq!(ai.position, Vec2 { x: -350 * UNIT, y: 0 });

    assert_eq!(world.gutters.len(), 2);
    assert_eq!(world.gutters[0].position, Vec2 { x: 0, y: 290 * UNIT });
    assert_eq!(world.gutters[0].shape, Vec2 { x: 400 * UNIT, y: 10 * UNIT });
    assert_eq!(world.gutters[1].position, Vec2 { x: 0, y: -290 * UNIT });

    assert_eq!(world.score.player, 0);
    assert_eq!(world.score.ai, 0);
    assert!(world.within_limits());
}

#[test]
fn free_flight_integrates_velocity_exactly() {
    // An empty playfield far from every edge: constant velocity.
    let mut world = World {
        ball: Some(Ball::new(3 * UNIT, 4 * UNIT)),
        player: None,
        ai: None,
        gutters: Vec::new(),
        score: Score::new(),
        half_width: 4_000_000,
        half_height: 3_000_000,
    };
    for _ in 0..10 {
        world.tick(false, false);
    }
    let ball = world.ball.unwrap();
    assert_eq!(ball.position, Vec2 { x: 30 * UNIT, y: 40 * UNIT });
    assert_eq!(ball.velocity, Vec2 { x: 3 * UNIT, y: 4 * UNIT });
}

#[test]
fn one_crossing_scores_exactly_once() {
    // A motionless ball one subunit beyond the right edge: the next tick
    // scores for the AI once, resets the ball, and later ticks stay quiet.
    let mut world = World {
        ball: None,
        player: None,
        ai: None,
        gutters: Vec::new(),
        score: Score::new(),
        half_width: 4_000_000,
        half_height: 3_000_000,
    };
    let mut ball = Ball::new(0, 0);
    ball.position = Vec2 { x: 4_000_001, y: 0 };
    world.ball = Some(ball);

    world.tick(false, false);
    assert_eq!(world.score.ai, 1);
    assert_eq!(world.score.player, 0);
    let b = world.ball.unwrap();
    assert_eq!(b.position, Vec2 { x: 0, y: 0 });
    assert_eq!(b.velocity, Vec2 { x: -UNIT, y: UNIT });

    // The ball was reset; nothing else may fire.
    for _ in 0..3 {
        world.tick(false, false);
    }
    assert_eq!(world.score.ai, 1);
    assert_eq!(world.score.player, 0);
}

#[test]
fn full_match_first_point_goes_to_the_ai() {
    // An 800-by-600 window. The spawned ball drifts right at one unit per
    // tick; with nobody at the keys it reaches the right edge at tick 400,
    // the AI scores its first point, and the ball is reset leftward.
    let mut world = World::new(400 * UNIT, 300 * UNIT);

    for _ in 0..399 {
        world.tick(false, false);
    }
    assert_eq!(world.score.ai, 0);
    assert_eq!(world.score.player, 0);
    assert_eq!(world.ball.unwrap().position.x, 399 * UNIT);

    world.tick(false, false);
    assert_eq!(world.score.ai, 1);
    assert_eq!(world.score.player, 0);
    let ball = world.ball.unwrap();
    assert_eq!(ball.position, Vec2 { x: 0, y: 0 });
    assert_eq!(ball.velocity, Vec2 { x: -UNIT, y: UNIT });
}

#[test]
fn paddles_stay_inside_the_band_forever() {
    // Hold "up" for a long stretch: the player's paddle climbs and then
    // parks strictly inside the band between the gutters, while the AI
    // paddle chases the ball on its own.
    let mut world = World::new(400 * UNIT, 300 * UNIT);
    let bound: i64 = 300 * UNIT - 20 * UNIT - 25 * UNIT;
    for _ in 0..600 {
        world.tick(true, false);
        let y: i64 = world.player.unwrap().position.y;
        assert!(-bound < y && y < bound);
        let ai_y: i64 = world.ai.unwrap().position.y;
        assert!(-bound < ai_y && ai_y < bound);
    }
    // 254 units up is the last admissible height below the 255-unit bound.
    assert_eq!(world.player.unwrap().position.y, 254 * UNIT);
}

#[test]
fn scoreboard_guard_spots_a_full_counter() {
    let mut world = World::new(400 * UNIT, 300 * UNIT);
    assert!(world.within_limits());
    world.score = Score { player: u32::MAX, ai: 0 };
    assert!(!world.within_limits());
}

#[test]
fn reset_velocity_differs_by_scorer() {
    // After an AI point the ball leaves leftward; after a player point,
    // rightward. Driven through whole ticks.
    let mut world = World::new(400 * UNIT, 300 * UNIT);
    let mut ball = Ball::new(0, 0);
    ball.position = Vec2 { x: -400 * UNIT, y: 0 };
    world.ball = Some(ball);
    world.tick(false, false);
    assert_eq!(world.score.player, 1);
    assert_eq!(world.ball.unwrap().velocity, Vec2 { x: UNIT, y: UNIT });
    assert_eq!(world.score.ai, 0);
}
