use pong_core::collision::{collide, handle_collision, Collision};
use pong_core::entities::{Ball, Gutter, Paddle, Score, Scored, Scorer};
use pong_core::geometry::{Vec2, UNIT};
use pong_core::scoring::{detect_scoring, reset_ball, update_score};
use pong_core::systems::{handle_player_input, move_ai, move_ball, move_paddles};
use pong_core::world::World;

fn bare_world(half_width: i64, half_height: i64) -> World {
    World {
        ball: None,
        player: None,
        ai: None,
        gutters: Vec::new(),
        score: Score::new(),
        half_width,
        half_height,
    }
}

#[test]
fn classifier_rejects_separated_boxes() {
    let half = Vec2 { x: 10_000, y: 10_000 };
    let r = collide(Vec2 { x: 0, y: 0 }, half, Vec2 { x: 50_000, y: 0 }, half);
    assert_eq!(r, None);
}

#[test]
fn classifier_rejects_touching_boxes() {
    let half = Vec2 { x: 10_000, y: 10_000 };
    // Edges exactly coincide: overlap must be strict.
    let r = collide(Vec2 { x: 0, y: 0 }, half, Vec2 { x: 20_000, y: 0 }, half);
    assert_eq!(r, None);
}

#[test]
fn classifier_names_each_side() {
    let small = Vec2 { x: 5_000, y: 5_000 };
    let big = Vec2 { x: 50_000, y: 50_000 };
    let origin = Vec2 { x: 0, y: 0 };
    // Ball straddling the big box's left edge.
    let left = collide(Vec2 { x: -52_000, y: 0 }, small, origin, big);
    assert_eq!(left, Some(Collision::Left));
    // Ball straddling the right edge.
    let right = collide(Vec2 { x: 52_000, y: 0 }, small, origin, big);
    assert_eq!(right, Some(Collision::Right));
    // Ball straddling the top edge.
    let top = collide(Vec2 { x: 0, y: 52_000 }, small, origin, big);
    assert_eq!(top, Some(Collision::Top));
    // Ball straddling the bottom edge.
    let bottom = collide(Vec2 { x: 0, y: -52_000 }, small, origin, big);
    assert_eq!(bottom, Some(Collision::Bottom));
    // Ball wholly inside the big box.
    let inside = collide(origin, small, origin, big);
    assert_eq!(inside, Some(Collision::Inside));
}

#[test]
fn classifier_picks_shallower_axis() {
    let small = Vec2 { x: 5_000, y: 5_000 };
    let big = Vec2 { x: 50_000, y: 50_000 };
    let origin = Vec2 { x: 0, y: 0 };
    // Near the top-left corner, deeper in from the top than from the left.
    let r = collide(Vec2 { x: -53_000, y: 51_000 }, small, origin, big);
    assert_eq!(r, Some(Collision::Left));
    let r2 = collide(Vec2 { x: -51_000, y: 53_000 }, small, origin, big);
    assert_eq!(r2, Some(Collision::Top));
}

#[test]
fn classifier_tie_prefers_horizontal() {
    let small = Vec2 { x: 5_000, y: 5_000 };
    let big = Vec2 { x: 50_000, y: 50_000 };
    let origin = Vec2 { x: 0, y: 0 };
    // Equal penetration depth on both axes.
    let r = collide(Vec2 { x: -52_000, y: 52_000 }, small, origin, big);
    assert_eq!(r, Some(Collision::Left));
}

#[test]
fn resolution_flips_only_left_and_top() {
    let mut world = bare_world(10_000_000, 10_000_000);
    let paddle = Paddle::new(0, 0);

    // Contact on the paddle's left side inverts the horizontal velocity.
    let mut ball = Ball::new(3 * UNIT, 0);
    ball.position = Vec2 { x: -52_000, y: 0 };
    world.ball = Some(ball);
    world.player = Some(paddle);
    handle_collision(&mut world);
    assert_eq!(world.ball.unwrap().velocity, Vec2 { x: -3 * UNIT, y: 0 });

    // Contact on the right side leaves the velocity alone.
    let mut ball = Ball::new(-3 * UNIT, 0);
    ball.position = Vec2 { x: 52_000, y: 0 };
    world.ball = Some(ball);
    handle_collision(&mut world);
    assert_eq!(world.ball.unwrap().velocity, Vec2 { x: -3 * UNIT, y: 0 });

    // Contact on the top inverts the vertical velocity.
    let mut ball = Ball::new(0, -3 * UNIT);
    ball.position = Vec2 { x: 0, y: 252_000 };
    world.ball = Some(ball);
    handle_collision(&mut world);
    assert_eq!(world.ball.unwrap().velocity, Vec2 { x: 0, y: 3 * UNIT });

    // Contact on the bottom leaves the velocity alone.
    let mut ball = Ball::new(0, 3 * UNIT);
    ball.position = Vec2 { x: 0, y: -252_000 };
    world.ball = Some(ball);
    handle_collision(&mut world);
    assert_eq!(world.ball.unwrap().velocity, Vec2 { x: 0, y: 3 * UNIT });
}

#[test]
fn input_mapping_three_states_with_up_precedence() {
    let mut world = bare_world(4_000_000, 3_000_000);
    world.player = Some(Paddle::new(3_500_000, 0));

    handle_player_input(&mut world, true, false);
    assert_eq!(world.player.unwrap().velocity.y, UNIT);

    handle_player_input(&mut world, false, true);
    assert_eq!(world.player.unwrap().velocity.y, -UNIT);

    handle_player_input(&mut world, true, true);
    assert_eq!(world.player.unwrap().velocity.y, UNIT);

    handle_player_input(&mut world, false, false);
    assert_eq!(world.player.unwrap().velocity.y, 0);
}

#[test]
fn ai_controller_follows_sign_of_ball_height() {
    let mut world = bare_world(4_000_000, 3_000_000);
    world.ai = Some(Paddle::new(-3_500_000, 0));

    let mut ball = Ball::new(0, 0);
    ball.position = Vec2 { x: 0, y: 123_456 };
    world.ball = Some(ball);
    move_ai(&mut world);
    assert_eq!(world.ai.unwrap().velocity.y, UNIT);

    let mut ball = Ball::new(0, 0);
    ball.position = Vec2 { x: 0, y: -1 };
    world.ball = Some(ball);
    move_ai(&mut world);
    assert_eq!(world.ai.unwrap().velocity.y, -UNIT);

    let mut ball = Ball::new(0, 0);
    ball.position = Vec2 { x: 0, y: 0 };
    world.ball = Some(ball);
    move_ai(&mut world);
    assert_eq!(world.ai.unwrap().velocity.y, 0);
}

#[test]
fn ball_integration_moves_by_velocity() {
    let mut world = bare_world(4_000_000, 3_000_000);
    let mut ball = Ball::new(7, -13);
    ball.position = Vec2 { x: 1_000, y: 2_000 };
    world.ball = Some(ball);
    move_ball(&mut world);
    assert_eq!(world.ball.unwrap().position, Vec2 { x: 1_007, y: 1_987 });
}

#[test]
fn paddle_step_inside_band_moves() {
    let mut world = bare_world(4_000_000, 3_000_000);
    let mut paddle = Paddle::new(3_500_000, 0);
    paddle.velocity = Vec2 { x: 0, y: UNIT };
    world.player = Some(paddle);
    move_paddles(&mut world);
    assert_eq!(world.player.unwrap().position, Vec2 { x: 3_500_000, y: UNIT });
}

#[test]
fn paddle_step_onto_band_edge_is_rejected_whole() {
    // Band bound for a 600-unit-high playfield: 300 - 20 - 25 = 255 units.
    let mut world = bare_world(4_000_000, 3_000_000);
    let mut paddle = Paddle::new(3_500_000, 2_540_000);
    paddle.velocity = Vec2 { x: 0, y: UNIT };
    world.player = Some(paddle);
    move_paddles(&mut world);
    // Candidate height 255 units is not strictly inside: no movement at all.
    assert_eq!(world.player.unwrap().position, Vec2 { x: 3_500_000, y: 2_540_000 });

    // The same from below.
    let mut paddle = Paddle::new(-3_500_000, -2_540_000);
    paddle.velocity = Vec2 { x: 0, y: -UNIT };
    world.ai = Some(paddle);
    move_paddles(&mut world);
    assert_eq!(world.ai.unwrap().position, Vec2 { x: -3_500_000, y: -2_540_000 });
}

#[test]
fn detection_fires_at_each_edge_only() {
    let mut world = bare_world(4_000_000, 3_000_000);

    let mut ball = Ball::new(0, 0);
    ball.position = Vec2 { x: 3_999_999, y: 0 };
    world.ball = Some(ball);
    assert_eq!(detect_scoring(&world), None);

    let mut ball = Ball::new(0, 0);
    ball.position = Vec2 { x: 4_000_000, y: 0 };
    world.ball = Some(ball);
    assert_eq!(detect_scoring(&world), Some(Scored(Scorer::Ai)));

    let mut ball = Ball::new(0, 0);
    ball.position = Vec2 { x: -4_000_000, y: 0 };
    world.ball = Some(ball);
    assert_eq!(detect_scoring(&world), Some(Scored(Scorer::Player)));

    world.ball = None;
    assert_eq!(detect_scoring(&world), None);
}

#[test]
fn reset_sends_ball_home_toward_scored_against_side() {
    let mut world = bare_world(4_000_000, 3_000_000);
    let mut ball = Ball::new(3 * UNIT, -2 * UNIT);
    ball.position = Vec2 { x: 4_000_001, y: 777 };
    world.ball = Some(ball);

    reset_ball(&mut world, &vec![Scored(Scorer::Ai)]);
    let b = world.ball.unwrap();
    assert_eq!(b.position, Vec2 { x: 0, y: 0 });
    assert_eq!(b.velocity, Vec2 { x: -UNIT, y: UNIT });

    reset_ball(&mut world, &vec![Scored(Scorer::Player)]);
    let b = world.ball.unwrap();
    assert_eq!(b.position, Vec2 { x: 0, y: 0 });
    assert_eq!(b.velocity, Vec2 { x: UNIT, y: UNIT });
}

#[test]
fn score_update_counts_each_side() {
    let mut world = bare_world(4_000_000, 3_000_000);
    update_score(&mut world, &vec![Scored(Scorer::Ai), Scored(Scorer::Player)]);
    assert_eq!(world.score.player, 1);
    assert_eq!(world.score.ai, 1);

    update_score(&mut world, &vec![Scored(Scorer::Ai)]);
    assert_eq!(world.score.player, 1);
    assert_eq!(world.score.ai, 2);

    update_score(&mut world, &Vec::new());
    assert_eq!(world.score.player, 1);
    assert_eq!(world.score.ai, 2);
}
