//! The per-tick systems that steer and move the entities: input mapping for
//! the player's paddle, the bang-bang AI controller, and explicit-Euler
//! movement integration for the ball and the boundary-guarded paddles.

use vstd::prelude::*;

use crate::geometry::Vec2;
use crate::geometry::Vec2Model;
use crate::geometry::sgn;
use crate::geometry::abs_of;
use crate::geometry::vec_within;
use crate::geometry::UNIT;
use crate::geometry::COORD_LIMIT;
use crate::entities::Ball;
use crate::entities::BallModel;
use crate::entities::Paddle;
use crate::entities::PaddleModel;
use crate::entities::paddle_within;
use crate::entities::GUTTER_HEIGHT;
use crate::entities::PADDLE_HALF_HEIGHT;
use crate::entities::PADDLE_SPEED;
use crate::world::World;
use crate::world::WorldModel;

verus! {

/// The paddle velocity a raw key signal maps to: one unit per tick upward
/// while "up" is pressed (taking precedence over "down"), one unit per tick
/// downward while only "down" is pressed, and rest otherwise.
pub open spec fn input_velocity_y(up_pressed: bool, down_pressed: bool) -> int {
    if up_pressed {
        UNIT as int
    } else if down_pressed {
        -UNIT as int
    } else {
        0
    }
}

/// The world after input mapping: the player's paddle takes the vertical
/// velocity the key signal maps to, and nothing else changes.
pub open spec fn player_input_spec(w: WorldModel, up_pressed: bool, down_pressed: bool) -> WorldModel {
    match w.player {
        Some(p) => WorldModel {
            player: Some(
                PaddleModel {
                    velocity: Vec2Model {
                        x: p.velocity.x,
                        y: input_velocity_y(up_pressed, down_pressed),
                    },
                    ..p
                },
            ),
            ..w
        },
        None => w,
    }
}

/// Map the current press state of the two directional keys onto the player's
/// paddle. A missing paddle means nothing to steer, and the tick skips this
/// step.
pub fn handle_player_input(world: &mut World, up_pressed: bool, down_pressed: bool)
    ensures
        final(world)@ == player_input_spec(old(world)@, up_pressed, down_pressed),
{
    match world.player {
        Some(p) => {
            let velocity_y: i64 = if up_pressed {
                UNIT
            } else if down_pressed {
                -UNIT
            } else {
                0
            };
            let updated = Paddle { velocity: Vec2 { x: p.velocity.x, y: velocity_y }, ..p };
            world.player = Some(updated);
            proof {
                assert(world@ =~= player_input_spec(old(world)@, up_pressed, down_pressed));
            }
        },
        None => {},
    }
}

/// The world after AI control: the AI paddle's vertical velocity becomes one
/// unit per tick toward the ball — the sign of the ball's height over the
/// paddle's — and nothing else changes. Without both the ball and the AI
/// paddle the step is a no-op.
pub open spec fn ai_control_spec(w: WorldModel) -> WorldModel {
    match (w.ball, w.ai) {
        (Some(b), Some(p)) => WorldModel {
            ai: Some(
                PaddleModel {
                    velocity: Vec2Model {
                        x: p.velocity.x,
                        y: UNIT * sgn(b.position.y - p.position.y),
                    },
                    ..p
                },
            ),
            ..w
        },
        _ => w,
    }
}

/// Steer the AI paddle toward the ball, one unit per tick, with no
/// prediction and no smoothing.
pub fn move_ai(world: &mut World)
    requires
        match old(world)@.ball {
            Some(b) => vec_within(b.position, COORD_LIMIT as int),
            None => true,
        },
        match old(world)@.ai {
            Some(p) => vec_within(p.position, COORD_LIMIT as int),
            None => true,
        },
    ensures
        final(world)@ == ai_control_spec(old(world)@),
{
    match (world.ball, world.ai) {
        (Some(b), Some(p)) => {
            let diff: i64 = b.position.y - p.position.y;
            let velocity_y: i64 = if diff > 0 {
                UNIT
            } else if diff < 0 {
                -UNIT
            } else {
                0
            };
            let updated = Paddle { velocity: Vec2 { x: p.velocity.x, y: velocity_y }, ..p };
            world.ai = Some(updated);
            proof {
                assert(world@ =~= ai_control_spec(old(world)@));
            }
        },
        _ => {},
    }
}

/// The world after the ball's integration step: its position advances by its
/// velocity, one tick's worth of displacement, and nothing else changes.
pub open spec fn move_ball_spec(w: WorldModel) -> WorldModel {
    match w.ball {
        Some(b) => WorldModel {
            ball: Some(
                BallModel {
                    position: Vec2Model {
                        x: b.position.x + b.velocity.x,
                        y: b.position.y + b.velocity.y,
                    },
                    ..b
                },
            ),
            ..w
        },
        None => w,
    }
}

/// Advance the ball by its per-tick velocity.
pub fn move_ball(world: &mut World)
    requires
        match old(world)@.ball {
            Some(b) => vec_within(b.position, COORD_LIMIT as int) && vec_within(
                b.velocity,
                COORD_LIMIT as int,
            ),
            None => true,
        },
    ensures
        final(world)@ == move_ball_spec(old(world)@),
{
    match world.ball {
        Some(b) => {
            let position = Vec2 { x: b.position.x + b.velocity.x, y: b.position.y + b.velocity.y };
            world.ball = Some(Ball { position, ..b });
            proof {
                assert(world@ =~= move_ball_spec(old(world)@));
            }
        },
        None => {},
    }
}

/// The vertical band a paddle's centre must stay strictly inside: half the
/// playfield height, less the full gutter height, less the paddle's
/// half-height.
pub open spec fn paddle_band(half_height: int) -> int {
    half_height - GUTTER_HEIGHT - PADDLE_HALF_HEIGHT
}

/// One paddle's boundary-guarded integration step: the candidate position is
/// the current one advanced by the velocity times the paddle speed, and the
/// paddle takes it only when the candidate's height stays strictly inside the
/// band; otherwise the whole step is rejected and the paddle does not move.
pub open spec fn step_paddle(p: PaddleModel, half_height: int) -> PaddleModel {
    let candidate = Vec2Model {
        x: p.position.x + p.velocity.x * PADDLE_SPEED,
        y: p.position.y + p.velocity.y * PADDLE_SPEED,
    };
    if abs_of(candidate.y) < paddle_band(half_height) {
        PaddleModel { position: candidate, ..p }
    } else {
        p
    }
}

/// The world after both paddles' integration steps; a missing paddle is
/// skipped.
pub open spec fn move_paddles_spec(w: WorldModel) -> WorldModel {
    WorldModel {
        player: match w.player {
            Some(p) => Some(step_paddle(p, w.half_height)),
            None => None,
        },
        ai: match w.ai {
            Some(p) => Some(step_paddle(p, w.half_height)),
            None => None,
        },
        ..w
    }
}

/// Advance each paddle by its per-tick velocity, rejecting any step whose
/// destination would leave the playfield band between the gutters.
pub fn move_paddles(world: &mut World)
    requires
        match old(world)@.player {
            Some(p) => paddle_within(p, COORD_LIMIT as int),
            None => true,
        },
        match old(world)@.ai {
            Some(p) => paddle_within(p, COORD_LIMIT as int),
            None => true,
        },
        -COORD_LIMIT <= old(world)@.half_height <= COORD_LIMIT,
    ensures
        final(world)@ == move_paddles_spec(old(world)@),
{
    let half_height: i64 = world.half_height;
    match world.player {
        Some(p) => {
            world.player = Some(step_paddle_exec(p, half_height));
        },
        None => {},
    }
    match world.ai {
        Some(p) => {
            world.ai = Some(step_paddle_exec(p, half_height));
        },
        None => {},
    }
    proof {
        assert(world@ =~= move_paddles_spec(old(world)@));
    }
}

/// One paddle's boundary-guarded step.
fn step_paddle_exec(p: Paddle, half_height: i64) -> (r: Paddle)
    requires
        paddle_within(p@, COORD_LIMIT as int),
        -COORD_LIMIT <= half_height <= COORD_LIMIT,
    ensures
        r@ == step_paddle(p@, half_height as int),
{
    let candidate_x: i64 = p.position.x + p.velocity.x * PADDLE_SPEED;
    let candidate_y: i64 = p.position.y + p.velocity.y * PADDLE_SPEED;
    let magnitude: i64 = if candidate_y >= 0 {
        candidate_y
    } else {
        -candidate_y
    };
    if magnitude < half_height - GUTTER_HEIGHT - PADDLE_HALF_HEIGHT {
        let r = Paddle { position: Vec2 { x: candidate_x, y: candidate_y }, ..p };
        proof {
            assert(r@ =~= step_paddle(p@, half_height as int));
        }
        r
    } else {
        p
    }
}

} // verus!
