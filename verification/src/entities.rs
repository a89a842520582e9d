//! The entities of the playfield and their mathematical models.

use vstd::prelude::*;

use crate::geometry::Vec2;
use crate::geometry::Vec2Model;
use crate::geometry::vec_within;
use crate::geometry::UNIT;

verus! {

/// Half-extent of the ball's bounding box, in subunits (full size 5 by 5 units).
pub const BALL_HALF_WIDTH: i64 = 25_000;

/// Half-extent of the ball's bounding box along `y`.
pub const BALL_HALF_HEIGHT: i64 = 25_000;

/// Horizontal half-extent of a paddle (full width 10 units).
pub const PADDLE_HALF_WIDTH: i64 = 50_000;

/// Vertical half-extent of a paddle (full height 50 units).
pub const PADDLE_HALF_HEIGHT: i64 = 250_000;

/// Full height of a gutter strip (20 units).
pub const GUTTER_HEIGHT: i64 = 200_000;

/// Vertical half-extent of a gutter strip.
pub const GUTTER_HALF_HEIGHT: i64 = 100_000;

/// Distance of each paddle's centre from its playfield edge (50 units).
pub const PADDLE_PADDING: i64 = 500_000;

/// Per-tick multiplier applied to a paddle's velocity when it moves.
pub const PADDLE_SPEED: i64 = 1;

/// Horizontal component of the ball's velocity when it first spawns
/// (1 unit per tick).
pub const SPAWN_VELOCITY_X: i64 = 10_000;

/// Vertical component of the ball's velocity when it first spawns
/// (1.1725 units per tick).
pub const SPAWN_VELOCITY_Y: i64 = 11_725;

/// Which side scored.
#[derive(Clone, Copy, PartialEq, Eq, Structural, Debug)]
pub enum Scorer {
    Ai,
    Player,
}

/// A scoring event: produced by detection when the ball leaves the playfield,
/// consumed by the reset and score-update steps within the same tick.
#[derive(Clone, Copy, PartialEq, Eq, Structural, Debug)]
pub struct Scored(pub Scorer);

/// The ball: a moving axis-aligned box.
#[derive(Clone, Copy, PartialEq, Eq, Structural, Debug)]
pub struct Ball {
    pub position: Vec2,
    pub velocity: Vec2,
    /// Half-extent of the bounding box; never changes after creation.
    pub shape: Vec2,
}

/// Model of a [`Ball`] over unbounded integers.
#[verifier::ext_equal]
pub struct BallModel {
    pub position: Vec2Model,
    pub velocity: Vec2Model,
    pub shape: Vec2Model,
}

impl View for Ball {
    type V = BallModel;

    open spec fn view(&self) -> BallModel {
        BallModel { position: self.position@, velocity: self.velocity@, shape: self.shape@ }
    }
}

impl Ball {
    /// A ball at the playfield centre with the given velocity and the fixed
    /// 5-by-5-unit bounding box.
    pub fn new(velocity_x: i64, velocity_y: i64) -> (r: Ball)
        ensures
            r@.position.x == 0,
            r@.position.y == 0,
            r@.velocity.x == velocity_x,
            r@.velocity.y == velocity_y,
            r@.shape.x == BALL_HALF_WIDTH,
            r@.shape.y == BALL_HALF_HEIGHT,
    {
        Ball {
            position: Vec2 { x: 0, y: 0 },
            velocity: Vec2 { x: velocity_x, y: velocity_y },
            shape: Vec2 { x: BALL_HALF_WIDTH, y: BALL_HALF_HEIGHT },
        }
    }
}

/// A paddle: a box that only ever moves vertically.
#[derive(Clone, Copy, PartialEq, Eq, Structural, Debug)]
pub struct Paddle {
    pub position: Vec2,
    pub velocity: Vec2,
    /// Half-extent of the bounding box; never changes after creation.
    pub shape: Vec2,
}

/// Model of a [`Paddle`] over unbounded integers.
#[verifier::ext_equal]
pub struct PaddleModel {
    pub position: Vec2Model,
    pub velocity: Vec2Model,
    pub shape: Vec2Model,
}

impl View for Paddle {
    type V = PaddleModel;

    open spec fn view(&self) -> PaddleModel {
        PaddleModel { position: self.position@, velocity: self.velocity@, shape: self.shape@ }
    }
}

impl Paddle {
    /// A motionless paddle centred at `(x, y)` with the fixed
    /// 10-by-50-unit bounding box.
    pub fn new(x: i64, y: i64) -> (r: Paddle)
        ensures
            r@.position.x == x,
            r@.position.y == y,
            r@.velocity.x == 0,
            r@.velocity.y == 0,
            r@.shape.x == PADDLE_HALF_WIDTH,
            r@.shape.y == PADDLE_HALF_HEIGHT,
    {
        Paddle {
            position: Vec2 { x, y },
            velocity: Vec2 { x: 0, y: 0 },
            shape: Vec2 { x: PADDLE_HALF_WIDTH, y: PADDLE_HALF_HEIGHT },
        }
    }
}

/// A static boundary strip at the top or bottom of the playfield.
#[derive(Clone, Copy, PartialEq, Eq, Structural, Debug)]
pub struct Gutter {
    pub position: Vec2,
    /// Half-extent of the bounding box; never changes after creation.
    pub shape: Vec2,
}

/// Model of a [`Gutter`] over unbounded integers.
#[verifier::ext_equal]
pub struct GutterModel {
    pub position: Vec2Model,
    pub shape: Vec2Model,
}

impl View for Gutter {
    type V = GutterModel;

    open spec fn view(&self) -> GutterModel {
        GutterModel { position: self.position@, shape: self.shape@ }
    }
}

impl Gutter {
    /// A gutter centred at `(x, y)` spanning `half_width` subunits to each
    /// side, with the fixed 20-unit height.
    pub fn new(x: i64, y: i64, half_width: i64) -> (r: Gutter)
        ensures
            r@.position.x == x,
            r@.position.y == y,
            r@.shape.x == half_width,
            r@.shape.y == GUTTER_HALF_HEIGHT,
    {
        Gutter {
            position: Vec2 { x, y },
            shape: Vec2 { x: half_width, y: GUTTER_HALF_HEIGHT },
        }
    }
}

/// The two score counters. They never decrease and are only ever changed by
/// the scoring state machine.
#[derive(Clone, Copy, PartialEq, Eq, Structural, Debug)]
pub struct Score {
    pub player: u32,
    pub ai: u32,
}

/// Model of a [`Score`] over unbounded integers.
#[verifier::ext_equal]
pub struct ScoreModel {
    pub player: int,
    pub ai: int,
}

impl View for Score {
    type V = ScoreModel;

    open spec fn view(&self) -> ScoreModel {
        ScoreModel { player: self.player as int, ai: self.ai as int }
    }
}

impl Score {
    /// Both counters at zero.
    pub fn new() -> (r: Score)
        ensures
            r@.player == 0,
            r@.ai == 0,
    {
        Score { player: 0, ai: 0 }
    }
}

/// Every coordinate of the ball lies within `lim`.
pub open spec fn ball_within(b: BallModel, lim: int) -> bool {
    &&& vec_within(b.position, lim)
    &&& vec_within(b.velocity, lim)
    &&& vec_within(b.shape, lim)
}

/// Every coordinate of the paddle lies within `lim`.
pub open spec fn paddle_within(p: PaddleModel, lim: int) -> bool {
    &&& vec_within(p.position, lim)
    &&& vec_within(p.velocity, lim)
    &&& vec_within(p.shape, lim)
}

/// Every coordinate of the gutter lies within `lim`.
pub open spec fn gutter_within(g: GutterModel, lim: int) -> bool {
    &&& vec_within(g.position, lim)
    &&& vec_within(g.shape, lim)
}

/// The velocity the ball is reset to after `who` scored: one unit per tick
/// upward, and one unit per tick toward the side that scored against.
pub open spec fn reset_velocity(who: Scorer) -> Vec2Model {
    match who {
        Scorer::Ai => Vec2Model { x: -UNIT as int, y: UNIT as int },
        Scorer::Player => Vec2Model { x: UNIT as int, y: UNIT as int },
    }
}

} // verus!
