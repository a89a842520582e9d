//! Axis-aligned bounding-box overlap testing, contact-side classification,
//! and the ball's velocity response.
//!
//! Boxes are given by a centre and a half-extent. A contact is classified by
//! the axis of least penetration; on equal penetration depths the horizontal
//! classification wins. The side names the face of the *other* box that the
//! ball touches: a ball overlapping the left edge of a paddle is `Left`.

use vstd::prelude::*;

use crate::geometry::Vec2;
use crate::geometry::Vec2Model;
use crate::geometry::vec_within;
use crate::geometry::COORD_LIMIT;
use crate::entities::Ball;
use crate::entities::BallModel;
use crate::entities::GutterModel;
use crate::entities::ball_within;
use crate::entities::paddle_within;
use crate::entities::gutter_within;
use crate::world::World;
use crate::world::WorldModel;

verus! {

/// The side of the other box on which the contact lies, or `Inside` when the
/// overlap pins down no side on either axis.
#[derive(Clone, Copy, PartialEq, Eq, Structural, Debug)]
pub enum Collision {
    Left,
    Right,
    Top,
    Bottom,
    Inside,
}

/// The two boxes overlap with positive area: each edge of one lies strictly
/// beyond the opposite edge of the other. Boxes that merely touch do not
/// overlap.
pub open spec fn aabb_overlap(a: Vec2Model, ah: Vec2Model, b: Vec2Model, bh: Vec2Model) -> bool {
    &&& a.x - ah.x < b.x + bh.x
    &&& a.x + ah.x > b.x - bh.x
    &&& a.y - ah.y < b.y + bh.y
    &&& a.y + ah.y > b.y - bh.y
}

/// Horizontal classification of box `a` against box `b`, with its penetration
/// depth: `Left` when `a` straddles `b`'s left edge only, `Right` when it
/// straddles the right edge only, else `Inside` with no depth (treated as
/// infinitely deep).
pub open spec fn x_classification(a: Vec2Model, ah: Vec2Model, b: Vec2Model, bh: Vec2Model) -> (
    Collision,
    Option<int>,
) {
    if a.x - ah.x < b.x - bh.x && a.x + ah.x > b.x - bh.x && a.x + ah.x < b.x + bh.x {
        (Collision::Left, Some((a.x + ah.x) - (b.x - bh.x)))
    } else if a.x - ah.x > b.x - bh.x && a.x - ah.x < b.x + bh.x && a.x + ah.x > b.x + bh.x {
        (Collision::Right, Some((b.x + bh.x) - (a.x - ah.x)))
    } else {
        (Collision::Inside, None)
    }
}

/// Vertical counterpart of [`x_classification`]: `Bottom` when `a` straddles
/// `b`'s bottom edge only, `Top` for the top edge.
pub open spec fn y_classification(a: Vec2Model, ah: Vec2Model, b: Vec2Model, bh: Vec2Model) -> (
    Collision,
    Option<int>,
) {
    if a.y - ah.y < b.y - bh.y && a.y + ah.y > b.y - bh.y && a.y + ah.y < b.y + bh.y {
        (Collision::Bottom, Some((a.y + ah.y) - (b.y - bh.y)))
    } else if a.y - ah.y > b.y - bh.y && a.y - ah.y < b.y + bh.y && a.y + ah.y > b.y + bh.y {
        (Collision::Top, Some((b.y + bh.y) - (a.y - ah.y)))
    } else {
        (Collision::Inside, None)
    }
}

/// Depth order, where a missing depth counts as infinite: `a` is strictly
/// shallower than `b`.
pub open spec fn depth_lt(a: Option<int>, b: Option<int>) -> bool {
    match (a, b) {
        (Some(x), Some(y)) => x < y,
        (Some(_), None) => true,
        _ => false,
    }
}

/// Full classification of box `a` against box `b`: `None` without overlap;
/// otherwise the classification of the strictly shallower axis, with the
/// horizontal one on a tie.
pub open spec fn classify(a: Vec2Model, ah: Vec2Model, b: Vec2Model, bh: Vec2Model) -> Option<
    Collision,
> {
    if !aabb_overlap(a, ah, b, bh) {
        None
    } else {
        let (x_side, x_depth) = x_classification(a, ah, b, bh);
        let (y_side, y_depth) = y_classification(a, ah, b, bh);
        if depth_lt(y_depth, x_depth) {
            Some(y_side)
        } else {
            Some(x_side)
        }
    }
}

/// The ball's velocity after resolving a contact on the given side: a `Left`
/// contact inverts the horizontal velocity and a `Top` contact the vertical
/// one, while `Right`, `Bottom` and `Inside` leave the velocity unchanged.
pub open spec fn resolve_velocity(v: Vec2Model, side: Collision) -> Vec2Model {
    match side {
        Collision::Left => Vec2Model { x: -v.x, ..v },
        Collision::Top => Vec2Model { y: -v.y, ..v },
        Collision::Right => v,
        Collision::Bottom => v,
        Collision::Inside => v,
    }
}

/// The ball after it is tested against one other box: its velocity is
/// resolved when the boxes overlap, and nothing else changes.
pub open spec fn bounce(ball: BallModel, b: Vec2Model, bh: Vec2Model) -> BallModel {
    match classify(ball.position, ball.shape, b, bh) {
        Some(side) => BallModel { velocity: resolve_velocity(ball.velocity, side), ..ball },
        None => ball,
    }
}

/// The ball after it is tested against each gutter in order.
pub open spec fn bounce_gutters(ball: BallModel, gutters: Seq<GutterModel>) -> BallModel
    decreases gutters.len(),
{
    if gutters.len() == 0 {
        ball
    } else {
        let before = bounce_gutters(ball, gutters.drop_last());
        bounce(before, gutters.last().position, gutters.last().shape)
    }
}

/// Overlap test and contact-side classification of the box centred at `a_pos`
/// with half-extent `a_half` against the box at `b_pos` with half-extent
/// `b_half`.
pub fn collide(a_pos: Vec2, a_half: Vec2, b_pos: Vec2, b_half: Vec2) -> (r: Option<Collision>)
    requires
        vec_within(a_pos@, COORD_LIMIT as int),
        vec_within(a_half@, COORD_LIMIT as int),
        vec_within(b_pos@, COORD_LIMIT as int),
        vec_within(b_half@, COORD_LIMIT as int),
    ensures
        r == classify(a_pos@, a_half@, b_pos@, b_half@),
{
    let a_min_x: i64 = a_pos.x - a_half.x;
    let a_max_x: i64 = a_pos.x + a_half.x;
    let a_min_y: i64 = a_pos.y - a_half.y;
    let a_max_y: i64 = a_pos.y + a_half.y;
    let b_min_x: i64 = b_pos.x - b_half.x;
    let b_max_x: i64 = b_pos.x + b_half.x;
    let b_min_y: i64 = b_pos.y - b_half.y;
    let b_max_y: i64 = b_pos.y + b_half.y;

    if !(a_min_x < b_max_x && a_max_x > b_min_x && a_min_y < b_max_y && a_max_y > b_min_y) {
        return None;
    }

    let x_is_left: bool = a_min_x < b_min_x && a_max_x > b_min_x && a_max_x < b_max_x;
    let x_is_right: bool = a_min_x > b_min_x && a_min_x < b_max_x && a_max_x > b_max_x;
    let y_is_bottom: bool = a_min_y < b_min_y && a_max_y > b_min_y && a_max_y < b_max_y;
    let y_is_top: bool = a_min_y > b_min_y && a_min_y < b_max_y && a_max_y > b_max_y;

    let x_depth: Option<i64> = if x_is_left {
        Some(a_max_x - b_min_x)
    } else if x_is_right {
        Some(b_max_x - a_min_x)
    } else {
        None
    };
    let y_depth: Option<i64> = if y_is_bottom {
        Some(a_max_y - b_min_y)
    } else if y_is_top {
        Some(b_max_y - a_min_y)
    } else {
        None
    };

    let y_shallower: bool = match (y_depth, x_depth) {
        (Some(yd), Some(xd)) => yd < xd,
        (Some(_), None) => true,
        _ => false,
    };

    if y_shallower {
        if y_is_bottom {
            Some(Collision::Bottom)
        } else {
            Some(Collision::Top)
        }
    } else {
        if x_is_left {
            Some(Collision::Left)
        } else if x_is_right {
            Some(Collision::Right)
        } else {
            Some(Collision::Inside)
        }
    }
}

/// The ball tested and resolved against one other box.
pub fn bounce_ball(ball: Ball, b_pos: Vec2, b_half: Vec2) -> (r: Ball)
    requires
        ball_within(ball@, COORD_LIMIT as int),
        vec_within(b_pos@, COORD_LIMIT as int),
        vec_within(b_half@, COORD_LIMIT as int),
    ensures
        r@ == bounce(ball@, b_pos@, b_half@),
        ball_within(r@, COORD_LIMIT as int),
{
    match collide(ball.position, ball.shape, b_pos, b_half) {
        Some(side) => {
            let velocity: Vec2 = match side {
                Collision::Left => Vec2 { x: -ball.velocity.x, y: ball.velocity.y },
                Collision::Top => Vec2 { x: ball.velocity.x, y: -ball.velocity.y },
                Collision::Right => ball.velocity,
                Collision::Bottom => ball.velocity,
                Collision::Inside => ball.velocity,
            };
            let r = Ball { velocity, ..ball };
            proof {
                assert(r@ =~= bounce(ball@, b_pos@, b_half@));
            }
            r
        },
        None => ball,
    }
}

/// The world after the collision-resolution step: the ball is tested against
/// the player's paddle, then the AI's paddle, then each gutter in order, its
/// velocity resolving on every contact. Positions are never corrected, and
/// only the ball changes. Without a ball the step is a no-op.
pub open spec fn collision_spec(w: WorldModel) -> WorldModel {
    match w.ball {
        Some(b) => {
            let after_player = match w.player {
                Some(p) => bounce(b, p.position, p.shape),
                None => b,
            };
            let after_ai = match w.ai {
                Some(p) => bounce(after_player, p.position, p.shape),
                None => after_player,
            };
            WorldModel { ball: Some(bounce_gutters(after_ai, w.gutters)), ..w }
        },
        None => w,
    }
}

/// Test the ball against every other shaped entity and resolve its velocity
/// on each contact.
pub fn handle_collision(world: &mut World)
    requires
        match old(world)@.ball {
            Some(b) => ball_within(b, COORD_LIMIT as int),
            None => true,
        },
        match old(world)@.player {
            Some(p) => paddle_within(p, COORD_LIMIT as int),
            None => true,
        },
        match old(world)@.ai {
            Some(p) => paddle_within(p, COORD_LIMIT as int),
            None => true,
        },
        forall|i: int|
            0 <= i < old(world)@.gutters.len() ==> gutter_within(
                #[trigger] old(world)@.gutters[i],
                COORD_LIMIT as int,
            ),
    ensures
        final(world)@ == collision_spec(old(world)@),
{
    let ghost w0 = old(world)@;
    let mut ball = match world.ball {
        Some(b) => b,
        None => {
            return ;
        },
    };
    match world.player {
        Some(p) => {
            ball = bounce_ball(ball, p.position, p.shape);
        },
        None => {},
    }
    match world.ai {
        Some(p) => {
            ball = bounce_ball(ball, p.position, p.shape);
        },
        None => {},
    }
    let ghost base = ball@;
    let count: usize = world.gutters.len();
    let mut i: usize = 0;
    while i < count
        invariant
            0 <= i <= count,
            count == world.gutters.len(),
            *world == *old(world),
            w0 == old(world)@,
            ball_within(ball@, COORD_LIMIT as int),
            ball@ == bounce_gutters(base, w0.gutters.take(i as int)),
            forall|j: int|
                0 <= j < w0.gutters.len() ==> gutter_within(
                    #[trigger] w0.gutters[j],
                    COORD_LIMIT as int,
                ),
        decreases count - i,
    {
        let g = world.gutters[i];
        proof {
            assert(w0.gutters.len() == world.gutters@.len());
            assert(g@ == w0.gutters[i as int]);
            assert(gutter_within(w0.gutters[i as int], COORD_LIMIT as int));
        }
        ball = bounce_ball(ball, g.position, g.shape);
        proof {
            assert(w0.gutters.take(i + 1).drop_last() =~= w0.gutters.take(i as int));
            assert(w0.gutters.take(i + 1).last() == w0.gutters[i as int]);
        }
        i = i + 1;
    }
    proof {
        assert(w0.gutters.take(count as int) =~= w0.gutters);
    }
    world.ball = Some(ball);
    proof {
        assert(world@ =~= collision_spec(w0));
    }
}

/// Resolution never moves the ball: a fold of bounces leaves its position
/// and shape untouched, and velocities within a bound stay within it, since
/// each contact at most flips a component's sign.
pub proof fn lemma_bounce_gutters_frame(ball: BallModel, gutters: Seq<GutterModel>, lim: int)
    ensures
        bounce_gutters(ball, gutters).position == ball.position,
        bounce_gutters(ball, gutters).shape == ball.shape,
        ball_within(ball, lim) ==> ball_within(bounce_gutters(ball, gutters), lim),
    decreases gutters.len(),
{
    if gutters.len() > 0 {
        lemma_bounce_gutters_frame(ball, gutters.drop_last(), lim);
    }
}

/// The collision step changes the ball's velocity at most: every other part
/// of the world, and the ball's position and shape, come through unchanged,
/// and a ball within a bound stays within it.
pub proof fn lemma_collision_frame(w: WorldModel, lim: int)
    ensures
        collision_spec(w).player == w.player,
        collision_spec(w).ai == w.ai,
        collision_spec(w).gutters == w.gutters,
        collision_spec(w).score == w.score,
        collision_spec(w).half_width == w.half_width,
        collision_spec(w).half_height == w.half_height,
        w.ball is None ==> collision_spec(w) == w,
        match (w.ball, collision_spec(w).ball) {
            (Some(b), Some(b2)) => b2.position == b.position && b2.shape == b.shape && (ball_within(
                b,
                lim,
            ) ==> ball_within(b2, lim)),
            (None, None) => true,
            _ => false,
        },
{
    match w.ball {
        Some(b) => {
            let after_player = match w.player {
                Some(p) => bounce(b, p.position, p.shape),
                None => b,
            };
            let after_ai = match w.ai {
                Some(p) => bounce(after_player, p.position, p.shape),
                None => after_player,
            };
            lemma_bounce_gutters_frame(after_ai, w.gutters, lim);
        },
        None => {},
    }
}

/// An overlap is classified and only an overlap is: the classifier answers
/// `Some` side exactly for overlapping boxes, and `None` otherwise.
pub proof fn lemma_classification_totality(a: Vec2Model, ah: Vec2Model, b: Vec2Model, bh: Vec2Model)
    ensures
        classify(a, ah, b, bh) is Some <==> aabb_overlap(a, ah, b, bh),
{
}

} // verus!
