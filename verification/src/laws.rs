//! The library's laws: properties of whole ticks and of runs of ticks,
//! proved from the systems' specifications.

use vstd::prelude::*;

use crate::geometry::Vec2Model;
use crate::geometry::sgn;
use crate::geometry::abs_of;
use crate::geometry::UNIT;
use crate::entities::BallModel;
use crate::entities::PaddleModel;
use crate::entities::GutterModel;
use crate::entities::Scored;
use crate::entities::Scorer;
use crate::entities::reset_velocity;
use crate::collision::classify;
use crate::collision::bounce;
use crate::collision::bounce_gutters;
use crate::collision::lemma_collision_frame;
use crate::systems::player_input_spec;
use crate::systems::ai_control_spec;
use crate::systems::move_ball_spec;
use crate::systems::move_paddles_spec;
use crate::systems::step_paddle;
use crate::systems::paddle_band;
use crate::entities::PADDLE_SPEED;
use crate::scoring::detect_spec;
use crate::scoring::reset_one;
use crate::scoring::reset_events;
use crate::scoring::count_scorer;
use crate::scoring::lemma_count_bounds;
use crate::world::WorldModel;
use crate::world::world_before_scoring;
use crate::world::tick_events;
use crate::world::tick_spec;

verus! {

/// A position integrated for `n` ticks at the constant velocity `v`.
pub open spec fn integrated(p: Vec2Model, v: Vec2Model, n: nat) -> Vec2Model
    decreases n,
{
    if n == 0 {
        p
    } else {
        let prev = integrated(p, v, (n - 1) as nat);
        Vec2Model { x: prev.x + v.x, y: prev.y + v.y }
    }
}

/// Integration in closed form: `n` steps at constant velocity land exactly
/// `n` times the velocity away, componentwise.
pub proof fn lemma_integrated_closed_form(p: Vec2Model, v: Vec2Model, n: nat)
    ensures
        integrated(p, v, n).x == p.x + n * v.x,
        integrated(p, v, n).y == p.y + n * v.y,
    decreases n,
{
    if n == 0 {
        assert(n * v.x == 0 && n * v.y == 0) by (nonlinear_arith)
            requires
                n == 0,
        ;
    } else {
        let m: nat = (n - 1) as nat;
        lemma_integrated_closed_form(p, v, m);
        assert(m * v.x + v.x == n * v.x && m * v.y + v.y == n * v.y) by (nonlinear_arith)
            requires
                n >= 1,
                m == n - 1,
        ;
    }
}

/// The world after `n` ticks with neither key pressed.
pub open spec fn run_free(w: WorldModel, n: nat) -> WorldModel
    decreases n,
{
    if n == 0 {
        w
    } else {
        tick_spec(run_free(w, (n - 1) as nat), false, false)
    }
}

/// The ball misses the box at `pos` with half-extent `shape`.
pub open spec fn ball_avoids(b: BallModel, pos: Vec2Model, shape: Vec2Model) -> bool {
    classify(b.position, b.shape, pos, shape) is None
}

/// During the coming tick (with neither key pressed) nothing touches the
/// ball: it exists, its integrated position overlaps neither paddle nor any
/// gutter, and it stays strictly inside the playfield's side edges.
pub open spec fn ball_clear(w: WorldModel) -> bool {
    let mid = world_before_scoring(w, false, false);
    &&& w.ball is Some
    &&& match mid.ball {
        Some(b) => {
            &&& match mid.player {
                Some(p) => ball_avoids(b, p.position, p.shape),
                None => true,
            }
            &&& match mid.ai {
                Some(p) => ball_avoids(b, p.position, p.shape),
                None => true,
            }
            &&& forall|i: int|
                0 <= i < mid.gutters.len() ==> ball_avoids(
                    b,
                    (#[trigger] mid.gutters[i]).position,
                    mid.gutters[i].shape,
                )
            &&& -mid.half_width < b.position.x < mid.half_width
        },
        None => false,
    }
}

/// A ball that misses every gutter comes through the fold of bounces
/// unchanged.
pub proof fn lemma_bounce_gutters_miss(ball: BallModel, gutters: Seq<GutterModel>)
    requires
        forall|i: int|
            0 <= i < gutters.len() ==> ball_avoids(
                ball,
                (#[trigger] gutters[i]).position,
                gutters[i].shape,
            ),
    ensures
        bounce_gutters(ball, gutters) == ball,
    decreases gutters.len(),
{
    if gutters.len() > 0 {
        assert(forall|i: int|
            0 <= i < gutters.drop_last().len() ==> gutters.drop_last()[i] == gutters[i]);
        lemma_bounce_gutters_miss(ball, gutters.drop_last());
    }
}

/// One unobstructed tick moves the ball by exactly its velocity and keeps
/// that velocity and its shape.
pub proof fn lemma_tick_ball_free(w: WorldModel)
    requires
        ball_clear(w),
    ensures
        match (w.ball, tick_spec(w, false, false).ball) {
            (Some(b0), Some(b1)) => {
                &&& b1.position.x == b0.position.x + b0.velocity.x
                &&& b1.position.y == b0.position.y + b0.velocity.y
                &&& b1.velocity == b0.velocity
                &&& b1.shape == b0.shape
            },
            _ => false,
        },
        tick_spec(w, false, false).score == w.score,
{
    let w3 = move_ball_spec(ai_control_spec(player_input_spec(w, false, false)));
    let w4 = move_paddles_spec(w3);
    let mid = world_before_scoring(w, false, false);
    lemma_collision_frame(w4, 0);
    let moved = w4.ball.unwrap();
    let bmid = mid.ball.unwrap();
    assert(bmid.position == moved.position && bmid.shape == moved.shape);
    assert(match w4.player {
        Some(p) => ball_avoids(moved, p.position, p.shape),
        None => true,
    });
    assert(match w4.ai {
        Some(p) => ball_avoids(moved, p.position, p.shape),
        None => true,
    });
    assert forall|i: int| 0 <= i < w4.gutters.len() implies ball_avoids(
        moved,
        (#[trigger] w4.gutters[i]).position,
        w4.gutters[i].shape,
    ) by {
        assert(ball_avoids(bmid, mid.gutters[i].position, mid.gutters[i].shape));
    }
    let after_player = match w4.player {
        Some(p) => bounce(moved, p.position, p.shape),
        None => moved,
    };
    assert(after_player == moved);
    let after_ai = match w4.ai {
        Some(p) => bounce(after_player, p.position, p.shape),
        None => after_player,
    };
    assert(after_ai == moved);
    lemma_bounce_gutters_miss(moved, w4.gutters);
    assert(mid.ball == Some(moved));
    assert(detect_spec(mid) is None);
    assert(tick_events(w, false, false) =~= Seq::<Scored>::empty());
}

/// Integration law: over any stretch of ticks in which nothing touches the
/// ball and no key is pressed, the ball travels at its constant velocity —
/// after `n` such ticks it sits exactly `n` velocities from where it began.
pub proof fn lemma_integration_law(w: WorldModel, n: nat)
    requires
        w.ball is Some,
        forall|k: nat| k < n ==> ball_clear(#[trigger] run_free(w, k)),
    ensures
        match (w.ball, run_free(w, n).ball) {
            (Some(b0), Some(bn)) => {
                &&& bn.position.x == b0.position.x + n * b0.velocity.x
                &&& bn.position.y == b0.position.y + n * b0.velocity.y
                &&& bn.velocity == b0.velocity
                &&& bn.shape == b0.shape
            },
            _ => false,
        },
    decreases n,
{
    if n > 0 {
        lemma_integration_law(w, (n - 1) as nat);
        assert(ball_clear(run_free(w, (n - 1) as nat)));
        lemma_tick_ball_free(run_free(w, (n - 1) as nat));
        let b0 = w.ball.unwrap();
        assert((n - 1) * b0.velocity.x + b0.velocity.x == n * b0.velocity.x && (n - 1)
            * b0.velocity.y + b0.velocity.y == n * b0.velocity.y) by (nonlinear_arith)
            requires
                n >= 1,
        ;
    }
}

/// Scoring is edge-triggered, one event at most per tick: the tick's event
/// list holds at most one entry, so neither counter can grow by more than
/// one, and together they grow by at most one.
pub proof fn lemma_scoring_edge_trigger(w: WorldModel, up_pressed: bool, down_pressed: bool)
    ensures
        tick_events(w, up_pressed, down_pressed).len() <= 1,
        tick_spec(w, up_pressed, down_pressed).score.ai + tick_spec(
            w,
            up_pressed,
            down_pressed,
        ).score.player <= w.score.ai + w.score.player + 1,
{
    let events = tick_events(w, up_pressed, down_pressed);
    lemma_count_bounds(events, Scorer::Ai);
    lemma_count_bounds(events, Scorer::Player);
    if events.len() == 1 {
        lemma_count_bounds(events.drop_last(), Scorer::Ai);
        lemma_count_bounds(events.drop_last(), Scorer::Player);
        assert(count_scorer(events, Scorer::Ai) + count_scorer(events, Scorer::Player) <= 1);
    }
}

/// Reset correctness: processing one scoring event puts the ball back at the
/// origin with a one-unit-per-tick velocity pointed up and toward the side
/// that was scored against — leftward after the AI scores, rightward after
/// the player does — and leaves its shape alone.
pub proof fn lemma_reset_correctness(b: BallModel, who: Scorer)
    ensures
        reset_one(b, who).position.x == 0,
        reset_one(b, who).position.y == 0,
        reset_one(b, who).velocity == reset_velocity(who),
        who is Ai ==> reset_one(b, who).velocity.x == -UNIT && reset_one(b, who).velocity.y
            == UNIT,
        who is Player ==> reset_one(b, who).velocity.x == UNIT && reset_one(b, who).velocity.y
            == UNIT,
        reset_one(b, who).shape == b.shape,
{
}

/// Reset correctness over a tick: when the tick emits an event, the tick
/// leaves the ball reset for that event's scorer.
pub proof fn lemma_tick_reset(w: WorldModel, up_pressed: bool, down_pressed: bool)
    ensures
        ({
            let mid = world_before_scoring(w, up_pressed, down_pressed);
            let events = tick_events(w, up_pressed, down_pressed);
            events.len() == 1 ==> match mid.ball {
                Some(b) => tick_spec(w, up_pressed, down_pressed).ball == Some(
                    reset_one(b, events[0].0),
                ),
                None => false,
            }
        }),
{
    let mid = world_before_scoring(w, up_pressed, down_pressed);
    let events = tick_events(w, up_pressed, down_pressed);
    if events.len() == 1 {
        assert(events.drop_last().len() == 0);
        assert(reset_events(mid.ball, events.drop_last()) == mid.ball);
        assert(events.last() == events[0]);
    }
}

/// Score bookkeeping: each tick adds to each counter exactly the number of
/// its side's events in that tick's list; in particular neither counter ever
/// decreases.
pub proof fn lemma_score_monotonic(w: WorldModel, up_pressed: bool, down_pressed: bool)
    ensures
        tick_spec(w, up_pressed, down_pressed).score.ai == w.score.ai + count_scorer(
            tick_events(w, up_pressed, down_pressed),
            Scorer::Ai,
        ),
        tick_spec(w, up_pressed, down_pressed).score.player == w.score.player + count_scorer(
            tick_events(w, up_pressed, down_pressed),
            Scorer::Player,
        ),
        tick_spec(w, up_pressed, down_pressed).score.ai >= w.score.ai,
        tick_spec(w, up_pressed, down_pressed).score.player >= w.score.player,
{
    lemma_count_bounds(tick_events(w, up_pressed, down_pressed), Scorer::Ai);
    lemma_count_bounds(tick_events(w, up_pressed, down_pressed), Scorer::Player);
}

/// How many events credited `who` over a run of `n` ticks with neither key
/// pressed.
pub open spec fn run_count(w: WorldModel, n: nat, who: Scorer) -> int
    decreases n,
{
    if n == 0 {
        0
    } else {
        let before = (n - 1) as nat;
        run_count(w, before, who) + count_scorer(
            tick_events(run_free(w, before), false, false),
            who,
        )
    }
}

/// Score bookkeeping over a lifetime: after any run of ticks, each counter
/// is its starting value plus the number of its side's events processed over
/// the whole run — so both counters are non-decreasing for as long as the
/// world runs.
pub proof fn lemma_score_lifetime(w: WorldModel, n: nat)
    ensures
        run_free(w, n).score.ai == w.score.ai + run_count(w, n, Scorer::Ai),
        run_free(w, n).score.player == w.score.player + run_count(w, n, Scorer::Player),
        run_free(w, n).score.ai >= w.score.ai,
        run_free(w, n).score.player >= w.score.player,
    decreases n,
{
    if n > 0 {
        let before = (n - 1) as nat;
        lemma_score_lifetime(w, before);
        lemma_score_monotonic(run_free(w, before), false, false);
    }
}

/// A rejected paddle step is all-or-nothing: a candidate height outside the
/// band leaves the paddle exactly where it was, and a paddle strictly inside
/// the band stays strictly inside it.
pub proof fn lemma_paddle_step(p: PaddleModel, half_height: int)
    ensures
        abs_of(p.position.y + p.velocity.y * PADDLE_SPEED) >= paddle_band(half_height)
            ==> step_paddle(p, half_height) == p,
        abs_of(p.position.y) < paddle_band(half_height) ==> abs_of(
            step_paddle(p, half_height).position.y,
        ) < paddle_band(half_height),
{
}

/// Paddle boundary containment over a tick: a paddle whose height is
/// strictly inside the band between the gutters stays strictly inside it,
/// whatever the keys and the rest of the world do.
pub proof fn lemma_paddle_containment(w: WorldModel, up_pressed: bool, down_pressed: bool)
    ensures
        tick_spec(w, up_pressed, down_pressed).half_height == w.half_height,
        match (w.player, tick_spec(w, up_pressed, down_pressed).player) {
            (Some(p0), Some(p1)) => abs_of(p0.position.y) < paddle_band(w.half_height) ==> abs_of(
                p1.position.y,
            ) < paddle_band(w.half_height),
            (None, None) => true,
            _ => false,
        },
        match (w.ai, tick_spec(w, up_pressed, down_pressed).ai) {
            (Some(p0), Some(p1)) => abs_of(p0.position.y) < paddle_band(w.half_height) ==> abs_of(
                p1.position.y,
            ) < paddle_band(w.half_height),
            (None, None) => true,
            _ => false,
        },
{
    let w4 = move_paddles_spec(
        move_ball_spec(ai_control_spec(player_input_spec(w, up_pressed, down_pressed))),
    );
    lemma_collision_frame(w4, 0);
}

/// AI sign law: after any tick, the AI paddle's vertical velocity is one
/// unit per tick times the sign of the ball's height over the paddle's, both
/// read at the start of that tick.
pub proof fn lemma_ai_sign_law(w: WorldModel, up_pressed: bool, down_pressed: bool)
    requires
        w.ball is Some,
        w.ai is Some,
    ensures
        match (w.ball, w.ai, tick_spec(w, up_pressed, down_pressed).ai) {
            (Some(b), Some(a), Some(a1)) => a1.velocity.y == UNIT * sgn(
                b.position.y - a.position.y,
            ),
            _ => false,
        },
{
    let w4 = move_paddles_spec(
        move_ball_spec(ai_control_spec(player_input_spec(w, up_pressed, down_pressed))),
    );
    lemma_collision_frame(w4, 0);
}

} // verus!
