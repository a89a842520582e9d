//! The world: every entity, the score, and the playfield extent, together
//! with the tick scheduler that runs the systems in their fixed order.

use vstd::prelude::*;

use crate::geometry::Vec2Model;
use crate::geometry::vec_within;
use crate::geometry::WORLD_LIMIT;
use crate::geometry::COORD_LIMIT;
use crate::entities::Ball;
use crate::entities::BallModel;
use crate::entities::Paddle;
use crate::entities::PaddleModel;
use crate::entities::Gutter;
use crate::entities::GutterModel;
use crate::entities::Score;
use crate::entities::ScoreModel;
use crate::entities::Scored;
use crate::entities::ball_within;
use crate::entities::paddle_within;
use crate::entities::gutter_within;
use crate::entities::BALL_HALF_WIDTH;
use crate::entities::BALL_HALF_HEIGHT;
use crate::entities::PADDLE_HALF_WIDTH;
use crate::entities::PADDLE_HALF_HEIGHT;
use crate::entities::GUTTER_HALF_HEIGHT;
use crate::entities::PADDLE_PADDING;
use crate::entities::SPAWN_VELOCITY_X;
use crate::entities::SPAWN_VELOCITY_Y;
use crate::systems::player_input_spec;
use crate::systems::ai_control_spec;
use crate::systems::move_ball_spec;
use crate::systems::move_paddles_spec;
use crate::systems::handle_player_input;
use crate::systems::move_ai;
use crate::systems::move_ball;
use crate::systems::move_paddles;
use crate::collision::collision_spec;
use crate::collision::handle_collision;
use crate::collision::lemma_collision_frame;
use crate::scoring::detect_spec;
use crate::scoring::event_seq;
use crate::scoring::reset_spec;
use crate::scoring::update_score_spec;
use crate::scoring::detect_scoring;
use crate::scoring::reset_ball;
use crate::scoring::update_score;
use crate::scoring::lemma_count_bounds;
use crate::entities::Scorer;

verus! {

/// The whole simulation state. Each singleton entity is optional: a system
/// whose entity is absent skips its work for that tick.
pub struct World {
    pub ball: Option<Ball>,
    pub player: Option<Paddle>,
    pub ai: Option<Paddle>,
    pub gutters: Vec<Gutter>,
    pub score: Score,
    /// Half the playfield width, in subunits.
    pub half_width: i64,
    /// Half the playfield height, in subunits.
    pub half_height: i64,
}

/// Model of a [`World`] over unbounded integers.
#[verifier::ext_equal]
pub struct WorldModel {
    pub ball: Option<BallModel>,
    pub player: Option<PaddleModel>,
    pub ai: Option<PaddleModel>,
    pub gutters: Seq<GutterModel>,
    pub score: ScoreModel,
    pub half_width: int,
    pub half_height: int,
}

impl View for World {
    type V = WorldModel;

    open spec fn view(&self) -> WorldModel {
        WorldModel {
            ball: match self.ball {
                Some(b) => Some(b@),
                None => None,
            },
            player: match self.player {
                Some(p) => Some(p@),
                None => None,
            },
            ai: match self.ai {
                Some(p) => Some(p@),
                None => None,
            },
            gutters: self.gutters@.map_values(|g: Gutter| g@),
            score: self.score@,
            half_width: self.half_width as int,
            half_height: self.half_height as int,
        }
    }
}

/// Every coordinate of every entity, and both playfield half-extents, lie
/// within `lim`.
pub open spec fn world_within(w: WorldModel, lim: int) -> bool {
    &&& match w.ball {
        Some(b) => ball_within(b, lim),
        None => true,
    }
    &&& match w.player {
        Some(p) => paddle_within(p, lim),
        None => true,
    }
    &&& match w.ai {
        Some(p) => paddle_within(p, lim),
        None => true,
    }
    &&& forall|i: int| 0 <= i < w.gutters.len() ==> gutter_within(#[trigger] w.gutters[i], lim)
    &&& -lim <= w.half_width <= lim
    &&& -lim <= w.half_height <= lim
}

/// Both score counters have room for another point.
pub open spec fn score_ok(s: ScoreModel) -> bool {
    &&& 0 <= s.player < u32::MAX
    &&& 0 <= s.ai < u32::MAX
}

/// A world the tick scheduler accepts: coordinates within the world limit and
/// score counters with room to grow.
pub open spec fn tick_ready(w: WorldModel) -> bool {
    &&& world_within(w, WORLD_LIMIT as int)
    &&& score_ok(w.score)
}

/// The freshly spawned world for a playfield of the given half-extents: the
/// ball at the centre with the spawn velocity, the player's paddle inset from
/// the right edge, the AI's from the left, one gutter along the top edge and
/// one along the bottom, and both counters at zero.
pub open spec fn initial_world(half_width: int, half_height: int) -> WorldModel {
    WorldModel {
        ball: Some(
            BallModel {
                position: Vec2Model { x: 0, y: 0 },
                velocity: Vec2Model { x: SPAWN_VELOCITY_X as int, y: SPAWN_VELOCITY_Y as int },
                shape: Vec2Model { x: BALL_HALF_WIDTH as int, y: BALL_HALF_HEIGHT as int },
            },
        ),
        player: Some(spawn_paddle(half_width - PADDLE_PADDING)),
        ai: Some(spawn_paddle(-half_width + PADDLE_PADDING)),
        gutters: seq![
            spawn_gutter(half_height - GUTTER_HALF_HEIGHT, half_width),
            spawn_gutter(-half_height + GUTTER_HALF_HEIGHT, half_width),
        ],
        score: ScoreModel { player: 0, ai: 0 },
        half_width: half_width,
        half_height: half_height,
    }
}

/// A freshly spawned, motionless paddle centred at `(x, 0)`.
pub open spec fn spawn_paddle(x: int) -> PaddleModel {
    PaddleModel {
        position: Vec2Model { x: x, y: 0 },
        velocity: Vec2Model { x: 0, y: 0 },
        shape: Vec2Model { x: PADDLE_HALF_WIDTH as int, y: PADDLE_HALF_HEIGHT as int },
    }
}

/// A freshly spawned gutter centred at `(0, y)` spanning the playfield width.
pub open spec fn spawn_gutter(y: int, half_width: int) -> GutterModel {
    GutterModel {
        position: Vec2Model { x: 0, y: y },
        shape: Vec2Model { x: half_width, y: GUTTER_HALF_HEIGHT as int },
    }
}

impl World {
    /// Spawn the world for a playfield with the given half-extents (half the
    /// viewport width and height, in subunits).
    pub fn new(half_width: i64, half_height: i64) -> (r: World)
        requires
            0 <= half_width <= WORLD_LIMIT,
            0 <= half_height <= WORLD_LIMIT,
        ensures
            r@ == initial_world(half_width as int, half_height as int),
            tick_ready(r@),
    {
        let ball = Ball::new(SPAWN_VELOCITY_X, SPAWN_VELOCITY_Y);
        let player = Paddle::new(half_width - PADDLE_PADDING, 0);
        let ai = Paddle::new(-half_width + PADDLE_PADDING, 0);
        let top = Gutter::new(0, half_height - GUTTER_HALF_HEIGHT, half_width);
        let bottom = Gutter::new(0, -half_height + GUTTER_HALF_HEIGHT, half_width);
        let mut gutters: Vec<Gutter> = Vec::new();
        gutters.push(top);
        gutters.push(bottom);
        let r = World {
            ball: Some(ball),
            player: Some(player),
            ai: Some(ai),
            gutters,
            score: Score::new(),
            half_width,
            half_height,
        };
        proof {
            assert(r@ =~~= initial_world(half_width as int, half_height as int));
        }
        r
    }

    /// Whether this world is ready for a tick; the scheduler's precondition,
    /// checked at run time.
    pub fn within_limits(&self) -> (r: bool)
        ensures
            r == tick_ready(self@),
    {
        let ball_ok: bool = match &self.ball {
            Some(b) => vec_within_exec(b.position, WORLD_LIMIT) && vec_within_exec(
                b.velocity,
                WORLD_LIMIT,
            ) && vec_within_exec(b.shape, WORLD_LIMIT),
            None => true,
        };
        let player_ok: bool = match &self.player {
            Some(p) => paddle_within_exec(p),
            None => true,
        };
        let ai_ok: bool = match &self.ai {
            Some(p) => paddle_within_exec(p),
            None => true,
        };
        let mut gutters_ok: bool = true;
        let count: usize = self.gutters.len();
        let mut i: usize = 0;
        while i < count
            invariant
                0 <= i <= count,
                count == self.gutters.len(),
                gutters_ok == forall|j: int|
                    0 <= j < i ==> gutter_within(#[trigger] self@.gutters[j], WORLD_LIMIT as int),
            decreases count - i,
        {
            let g = self.gutters[i];
            proof {
                assert(self@.gutters.len() == self.gutters@.len());
                assert(g@ == self@.gutters[i as int]);
            }
            let this_ok: bool = vec_within_exec(g.position, WORLD_LIMIT) && vec_within_exec(
                g.shape,
                WORLD_LIMIT,
            );
            gutters_ok = gutters_ok && this_ok;
            i = i + 1;
        }
        let field_ok: bool = -WORLD_LIMIT <= self.half_width && self.half_width <= WORLD_LIMIT
            && -WORLD_LIMIT <= self.half_height && self.half_height <= WORLD_LIMIT;
        let counters_ok: bool = self.score.player < u32::MAX && self.score.ai < u32::MAX;
        ball_ok && player_ok && ai_ok && gutters_ok && field_ok && counters_ok
    }

    /// One tick of the simulation, in the fixed schedule: input mapping and
    /// AI control set the paddle velocities; integration moves the ball and
    /// then the paddles; collision resolution adjusts the ball's velocity;
    /// scoring detection emits at most one event, which the reset and
    /// score-update steps consume; and the event list dies with the tick.
    pub fn tick(&mut self, up_pressed: bool, down_pressed: bool)
        requires
            tick_ready(old(self)@),
        ensures
            final(self)@ == tick_spec(old(self)@, up_pressed, down_pressed),
    {
        let ghost w0 = old(self)@;
        let ghost w1 = player_input_spec(w0, up_pressed, down_pressed);
        let ghost w2 = ai_control_spec(w1);
        let ghost w3 = move_ball_spec(w2);
        let ghost w4 = move_paddles_spec(w3);
        let ghost w5 = collision_spec(w4);
        handle_player_input(self, up_pressed, down_pressed);
        proof {
            assert(self@ == w1);
            assert(world_within(w1, WORLD_LIMIT as int));
        }
        move_ai(self);
        proof {
            assert(self@ == w2);
            assert(world_within(w2, WORLD_LIMIT as int));
        }
        move_ball(self);
        proof {
            assert(self@ == w3);
            assert(world_within(w3, COORD_LIMIT as int));
            assert(match w3.player {
                Some(p) => paddle_within(p, WORLD_LIMIT as int),
                None => true,
            });
            assert(match w3.ai {
                Some(p) => paddle_within(p, WORLD_LIMIT as int),
                None => true,
            });
        }
        move_paddles(self);
        proof {
            assert(self@ == w4);
            assert(world_within(w4, COORD_LIMIT as int));
        }
        handle_collision(self);
        proof {
            assert(self@ == w5);
            lemma_collision_frame(w4, COORD_LIMIT as int);
            assert(world_within(w5, COORD_LIMIT as int));
            assert(w5 == world_before_scoring(w0, up_pressed, down_pressed));
        }
        let event = detect_scoring(self);
        let mut events: Vec<Scored> = Vec::new();
        match event {
            Some(e) => {
                events.push(e);
            },
            None => {},
        }
        proof {
            assert(events@ =~= tick_events(w0, up_pressed, down_pressed));
            lemma_count_bounds(events@, Scorer::Player);
            lemma_count_bounds(events@, Scorer::Ai);
        }
        reset_ball(self, &events);
        update_score(self, &events);
        proof {
            assert(self@ =~= tick_spec(w0, up_pressed, down_pressed));
        }
    }
}

/// Both components of `v` lie within `lim` of zero.
fn vec_within_exec(v: crate::geometry::Vec2, lim: i64) -> (r: bool)
    requires
        0 <= lim,
    ensures
        r == vec_within(v@, lim as int),
{
    -lim <= v.x && v.x <= lim && -lim <= v.y && v.y <= lim
}

/// Every coordinate of the paddle lies within the world limit.
fn paddle_within_exec(p: &Paddle) -> (r: bool)
    ensures
        r == paddle_within(p@, WORLD_LIMIT as int),
{
    vec_within_exec(p.position, WORLD_LIMIT) && vec_within_exec(p.velocity, WORLD_LIMIT)
        && vec_within_exec(p.shape, WORLD_LIMIT)
}

/// The world partway through a tick, after movement and collision resolution
/// but before the scoring state machine looks at it.
pub open spec fn world_before_scoring(w: WorldModel, up_pressed: bool, down_pressed: bool) -> WorldModel {
    collision_spec(
        move_paddles_spec(
            move_ball_spec(ai_control_spec(player_input_spec(w, up_pressed, down_pressed))),
        ),
    )
}

/// The scoring events one tick emits: what detection sees after movement and
/// collision resolution — an empty list or a single event.
pub open spec fn tick_events(w: WorldModel, up_pressed: bool, down_pressed: bool) -> Seq<Scored> {
    event_seq(detect_spec(world_before_scoring(w, up_pressed, down_pressed)))
}

/// One whole tick over the model: the systems' transformations composed in
/// the schedule's order, with the tick's own events reset-processed and
/// credited before the list is discarded.
pub open spec fn tick_spec(w: WorldModel, up_pressed: bool, down_pressed: bool) -> WorldModel {
    let mid = world_before_scoring(w, up_pressed, down_pressed);
    let events = tick_events(w, up_pressed, down_pressed);
    update_score_spec(reset_spec(mid, events), events)
}

} // verus!
