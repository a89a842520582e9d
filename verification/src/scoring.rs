//! The scoring state machine: edge-triggered detection of an out-of-bounds
//! ball, the ball reset, and the score bookkeeping. The three steps
//! communicate through a list of [`Scored`] events that lives for one tick.

use vstd::prelude::*;

use crate::geometry::Vec2;
use crate::geometry::Vec2Model;
use crate::geometry::vec_within;
use crate::geometry::UNIT;
use crate::geometry::COORD_LIMIT;
use crate::entities::Ball;
use crate::entities::BallModel;
use crate::entities::Scored;
use crate::entities::Scorer;
use crate::entities::ScoreModel;
use crate::entities::reset_velocity;
use crate::world::World;
use crate::world::WorldModel;

verus! {

/// The event one tick's detection step emits: the AI scores once the ball
/// reaches or passes the playfield's right edge, the player once it reaches
/// or passes the left edge, and no event fires strictly inside. Detection
/// reads only the current position, so a tick emits at most one event.
pub open spec fn detect_spec(w: WorldModel) -> Option<Scored> {
    match w.ball {
        Some(b) => if b.position.x >= w.half_width {
            Some(Scored(Scorer::Ai))
        } else if b.position.x <= -w.half_width {
            Some(Scored(Scorer::Player))
        } else {
            None
        },
        None => None,
    }
}

/// The event list a detection outcome contributes to the tick: empty or a
/// single event.
pub open spec fn event_seq(e: Option<Scored>) -> Seq<Scored> {
    match e {
        Some(s) => seq![s],
        None => Seq::empty(),
    }
}

/// Detect a scoring crossing of the playfield's side edges. A missing ball
/// cannot score, and the tick skips this step.
pub fn detect_scoring(world: &World) -> (r: Option<Scored>)
    requires
        match world@.ball {
            Some(b) => vec_within(b.position, COORD_LIMIT as int),
            None => true,
        },
        -COORD_LIMIT <= world@.half_width <= COORD_LIMIT,
    ensures
        r == detect_spec(world@),
{
    match &world.ball {
        Some(b) => {
            if b.position.x >= world.half_width {
                Some(Scored(Scorer::Ai))
            } else if b.position.x <= -world.half_width {
                Some(Scored(Scorer::Player))
            } else {
                None
            }
        },
        None => None,
    }
}

/// The ball after one scoring event is processed: back at the origin, moving
/// one unit per tick upward and toward the side that was scored against.
pub open spec fn reset_one(b: BallModel, who: Scorer) -> BallModel {
    BallModel { position: Vec2Model { x: 0, y: 0 }, velocity: reset_velocity(who), ..b }
}

/// The ball after a list of scoring events is processed in order; a missing
/// ball stays missing.
pub open spec fn reset_events(ball: Option<BallModel>, events: Seq<Scored>) -> Option<BallModel>
    decreases events.len(),
{
    if events.len() == 0 {
        ball
    } else {
        match reset_events(ball, events.drop_last()) {
            Some(b) => Some(reset_one(b, events.last().0)),
            None => None,
        }
    }
}

/// The world after the reset step: only the ball changes.
pub open spec fn reset_spec(w: WorldModel, events: Seq<Scored>) -> WorldModel {
    WorldModel { ball: reset_events(w.ball, events), ..w }
}

/// Reset the ball once for every pending scoring event. A missing ball is
/// skipped, exactly as in detection.
pub fn reset_ball(world: &mut World, events: &Vec<Scored>)
    ensures
        final(world)@ == reset_spec(old(world)@, events@),
{
    let ghost all = events@;
    let mut i: usize = 0;
    while i < events.len()
        invariant
            0 <= i <= events.len(),
            events@ == all,
            world@ == reset_spec(old(world)@, all.take(i as int)),
        decreases events.len() - i,
    {
        let event = events[i];
        match world.ball {
            Some(b) => {
                let velocity: Vec2 = match event.0 {
                    Scorer::Ai => Vec2 { x: -UNIT, y: UNIT },
                    Scorer::Player => Vec2 { x: UNIT, y: UNIT },
                };
                world.ball = Some(Ball { position: Vec2 { x: 0, y: 0 }, velocity, ..b });
            },
            None => {},
        }
        proof {
            assert(all.take(i + 1).drop_last() =~= all.take(i as int));
            assert(all.take(i + 1).last() == all[i as int]);
            assert(world@ =~= reset_spec(old(world)@, all.take(i + 1)));
        }
        i = i + 1;
    }
    proof {
        assert(all.take(events@.len() as int) =~= all);
    }
}

/// How many events in the list credit `who`.
pub open spec fn count_scorer(events: Seq<Scored>, who: Scorer) -> int
    decreases events.len(),
{
    if events.len() == 0 {
        0
    } else {
        count_scorer(events.drop_last(), who) + if events.last().0 == who {
            1int
        } else {
            0int
        }
    }
}

/// A count lies between zero and the list's length.
pub proof fn lemma_count_bounds(events: Seq<Scored>, who: Scorer)
    ensures
        0 <= count_scorer(events, who) <= events.len(),
    decreases events.len(),
{
    if events.len() > 0 {
        lemma_count_bounds(events.drop_last(), who);
    }
}

/// A prefix never counts more than the whole list.
pub proof fn lemma_count_prefix(events: Seq<Scored>, i: int, who: Scorer)
    requires
        0 <= i <= events.len(),
    ensures
        count_scorer(events.take(i), who) <= count_scorer(events, who),
    decreases events.len(),
{
    if i == events.len() {
        assert(events.take(i) =~= events);
    } else {
        assert(events.drop_last().take(i) =~= events.take(i));
        lemma_count_prefix(events.drop_last(), i, who);
    }
}

/// The score after a list of events is processed: each counter grows by the
/// number of events crediting its side.
pub open spec fn score_events(s: ScoreModel, events: Seq<Scored>) -> ScoreModel {
    ScoreModel {
        player: s.player + count_scorer(events, Scorer::Player),
        ai: s.ai + count_scorer(events, Scorer::Ai),
    }
}

/// The world after the score-update step: only the score changes.
pub open spec fn update_score_spec(w: WorldModel, events: Seq<Scored>) -> WorldModel {
    WorldModel { score: score_events(w.score, events), ..w }
}

/// Credit one point for every pending scoring event.
pub fn update_score(world: &mut World, events: &Vec<Scored>)
    requires
        old(world)@.score.player + count_scorer(events@, Scorer::Player) <= u32::MAX,
        old(world)@.score.ai + count_scorer(events@, Scorer::Ai) <= u32::MAX,
    ensures
        final(world)@ == update_score_spec(old(world)@, events@),
{
    let ghost all = events@;
    let mut i: usize = 0;
    while i < events.len()
        invariant
            0 <= i <= events.len(),
            events@ == all,
            old(world)@.score.player + count_scorer(all, Scorer::Player) <= u32::MAX,
            old(world)@.score.ai + count_scorer(all, Scorer::Ai) <= u32::MAX,
            world@ == update_score_spec(old(world)@, all.take(i as int)),
        decreases events.len() - i,
    {
        proof {
            assert(all.take(i + 1).drop_last() =~= all.take(i as int));
            assert(all.take(i + 1).last() == all[i as int]);
            lemma_count_bounds(all.take(i + 1), Scorer::Player);
            lemma_count_bounds(all.take(i + 1), Scorer::Ai);
            lemma_count_prefix(all, i + 1, Scorer::Player);
            lemma_count_prefix(all, i + 1, Scorer::Ai);
        }
        let event = events[i];
        match event.0 {
            Scorer::Ai => {
                world.score.ai = world.score.ai + 1;
            },
            Scorer::Player => {
                world.score.player = world.score.player + 1;
            },
        }
        proof {
            assert(world@ =~= update_score_spec(old(world)@, all.take(i + 1)));
        }
        i = i + 1;
    }
    proof {
        assert(all.take(events@.len() as int) =~= all);
    }
}

} // verus!
