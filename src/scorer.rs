use vstd::prelude::*;
use crate::geometry::{Position, Vector, Velocity, UNITS_PER_PIXEL};

verus! {

/// Which side won a point.
#[derive(Clone, Copy, Debug, PartialEq, Eq, Structural)]
pub enum Scorer {
    Ai,
    Player,
}

/// Signal that a side has just won a point.
#[derive(Clone, Copy, Debug, PartialEq, Eq, Structural)]
pub struct Scored(pub Scorer);

/// Points won by each side.
#[derive(Clone, Copy, Debug, PartialEq, Eq, Structural)]
pub struct Score {
    pub player: u32,
    pub ai: u32,
}

impl Default for Score {
    fn default() -> (r: Score)
        ensures
            r.player == 0,
            r.ai == 0,
    {
        Score { player: 0, ai: 0 }
    }
}

/// Scoring: detection, ball reset and point counting.
pub struct ScorePlugin;

/// The side that wins a point with the ball at horizontal position `x`: the
/// AI once the ball is past the right edge, the player once it is past the
/// left edge.
pub open spec fn scored_at(x: int, window_width: int) -> Option<Scorer> {
    if 2 * x > window_width {
        Some(Scorer::Ai)
    } else if 2 * x < -window_width {
        Some(Scorer::Player)
    } else {
        None
    }
}

/// Serve velocity after a point: back toward the side that was scored on.
pub open spec fn serve_velocity(scorer: Scorer) -> Vector {
    match scorer {
        Scorer::Ai => Vector { x: (-UNITS_PER_PIXEL) as i64, y: (2 * UNITS_PER_PIXEL) as i64 },
        Scorer::Player => Vector { x: UNITS_PER_PIXEL, y: (2 * UNITS_PER_PIXEL) as i64 },
    }
}

/// Number of points the AI wins in `events`.
pub open spec fn ai_points(events: Seq<Scored>) -> nat
    decreases events.len(),
{
    if events.len() == 0 {
        0
    } else {
        ai_points(events.drop_last()) + if events.last().0 == Scorer::Ai { 1nat } else { 0nat }
    }
}

/// Number of points the player wins in `events`.
pub open spec fn player_points(events: Seq<Scored>) -> nat
    decreases events.len(),
{
    if events.len() == 0 {
        0
    } else {
        player_points(events.drop_last()) + if events.last().0 == Scorer::Player {
            1nat
        } else {
            0nat
        }
    }
}

impl ScorePlugin {
    /// The scoring signal for the ball at `ball`, in a playfield `window_width`
    /// wide centered on the origin.
    pub fn detect_scoring(ball: &Position, window_width: i64) -> (r: Option<Scored>)
        requires
            ball.0.wf(),
            0 <= window_width <= crate::geometry::MAX_COORD,
        ensures
            r == (match scored_at(ball.0.x as int, window_width as int) {
                Some(s) => Some(Scored(s)),
                None => None::<Scored>,
            }),
    {
        if 2 * ball.0.x > window_width {
            Some(Scored(Scorer::Ai))
        } else if 2 * ball.0.x < -window_width {
            Some(Scored(Scorer::Player))
        } else {
            None
        }
    }

    /// Puts the ball back at the center for each signal, serving toward the
    /// side that was scored on; with no signal the ball is left alone.
    pub fn reset_ball(position: &mut Position, velocity: &mut Velocity, events: &Vec<Scored>)
        ensures
            events@.len() == 0 ==> *final(position) == *old(position) && *final(velocity)
                == *old(velocity),
            events@.len() > 0 ==> final(position).0 == (Vector { x: 0, y: 0 }) && final(velocity).0
                == serve_velocity(events@.last().0),
    {
        let mut i: usize = 0;
        while i < events.len()
            invariant
                0 <= i <= events@.len(),
                i == 0 ==> *position == *old(position) && *velocity == *old(velocity),
                i > 0 ==> position.0 == (Vector { x: 0, y: 0 }) && velocity.0 == serve_velocity(
                    events@[i - 1].0,
                ),
            decreases events@.len() - i,
        {
            position.0 = Vector::zero();
            match events[i].0 {
                Scorer::Ai => velocity.0 = Vector::new(-UNITS_PER_PIXEL, 2 * UNITS_PER_PIXEL),
                Scorer::Player => velocity.0 = Vector::new(UNITS_PER_PIXEL, 2 * UNITS_PER_PIXEL),
            }
            i = i + 1;
        }
    }

    /// Adds one point to the winner of each signal.
    pub fn update_score(score: &mut Score, events: &Vec<Scored>)
        requires
            old(score).player + player_points(events@) <= u32::MAX,
            old(score).ai + ai_points(events@) <= u32::MAX,
        ensures
            final(score).player == old(score).player + player_points(events@),
            final(score).ai == old(score).ai + ai_points(events@),
    {
        let mut i: usize = 0;
        while i < events.len()
            invariant
                0 <= i <= events@.len(),
                old(score).player + player_points(events@) <= u32::MAX,
                old(score).ai + ai_points(events@) <= u32::MAX,
                score.player == old(score).player + player_points(events@.take(i as int)),
                score.ai == old(score).ai + ai_points(events@.take(i as int)),
            decreases events@.len() - i,
        {
            assert(events@.take(i + 1).drop_last() =~= events@.take(i as int));
            proof {
                lemma_score_counts_signals(events@.take(i + 1), events@.skip(i + 1));
                assert(events@.take(i + 1) + events@.skip(i + 1) =~= events@);
            }
            match events[i].0 {
                Scorer::Ai => score.ai = score.ai + 1,
                Scorer::Player => score.player = score.player + 1,
            }
            i = i + 1;
        }
        assert(events@.take(i as int) =~= events@);
    }
}

pub(crate) proof fn lemma_points_bounded(events: Seq<Scored>)
    ensures
        ai_points(events) + player_points(events) == events.len(),
    decreases events.len(),
{
    if events.len() > 0 {
        lemma_points_bounded(events.drop_last());
    }
}

/// Every signal gives exactly one point, so over any run of ticks the total
/// score grows by the number of signals, and neither side's count ever drops:
/// counting two runs of signals one after the other gives the sum of the
/// counts of each.
pub proof fn lemma_score_counts_signals(earlier: Seq<Scored>, later: Seq<Scored>)
    ensures
        ai_points(earlier) + player_points(earlier) == earlier.len(),
        ai_points(earlier + later) == ai_points(earlier) + ai_points(later),
        player_points(earlier + later) == player_points(earlier) + player_points(later),
        ai_points(earlier + later) >= ai_points(earlier),
        player_points(earlier + later) >= player_points(earlier),
    decreases later.len(),
{
    lemma_points_bounded(earlier);
    if later.len() > 0 {
        lemma_score_counts_signals(earlier, later.drop_last());
        assert((earlier + later).drop_last() =~= earlier + later.drop_last());
    } else {
        assert(earlier + later =~= earlier);
    }
}

/// Every signal sent over a run of ticks, tick by tick in order.
pub open spec fn signals_over(ticks: Seq<Seq<Scored>>) -> Seq<Scored>
    decreases ticks.len(),
{
    if ticks.len() == 0 {
        Seq::empty()
    } else {
        signals_over(ticks.drop_last()) + ticks.last()
    }
}

/// Over any number of ticks, each handing its signals to `update_score`, the
/// two counters together grow by the number of signals sent, and at no tick
/// does either counter stand higher than it does at the end.
pub proof fn lemma_score_over_ticks(ticks: Seq<Seq<Scored>>, k: int)
    requires
        0 <= k <= ticks.len(),
    ensures
        ai_points(signals_over(ticks)) + player_points(signals_over(ticks)) == signals_over(
            ticks,
        ).len(),
        ai_points(signals_over(ticks.take(k))) <= ai_points(signals_over(ticks)),
        player_points(signals_over(ticks.take(k))) <= player_points(signals_over(ticks)),
    decreases ticks.len(),
{
    lemma_points_bounded(signals_over(ticks));
    if k < ticks.len() {
        let rest = ticks.drop_last();
        lemma_score_over_ticks(rest, k);
        assert(rest.take(k) =~= ticks.take(k));
        lemma_score_counts_signals(signals_over(rest), ticks.last());
    } else {
        assert(ticks.take(k) =~= ticks);
    }
}

} // verus!
