use vstd::prelude::*;
use crate::ball::{BallPlugin, ball_circle, bounce_all, lemma_bounce_all_keeps_magnitude, moved};
use crate::geometry::{Position, Shape, Vector, Velocity, abs, coord_ok, MAX_COORD, UNITS_PER_PIXEL};
use crate::gutter::GutterPlugin;
use crate::paddle::{PaddlePlugin, ai_speed, paddle_step, player_speed, travel_limit2};
use crate::scorer::{Score, ScorePlugin, Scored, ai_points, lemma_points_bounded, player_points, scored_at, serve_velocity};

verus! {

/// An entity of the playfield: where it is, how it moves, how large it is.
#[derive(Clone, Copy, Debug, PartialEq, Eq, Structural)]
pub struct Body {
    pub position: Position,
    pub velocity: Velocity,
    pub shape: Shape,
}

impl Body {
    pub open spec fn wf(self) -> bool {
        self.position.0.wf() && self.velocity.0.wf() && self.shape.wf()
    }

    pub open spec fn obstacle(self) -> (Position, Shape) {
        (self.position, self.shape)
    }
}

/// Whole state of a game of Pong: the playfield's size, the ball, the two
/// paddles, the two gutters (the top one being the reference for the paddles'
/// travel) and the score.
#[derive(Clone, Copy, Debug, PartialEq, Eq, Structural)]
pub struct Game {
    pub window: Vector,
    pub ball: Body,
    pub player: Body,
    pub ai: Body,
    pub top_gutter: Body,
    pub bottom_gutter: Body,
    pub score: Score,
}

/// The obstacles the ball is checked against, in order.
pub open spec fn obstacles_of(g: Game) -> Seq<(Position, Shape)> {
    seq![g.player.obstacle(), g.ai.obstacle(), g.top_gutter.obstacle(), g.bottom_gutter.obstacle()]
}

/// Signals for an optional point.
pub open spec fn signals(e: Option<Scored>) -> Seq<Scored> {
    match e {
        Some(s) => seq![s],
        None => Seq::empty(),
    }
}

fn abs_i64(v: i64) -> (r: i64)
    requires
        coord_ok(v as int),
    ensures
        r == abs(v as int),
{
    if v < 0 { -v } else { v }
}

fn coord_within(v: i64) -> (r: bool)
    ensures
        r == coord_ok(v as int),
{
    -MAX_COORD <= v && v <= MAX_COORD
}

impl Game {
    pub open spec fn wf(self) -> bool {
        &&& 0 <= self.window.x <= MAX_COORD
        &&& 0 <= self.window.y <= MAX_COORD
        &&& self.ball.wf()
        &&& self.player.wf()
        &&& self.ai.wf()
        &&& self.top_gutter.wf()
        &&& self.bottom_gutter.wf()
    }

    /// Room, within the coordinate range, for every move one tick can make,
    /// and for one more point on each side.
    pub open spec fn can_tick(self) -> bool {
        &&& self.wf()
        &&& coord_ok(abs(self.ball.position.0.x as int) + abs(self.ball.velocity.0.x as int))
        &&& coord_ok(abs(self.ball.position.0.y as int) + abs(self.ball.velocity.0.y as int))
        &&& coord_ok(self.player.position.0.x + self.player.velocity.0.x * PaddlePlugin::SPEED)
        &&& coord_ok(abs(self.player.position.0.y as int) + UNITS_PER_PIXEL * PaddlePlugin::SPEED)
        &&& coord_ok(self.ai.position.0.x + self.ai.velocity.0.x * PaddlePlugin::SPEED)
        &&& coord_ok(abs(self.ai.position.0.y as int) + UNITS_PER_PIXEL * PaddlePlugin::SPEED)
        &&& self.score.player < u32::MAX
        &&& self.score.ai < u32::MAX
    }

    /// Twice the paddles' travel limit.
    pub open spec fn limit2(self) -> int {
        travel_limit2(self.window.y as int, self.top_gutter.shape)
    }

    /// A new game on a playfield `window_width` by `window_height`: the ball
    /// served from the center, the paddles near the side edges, the gutters
    /// along the top and bottom edges, and no points yet.
    pub fn new(window_width: i64, window_height: i64) -> (r: Game)
        requires
            0 <= window_width <= MAX_COORD,
            0 <= window_height <= MAX_COORD,
        ensures
            r.wf(),
            r.window == (Vector { x: window_width, y: window_height }),
            r.score.player == 0,
            r.score.ai == 0,
            r.ball.position.0 == (Vector { x: 0, y: 0 }),
            r.ball.velocity.0 == (Vector { x: UNITS_PER_PIXEL, y: (2 * UNITS_PER_PIXEL) as i64 }),
            r.ball.shape.0 == (Vector { x: BallPlugin::SIZE, y: BallPlugin::SIZE }),
            r.player.position.0 == (Vector {
                x: (window_width / 2 - PaddlePlugin::PADDING) as i64,
                y: 0,
            }),
            r.ai.position.0 == (Vector {
                x: (-(window_width / 2) + PaddlePlugin::PADDING) as i64,
                y: 0,
            }),
            r.player.velocity.0 == (Vector { x: 0, y: 0 }),
            r.ai.velocity.0 == (Vector { x: 0, y: 0 }),
            r.player.shape.0 == (Vector { x: PaddlePlugin::WIDTH, y: PaddlePlugin::HEIGHT }),
            r.ai.shape == r.player.shape,
            r.top_gutter.position.0 == (Vector {
                x: 0,
                y: (window_height / 2 - GutterPlugin::HEIGHT / 2) as i64,
            }),
            r.bottom_gutter.position.0 == (Vector {
                x: 0,
                y: (-(window_height / 2 - GutterPlugin::HEIGHT / 2)) as i64,
            }),
            r.top_gutter.shape.0 == (Vector { x: window_width, y: GutterPlugin::HEIGHT }),
            r.bottom_gutter.shape == r.top_gutter.shape,
            r.top_gutter.velocity.0 == (Vector { x: 0, y: 0 }),
            r.bottom_gutter.velocity.0 == (Vector { x: 0, y: 0 }),
    {
        let (ball_position, ball_velocity, ball_shape) = BallPlugin::spawn_ball();
        let (player, ai) = PaddlePlugin::spawn_paddles(window_width);
        let still = Velocity(Vector::zero());
        let (top, bottom) = GutterPlugin::spawn_gutters(window_width, window_height);
        Game {
            window: Vector::new(window_width, window_height),
            ball: Body { position: ball_position, velocity: ball_velocity, shape: ball_shape },
            player: Body { position: player.0, velocity: player.1, shape: player.2 },
            ai: Body { position: ai.0, velocity: ai.1, shape: ai.2 },
            top_gutter: Body { position: top.0, velocity: still, shape: top.1 },
            bottom_gutter: Body { position: bottom.0, velocity: still, shape: bottom.1 },
            score: Score::default(),
        }
    }

    /// Whether `tick` may run on this state: every value in range, with room
    /// for the moves of one tick and one more point on each side.
    pub fn has_room(&self) -> (r: bool)
        ensures
            r == self.can_tick(),
    {
        let ball_ok = self.ball.position.0.within() && self.ball.velocity.0.within()
            && self.ball.shape.0.within() && self.ball.shape.0.x >= 0 && self.ball.shape.0.y >= 0;
        let player_ok = self.player.position.0.within() && self.player.velocity.0.within()
            && self.player.shape.0.within() && self.player.shape.0.x >= 0
            && self.player.shape.0.y >= 0;
        let ai_ok = self.ai.position.0.within() && self.ai.velocity.0.within()
            && self.ai.shape.0.within() && self.ai.shape.0.x >= 0 && self.ai.shape.0.y >= 0;
        let top_ok = self.top_gutter.position.0.within() && self.top_gutter.velocity.0.within()
            && self.top_gutter.shape.0.within() && self.top_gutter.shape.0.x >= 0
            && self.top_gutter.shape.0.y >= 0;
        let bottom_ok = self.bottom_gutter.position.0.within()
            && self.bottom_gutter.velocity.0.within() && self.bottom_gutter.shape.0.within()
            && self.bottom_gutter.shape.0.x >= 0 && self.bottom_gutter.shape.0.y >= 0;
        let window_ok = 0 <= self.window.x && self.window.x <= MAX_COORD && 0 <= self.window.y
            && self.window.y <= MAX_COORD;
        if !(ball_ok && player_ok && ai_ok && top_ok && bottom_ok && window_ok) {
            return false;
        }
        let paddle_reach = UNITS_PER_PIXEL * PaddlePlugin::SPEED;
        abs_i64(self.ball.position.0.x) + abs_i64(self.ball.velocity.0.x) <= MAX_COORD
            && abs_i64(self.ball.position.0.y) + abs_i64(self.ball.velocity.0.y) <= MAX_COORD
            && coord_within(self.player.position.0.x + self.player.velocity.0.x * PaddlePlugin::SPEED)
            && abs_i64(self.player.position.0.y) + paddle_reach <= MAX_COORD
            && coord_within(self.ai.position.0.x + self.ai.velocity.0.x * PaddlePlugin::SPEED)
            && abs_i64(self.ai.position.0.y) + paddle_reach <= MAX_COORD
            && self.score.player < u32::MAX && self.score.ai < u32::MAX
    }

    /// One tick of play, with `up` and `down` the keys the player holds.
    /// In order: both paddles take their velocity (the player's from the keys,
    /// the AI's toward the ball) and move within their travel limit; the ball
    /// bounces off each paddle and gutter it touches, then moves; a ball past
    /// a side edge gives a point to the other side, which is counted and
    /// re-serves the ball from the center. Returns the point's signal, if any.
    pub fn tick(&mut self, up: bool, down: bool) -> (r: Option<Scored>)
        requires
            old(self).can_tick(),
        ensures
            final(self).wf(),
            final(self).window == old(self).window,
            final(self).top_gutter == old(self).top_gutter,
            final(self).bottom_gutter == old(self).bottom_gutter,
            final(self).ball.shape == old(self).ball.shape,
            final(self).player.shape == old(self).player.shape,
            final(self).ai.shape == old(self).ai.shape,
            final(self).player.velocity.0 == (Vector {
                x: old(self).player.velocity.0.x,
                y: player_speed(up, down) as i64,
            }),
            final(self).ai.velocity.0 == (Vector {
                x: old(self).ai.velocity.0.x,
                y: ai_speed(old(self).ai.position.0.y as int, old(self).ball.position.0.y as int)
                    as i64,
            }),
            final(self).player.position.0 == paddle_step(
                old(self).player.position.0,
                final(self).player.velocity.0,
                old(self).limit2(),
            ),
            final(self).ai.position.0 == paddle_step(
                old(self).ai.position.0,
                final(self).ai.velocity.0,
                old(self).limit2(),
            ),
            ({
                let bounced = bounce_all(
                    old(self).ball.velocity.0,
                    ball_circle(old(self).ball.position, old(self).ball.shape),
                    obstacles_of(*final(self)),
                );
                let next = moved(old(self).ball.position.0, bounced);
                &&& r == (match scored_at(next.x as int, old(self).window.x as int) {
                    Some(s) => Some(Scored(s)),
                    None => None::<Scored>,
                })
                &&& r is None ==> final(self).ball.position.0 == next && final(self).ball.velocity.0
                    == bounced
                &&& r is Some ==> final(self).ball.position.0 == (Vector { x: 0, y: 0 })
                    && final(self).ball.velocity.0 == serve_velocity(r->Some_0.0)
            }),
            final(self).score.player == old(self).score.player + player_points(signals(r)),
            final(self).score.ai == old(self).score.ai + ai_points(signals(r)),
    {
        PaddlePlugin::handle_player_input(up, down, &mut self.player.velocity);
        PaddlePlugin::handle_ai(&mut self.ai.velocity, &self.ai.position, &self.ball.position);
        let gutter = self.top_gutter.shape;
        PaddlePlugin::move_paddle(&mut self.player.position, &self.player.velocity, self.window.y, &gutter);
        PaddlePlugin::move_paddle(&mut self.ai.position, &self.ai.velocity, self.window.y, &gutter);

        let others = vec![
            (self.player.position, self.player.shape),
            (self.ai.position, self.ai.shape),
            (self.top_gutter.position, self.top_gutter.shape),
            (self.bottom_gutter.position, self.bottom_gutter.shape),
        ];
        assert(others@ =~= obstacles_of(*self));
        BallPlugin::handle_collisions(&mut self.ball.velocity, &self.ball.position, &self.ball.shape, &others);
        proof {
            lemma_bounce_all_keeps_magnitude(
                old(self).ball.velocity.0,
                ball_circle(old(self).ball.position, old(self).ball.shape),
                obstacles_of(*self),
            );
        }
        BallPlugin::move_ball(&mut self.ball.position, &self.ball.velocity);

        let event = ScorePlugin::detect_scoring(&self.ball.position, self.window.x);
        let mut events: Vec<Scored> = Vec::new();
        match event {
            Some(e) => events.push(e),
            None => {},
        }
        assert(events@ =~= signals(event));
        ScorePlugin::reset_ball(&mut self.ball.position, &mut self.ball.velocity, &events);
        proof {
            lemma_points_bounded(events@);
        }
        ScorePlugin::update_score(&mut self.score, &events);
        event
    }
}

} // verus!
