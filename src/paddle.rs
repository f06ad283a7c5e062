use vstd::prelude::*;
use crate::geometry::{Position, Shape, Vector, Velocity, coord_ok, abs, UNITS_PER_PIXEL};

verus! {

/// Marker for a paddle.
#[derive(Clone, Copy, Debug, PartialEq, Eq, Structural)]
pub struct Paddle;

/// Marker for the paddle the player steers.
#[derive(Clone, Copy, Debug, PartialEq, Eq, Structural)]
pub struct Player;

/// Marker for the paddle the computer steers.
#[derive(Clone, Copy, Debug, PartialEq, Eq, Structural)]
pub struct Ai;

/// Paddle control and motion.
pub struct PaddlePlugin;

/// Vertical velocity the player's input asks for: up wins over down, and no
/// key held stops the paddle.
pub open spec fn player_speed(up: bool, down: bool) -> int {
    if up {
        UNITS_PER_PIXEL as int
    } else if down {
        -UNITS_PER_PIXEL
    } else {
        0
    }
}

/// Vertical velocity of the AI paddle: nine tenths of the player's speed,
/// toward the ball; a ball level with the paddle counts as above it.
pub open spec fn ai_speed(paddle_y: int, ball_y: int) -> int {
    if ball_y - paddle_y >= 0 {
        PaddlePlugin::AI_SPEED as int
    } else {
        -PaddlePlugin::AI_SPEED
    }
}

/// Twice the vertical travel limit of a paddle: the playfield's height less
/// the gutter's height and the paddle's height.
pub open spec fn travel_limit2(window_height: int, gutter: Shape) -> int {
    window_height - gutter.0.y - PaddlePlugin::HEIGHT
}

/// Where a paddle would move this tick.
pub open spec fn candidate(p: Vector, v: Vector) -> Vector {
    Vector {
        x: (p.x + v.x * PaddlePlugin::SPEED) as i64,
        y: (p.y + v.y * PaddlePlugin::SPEED) as i64,
    }
}

/// The candidate position stays within the coordinate range.
pub open spec fn paddle_move_fits(p: Vector, v: Vector) -> bool {
    coord_ok(p.x + v.x * PaddlePlugin::SPEED) && coord_ok(p.y + v.y * PaddlePlugin::SPEED)
}

/// A paddle's position after one tick: the candidate when it lies strictly
/// inside the travel limit, the old position otherwise.
pub open spec fn paddle_step(p: Vector, v: Vector, limit2: int) -> Vector {
    let c = candidate(p, v);
    if abs(2 * c.y) < limit2 {
        c
    } else {
        p
    }
}

impl PaddlePlugin {
    /// Factor applied to a paddle's velocity each tick.
    pub const SPEED: i64 = 2;

    /// Paddle width, in units.
    pub const WIDTH: i64 = 100;

    /// Paddle height, in units.
    pub const HEIGHT: i64 = 500;

    /// Speed of the AI paddle: nine tenths of the player's.
    pub const AI_SPEED: i64 = 9;

    /// Distance from a paddle to its edge of the playfield, in units.
    pub const PADDING: i64 = 500;

    /// The two paddles as they enter play: the player's near the right edge
    /// of a playfield `window_width` wide and the AI's near the left edge, both
    /// level with the center, `WIDTH` by `HEIGHT`, and standing still. Each is
    /// given as position, velocity and shape.
    pub fn spawn_paddles(window_width: i64) -> (r: (
        (Position, Velocity, Shape),
        (Position, Velocity, Shape),
    ))
        requires
            0 <= window_width <= crate::geometry::MAX_COORD,
        ensures
            r.0.0.0 == (Vector { x: (window_width / 2 - Self::PADDING) as i64, y: 0 }),
            r.1.0.0 == (Vector { x: (-(window_width / 2) + Self::PADDING) as i64, y: 0 }),
            r.0.1.0 == (Vector { x: 0, y: 0 }),
            r.1.1.0 == (Vector { x: 0, y: 0 }),
            r.0.2.0 == (Vector { x: Self::WIDTH, y: Self::HEIGHT }),
            r.1.2.0 == (Vector { x: Self::WIDTH, y: Self::HEIGHT }),
            r.0.0.0.wf(),
            r.1.0.0.wf(),
    {
        let half = window_width / 2;
        let shape = Shape(Vector::new(Self::WIDTH, Self::HEIGHT));
        let still = Velocity(Vector::zero());
        (
            (Position(Vector::new(half - Self::PADDING, 0)), still, shape),
            (Position(Vector::new(-half + Self::PADDING, 0)), still, shape),
        )
    }

    /// Sets the player's paddle velocity from the keys held.
    pub fn handle_player_input(up: bool, down: bool, velocity: &mut Velocity)
        ensures
            final(velocity).0.y == player_speed(up, down),
            final(velocity).0.x == old(velocity).0.x,
    {
        if up {
            velocity.0.y = UNITS_PER_PIXEL;
        } else if down {
            velocity.0.y = -UNITS_PER_PIXEL;
        } else {
            velocity.0.y = 0;
        }
    }

    /// Points the AI paddle's velocity toward the ball's height.
    pub fn handle_ai(velocity: &mut Velocity, position: &Position, ball_position: &Position)
        ensures
            final(velocity).0.y == ai_speed(position.0.y as int, ball_position.0.y as int),
            final(velocity).0.x == old(velocity).0.x,
    {
        if ball_position.0.y >= position.0.y {
            velocity.0.y = Self::AI_SPEED;
        } else {
            velocity.0.y = -Self::AI_SPEED;
        }
    }

    /// Moves one paddle by its velocity, unless that would take it to or past
    /// the travel limit, in which case it stays put.
    pub fn move_paddle(
        position: &mut Position,
        velocity: &Velocity,
        window_height: i64,
        gutter: &Shape,
    )
        requires
            old(position).0.wf(),
            velocity.0.wf(),
            paddle_move_fits(old(position).0, velocity.0),
            coord_ok(window_height as int),
            gutter.wf(),
        ensures
            final(position).0 == paddle_step(
                old(position).0,
                velocity.0,
                travel_limit2(window_height as int, *gutter),
            ),
    {
        let cand = Vector {
            x: position.0.x + velocity.0.x * Self::SPEED,
            y: position.0.y + velocity.0.y * Self::SPEED,
        };
        let limit2 = window_height - gutter.0.y - Self::HEIGHT;
        assert(cand == candidate(position.0, velocity.0));
        let y2 = 2 * cand.y;
        let ay2 = if y2 < 0 { -y2 } else { y2 };
        if ay2 < limit2 {
            position.0 = cand;
        }
    }

    /// Moves every paddle, as `move_paddle` does for one.
    pub fn move_paddles(paddles: &mut Vec<(Position, Velocity)>, window_height: i64, gutter: &Shape)
        requires
            forall|i: int|
                0 <= i < old(paddles)@.len() ==> (#[trigger] old(paddles)@[i]).0.0.wf()
                    && old(paddles)@[i].1.0.wf() && paddle_move_fits(
                    old(paddles)@[i].0.0,
                    old(paddles)@[i].1.0,
                ),
            coord_ok(window_height as int),
            gutter.wf(),
        ensures
            final(paddles)@.len() == old(paddles)@.len(),
            forall|i: int|
                0 <= i < final(paddles)@.len() ==> (#[trigger] final(paddles)@[i]).1 == old(
                    paddles,
                )@[i].1 && final(paddles)@[i].0.0 == paddle_step(
                    old(paddles)@[i].0.0,
                    old(paddles)@[i].1.0,
                    travel_limit2(window_height as int, *gutter),
                ),
    {
        let ghost start = paddles@;
        let mut i: usize = 0;
        while i < paddles.len()
            invariant
                0 <= i <= paddles@.len(),
                paddles@.len() == start.len(),
                forall|j: int| i <= j < start.len() ==> #[trigger] paddles@[j] == start[j],
                forall|j: int|
                    0 <= j < start.len() ==> (#[trigger] start[j]).0.0.wf() && start[j].1.0.wf()
                        && paddle_move_fits(start[j].0.0, start[j].1.0),
                coord_ok(window_height as int),
                gutter.wf(),
                forall|j: int|
                    0 <= j < i ==> (#[trigger] paddles@[j]).1 == start[j].1 && paddles@[j].0.0
                        == paddle_step(
                        start[j].0.0,
                        start[j].1.0,
                        travel_limit2(window_height as int, *gutter),
                    ),
            decreases start.len() - i,
        {
            let (mut position, velocity) = paddles[i];
            Self::move_paddle(&mut position, &velocity, window_height, gutter);
            paddles.set(i, (position, velocity));
            i = i + 1;
        }
    }
}

/// A paddle inside its travel limit stays inside it after a tick, and a
/// candidate position at or past the limit leaves the paddle where it was,
/// tick after tick while its velocity stays the same.
pub proof fn lemma_paddle_stays_clamped(p: Vector, v: Vector, window_height: int, gutter: Shape)
    ensures
        ({
            let limit2 = travel_limit2(window_height, gutter);
            &&& abs(2 * (p.y as int)) < limit2 ==> abs(2 * (paddle_step(p, v, limit2).y as int))
                < limit2
            &&& abs(2 * (candidate(p, v).y as int)) >= limit2 ==> paddle_step(p, v, limit2) == p
            &&& abs(2 * (candidate(p, v).y as int)) >= limit2 ==> paddle_step(
                paddle_step(p, v, limit2),
                v,
                limit2,
            ) == p
        }),
{
}

} // verus!
