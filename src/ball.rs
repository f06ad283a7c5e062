use vstd::prelude::*;
use crate::geometry::{
    Aabb2d, BoundingCircle, Collision, Position, Shape, Vector, Velocity, coord_ok, collision_of,
    lemma_square_bound, offset2_exec, reflect, reflect_exec, abs, MAX_COORD, UNITS_PER_PIXEL,
};

verus! {

/// Marker for the one ball of the game.
#[derive(Clone, Copy, Debug, PartialEq, Eq, Structural)]
pub struct Ball;

/// Ball motion and collision handling.
pub struct BallPlugin;

/// The ball's bounding circle: centered on its position, with the shape's
/// horizontal extent as radius.
pub open spec fn ball_circle(position: Position, shape: Shape) -> BoundingCircle {
    BoundingCircle { center: position.0, radius: shape.0.x }
}

/// An obstacle's box: centered on its position, as large as its shape.
pub open spec fn obstacle_box(obstacle: (Position, Shape)) -> Aabb2d {
    Aabb2d { center: obstacle.0.0, size: obstacle.1.0 }
}

pub open spec fn obstacles_wf(obstacles: Seq<(Position, Shape)>) -> bool {
    forall|i: int| 0 <= i < obstacles.len() ==> #[trigger] obstacle_box(obstacles[i]).wf()
}

/// Velocity after one obstacle is checked: reflected on the struck side, or
/// unchanged when the ball does not touch it.
pub open spec fn bounce_on(v: Vector, ball: BoundingCircle, wall: Aabb2d) -> Vector {
    match collision_of(ball, wall) {
        Some(side) => reflect(v, side),
        None => v,
    }
}

/// Velocity after every obstacle is checked in turn, each applying its own
/// reflection.
pub open spec fn bounce_all(v: Vector, ball: BoundingCircle, obstacles: Seq<(Position, Shape)>) -> Vector
    decreases obstacles.len(),
{
    if obstacles.len() == 0 {
        v
    } else {
        bounce_on(bounce_all(v, ball, obstacles.drop_last()), ball, obstacle_box(obstacles.last()))
    }
}

/// Position after one tick of motion.
pub open spec fn moved(p: Vector, v: Vector) -> Vector {
    Vector { x: (p.x + v.x) as i64, y: (p.y + v.y) as i64 }
}

/// The sum of position and velocity stays within the coordinate range.
pub open spec fn move_fits(p: Vector, v: Vector) -> bool {
    coord_ok(p.x + v.x) && coord_ok(p.y + v.y)
}

impl BallPlugin {
    /// Radius of the ball, in units.
    pub const SIZE: i64 = 50;

    /// The ball as it enters play: at the center, moving one pixel right and
    /// two up per tick, with a square extent of `SIZE`.
    pub fn spawn_ball() -> (r: (Position, Velocity, Shape))
        ensures
            r.0.0 == (Vector { x: 0, y: 0 }),
            r.1.0 == (Vector { x: UNITS_PER_PIXEL, y: (2 * UNITS_PER_PIXEL) as i64 }),
            r.2.0 == (Vector { x: Self::SIZE, y: Self::SIZE }),
    {
        (
            Position(Vector::zero()),
            Velocity(Vector::new(UNITS_PER_PIXEL, 2 * UNITS_PER_PIXEL)),
            Shape(Vector::new(Self::SIZE, Self::SIZE)),
        )
    }

    /// Advances the ball by its velocity.
    pub fn move_ball(position: &mut Position, velocity: &Velocity)
        requires
            move_fits(old(position).0, velocity.0),
        ensures
            final(position).0 == moved(old(position).0, velocity.0),
            final(position).0.wf(),
    {
        position.0 = Vector { x: position.0.x + velocity.0.x, y: position.0.y + velocity.0.y };
    }

    /// Which side of `wall` the ball's circle struck, or `None` when they do not
    /// intersect.
    pub fn collide_with_side(ball: BoundingCircle, wall: Aabb2d) -> (r: Option<Collision>)
        requires
            ball.wf(),
            wall.wf(),
        ensures
            r == collision_of(ball, wall),
    {
        let ox = offset2_exec(ball.center.x, wall.center.x, wall.size.x);
        let oy = offset2_exec(ball.center.y, wall.center.y, wall.size.y);
        proof {
            lemma_square_bound(ox as int, 6 * MAX_COORD);
            lemma_square_bound(oy as int, 6 * MAX_COORD);
            lemma_square_bound(ball.radius as int, MAX_COORD as int);
        }
        let ox2 = (ox as i128) * (ox as i128);
        let oy2 = (oy as i128) * (oy as i128);
        let r2 = 4 * ((ball.radius as i128) * (ball.radius as i128));
        assert(r2 == 4 * (ball.radius as int) * (ball.radius as int)) by (nonlinear_arith)
            requires r2 == 4 * ((ball.radius as int) * (ball.radius as int));
        if ox2 + oy2 <= r2 {
            Some(crate::geometry::side_from_offset(ox, oy))
        } else {
            None
        }
    }

    /// Reflects the ball's velocity once for each obstacle its circle touches,
    /// on the axis of the struck side.
    pub fn handle_collisions(
        ball_velocity: &mut Velocity,
        ball_position: &Position,
        ball_shape: &Shape,
        others: &Vec<(Position, Shape)>,
    )
        requires
            old(ball_velocity).0.wf(),
            ball_position.0.wf(),
            ball_shape.wf(),
            obstacles_wf(others@),
        ensures
            final(ball_velocity).0 == bounce_all(
                old(ball_velocity).0,
                ball_circle(*ball_position, *ball_shape),
                others@,
            ),
            final(ball_velocity).0.wf(),
    {
        let circle = BoundingCircle { center: ball_position.0, radius: ball_shape.0.x };
        let ghost v0 = ball_velocity.0;
        let mut i: usize = 0;
        while i < others.len()
            invariant
                0 <= i <= others@.len(),
                circle == ball_circle(*ball_position, *ball_shape),
                circle.wf(),
                obstacles_wf(others@),
                ball_velocity.0.wf(),
                ball_velocity.0 == bounce_all(v0, circle, others@.take(i as int)),
            decreases others@.len() - i,
        {
            let (position, shape) = others[i];
            let wall = Aabb2d { center: position.0, size: shape.0 };
            assert(wall == obstacle_box(others@[i as int]));
            let hit = Self::collide_with_side(circle, wall);
            match hit {
                Some(side) => {
                    ball_velocity.0 = reflect_exec(ball_velocity.0, side);
                },
                None => {},
            }
            assert(others@.take(i + 1).drop_last() =~= others@.take(i as int));
            i = i + 1;
        }
        assert(others@.take(i as int) =~= others@);
    }
}

/// However many obstacles are struck, each velocity component keeps its
/// magnitude.
pub proof fn lemma_bounce_all_keeps_magnitude(
    v: Vector,
    ball: BoundingCircle,
    obstacles: Seq<(Position, Shape)>,
)
    requires
        v.wf(),
    ensures
        abs(bounce_all(v, ball, obstacles).x as int) == abs(v.x as int),
        abs(bounce_all(v, ball, obstacles).y as int) == abs(v.y as int),
        bounce_all(v, ball, obstacles).wf(),
    decreases obstacles.len(),
{
    if obstacles.len() > 0 {
        lemma_bounce_all_keeps_magnitude(v, ball, obstacles.drop_last());
    }
}

/// A bounce against an obstacle the ball touches reverses exactly one
/// velocity component, horizontal for a side hit and vertical for a top or
/// bottom hit, and leaves every magnitude as it was.
pub proof fn lemma_bounce_reflects_one_axis(
    velocity: Vector,
    position: Position,
    shape: Shape,
    obstacle: (Position, Shape),
)
    requires
        velocity.wf(),
        collision_of(ball_circle(position, shape), obstacle_box(obstacle)) is Some,
    ensures
        ({
            let r = bounce_all(velocity, ball_circle(position, shape), seq![obstacle]);
            let side = collision_of(ball_circle(position, shape), obstacle_box(obstacle))->Some_0;
            &&& abs(r.x as int) == abs(velocity.x as int)
            &&& abs(r.y as int) == abs(velocity.y as int)
            &&& (side == Collision::Left || side == Collision::Right) ==> r.x == -velocity.x
                && r.y == velocity.y
            &&& (side == Collision::Top || side == Collision::Bottom) ==> r.y == -velocity.y
                && r.x == velocity.x
        }),
{
    let s = seq![obstacle];
    assert(s.drop_last() =~= Seq::<(Position, Shape)>::empty());
    assert(s.last() == obstacle);
    let c = ball_circle(position, shape);
    assert(bounce_all(velocity, c, s.drop_last()) == velocity);
    assert(bounce_all(velocity, c, s) == bounce_on(velocity, c, obstacle_box(obstacle)));
}

} // verus!
