use vstd::prelude::*;
use crate::geometry::{Position, Shape, Vector, Velocity, MAX_COORD};

verus! {

/// The free-bouncing ball scene: a ball kept inside the visible area.
pub struct BallPlugin;

/// One axis of the bounds check: a ball reaching past the low or the high
/// edge is put back flush against that edge and its velocity on the axis
/// reverses; otherwise nothing changes. Returns the new position and velocity.
pub open spec fn keep_inside(p: int, v: int, extent: int, half: int) -> (int, int) {
    if p - extent < -half {
        (-half + extent, -v)
    } else if p + extent > half {
        (half - extent, -v)
    } else {
        (p, v)
    }
}

fn keep_inside_exec(p: i64, v: i64, extent: i64, half: i64) -> (r: (i64, i64))
    requires
        -MAX_COORD <= p <= MAX_COORD,
        -MAX_COORD <= v <= MAX_COORD,
        0 <= extent <= MAX_COORD,
        0 <= half <= MAX_COORD,
    ensures
        (r.0 as int, r.1 as int) == keep_inside(p as int, v as int, extent as int, half as int),
        -2 * MAX_COORD <= r.0 <= 2 * MAX_COORD,
{
    if p - extent < -half {
        (-half + extent, -v)
    } else if p + extent > half {
        (half - extent, -v)
    } else {
        (p, v)
    }
}

impl BallPlugin {
    /// Keeps the ball inside a visible area reaching `half_window` from the
    /// origin on each axis, the shape giving the ball's extent on each axis.
    pub fn check_bounds(
        position: &mut Position,
        velocity: &mut Velocity,
        shape: &Shape,
        half_window: Vector,
    )
        requires
            old(position).0.wf(),
            old(velocity).0.wf(),
            shape.wf(),
            0 <= half_window.x <= MAX_COORD,
            0 <= half_window.y <= MAX_COORD,
        ensures
            (final(position).0.x as int, final(velocity).0.x as int) == keep_inside(
                old(position).0.x as int,
                old(velocity).0.x as int,
                shape.0.x as int,
                half_window.x as int,
            ),
            (final(position).0.y as int, final(velocity).0.y as int) == keep_inside(
                old(position).0.y as int,
                old(velocity).0.y as int,
                shape.0.y as int,
                half_window.y as int,
            ),
    {
        let (px, vx) = keep_inside_exec(position.0.x, velocity.0.x, shape.0.x, half_window.x);
        let (py, vy) = keep_inside_exec(position.0.y, velocity.0.y, shape.0.y, half_window.y);
        position.0 = Vector::new(px, py);
        velocity.0 = Vector::new(vx, vy);
    }
}

} // verus!
