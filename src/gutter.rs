use vstd::prelude::*;
use crate::geometry::{Position, Shape, Vector, MAX_COORD};

verus! {

/// Marker for a top or bottom wall of the playfield.
#[derive(Clone, Copy, Debug, PartialEq, Eq, Structural)]
pub struct Gutter;

/// Marker for the gutter whose shape sets the paddles' travel limit.
#[derive(Clone, Copy, Debug, PartialEq, Eq, Structural)]
pub struct Reference;

/// Placement of the two gutters.
pub struct GutterPlugin;

impl GutterPlugin {
    /// Gutter height, in units.
    pub const HEIGHT: i64 = 200;

    /// The top and bottom gutters of a playfield `window_width` by
    /// `window_height` centered on the origin: each as wide as the playfield,
    /// lying along its edge, the top one above the origin and the bottom one
    /// its mirror image.
    pub fn spawn_gutters(window_width: i64, window_height: i64) -> (r: (
        (Position, Shape),
        (Position, Shape),
    ))
        requires
            0 <= window_width <= MAX_COORD,
            0 <= window_height <= MAX_COORD,
        ensures
            r.0.1.0 == (Vector { x: window_width, y: Self::HEIGHT }),
            r.1.1 == r.0.1,
            r.0.0.0.x == 0,
            r.0.0.0.y == window_height / 2 - Self::HEIGHT / 2,
            r.1.0.0.x == 0,
            r.1.0.0.y == -r.0.0.0.y,
            r.0.0.0.wf(),
            r.1.0.0.wf(),
            r.0.1.wf(),
    {
        let top_y = window_height / 2 - Self::HEIGHT / 2;
        let shape = Shape(Vector::new(window_width, Self::HEIGHT));
        ((Position(Vector::new(0, top_y)), shape), (Position(Vector::new(0, -top_y)), shape))
    }
}

} // verus!
