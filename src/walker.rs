use vstd::prelude::*;
use bevy_turborand::{DelegatedRng, RngComponent};
use crate::geometry::{Vector, coord_ok, MAX_COORD};

verus! {

#[verifier::external_type_specification]
#[verifier::external_body]
pub struct ExRngComponent(RngComponent);

/// Relies on bevy_turborand's `DelegatedRng::i32`, delegated to turborand's
/// `TurboRand::i32`: a draw from the inclusive range `lo..=hi`, which panics
/// only on an empty range.
#[verifier::external_body]
fn draw_between(rng: &mut RngComponent, lo: i32, hi: i32) -> (r: i32)
    requires
        lo <= hi,
    ensures
        lo <= r <= hi,
{
    rng.i32(lo..=hi)
}

/// The random walker scene: a trail of dots, each one step from the last.
pub struct WalkerPlugin;

/// Where the next dot goes: one dot diameter from `from` along each axis, in
/// the direction drawn for that axis (-1, 0 or 1).
pub open spec fn walk(from: Vector, dx: int, dy: int) -> Vector {
    Vector {
        x: (from.x + dx * WalkerPlugin::STEP) as i64,
        y: (from.y + dy * WalkerPlugin::STEP) as i64,
    }
}

impl WalkerPlugin {
    /// Radius of a dot, in units.
    pub const RADIUS: i64 = 15;

    /// Distance between neighbouring dots on an axis: one diameter.
    pub const STEP: i64 = 30;

    /// The next dot's position, given the draws for both axes.
    pub fn step(from: Vector, dx: i32, dy: i32) -> (r: Vector)
        requires
            -1 <= dx <= 1,
            -1 <= dy <= 1,
            coord_ok(from.x + dx * Self::STEP),
            coord_ok(from.y + dy * Self::STEP),
        ensures
            r == walk(from, dx as int, dy as int),
            r.wf(),
    {
        Vector::new(from.x + (dx as i64) * Self::STEP, from.y + (dy as i64) * Self::STEP)
    }

    /// The next dot of the trail: one step from `from`, in a direction drawn
    /// from `rng` for each axis, first the horizontal one.
    pub fn next_dot(rng: &mut RngComponent, from: Vector) -> (r: Vector)
        requires
            -MAX_COORD + Self::STEP <= from.x <= MAX_COORD - Self::STEP,
            -MAX_COORD + Self::STEP <= from.y <= MAX_COORD - Self::STEP,
        ensures
            exists|dx: int, dy: int|
                -1 <= dx <= 1 && -1 <= dy <= 1 && r == #[trigger] walk(from, dx, dy),
    {
        let dx = draw_between(rng, -1, 1);
        let dy = draw_between(rng, -1, 1);
        let r = Self::step(from, dx, dy);
        assert(r == walk(from, dx as int, dy as int));
        r
    }
}

} // verus!
