use vstd::prelude::*;

verus! {

/// Number of integer coordinate steps in one pixel.
pub const UNITS_PER_PIXEL: i64 = 10;

/// Largest magnitude a coordinate, velocity or extent may have.
pub const MAX_COORD: i64 = 1_000_000_000;

pub open spec fn coord_ok(v: int) -> bool {
    -MAX_COORD <= v <= MAX_COORD
}

pub open spec fn abs(v: int) -> int {
    if v < 0 { -v } else { v }
}

/// A 2D integer vector.
#[derive(Clone, Copy, Debug, PartialEq, Eq, Structural)]
pub struct Vector {
    pub x: i64,
    pub y: i64,
}

impl Vector {
    pub open spec fn wf(self) -> bool {
        coord_ok(self.x as int) && coord_ok(self.y as int)
    }

    pub fn new(x: i64, y: i64) -> (r: Vector)
        ensures
            r.x == x,
            r.y == y,
    {
        Vector { x, y }
    }

    /// Whether both coordinates lie in the coordinate range.
    pub fn within(&self) -> (r: bool)
        ensures
            r == self.wf(),
    {
        -MAX_COORD <= self.x && self.x <= MAX_COORD && -MAX_COORD <= self.y && self.y <= MAX_COORD
    }

    pub fn zero() -> (r: Vector)
        ensures
            r.x == 0,
            r.y == 0,
    {
        Vector { x: 0, y: 0 }
    }
}

/// Where an entity stands.
#[derive(Clone, Copy, Debug, PartialEq, Eq, Structural)]
pub struct Position(pub Vector);

/// How far an entity moves in one tick.
#[derive(Clone, Copy, Debug, PartialEq, Eq, Structural)]
pub struct Velocity(pub Vector);

/// Full width and height of an entity's rectangular extent.
#[derive(Clone, Copy, Debug, PartialEq, Eq, Structural)]
pub struct Shape(pub Vector);

impl Shape {
    pub open spec fn wf(self) -> bool {
        self.0.wf() && self.0.x >= 0 && self.0.y >= 0
    }
}

/// Side of an obstacle that the ball struck.
#[derive(Clone, Copy, Debug, PartialEq, Eq, Structural)]
pub enum Collision {
    Left,
    Right,
    Top,
    Bottom,
}

/// The ball's bounding circle.
#[derive(Clone, Copy, Debug, PartialEq, Eq, Structural)]
pub struct BoundingCircle {
    pub center: Vector,
    pub radius: i64,
}

impl BoundingCircle {
    pub open spec fn wf(self) -> bool {
        self.center.wf() && 0 <= self.radius <= MAX_COORD
    }
}

/// An axis-aligned box, given by its center and its full size.
#[derive(Clone, Copy, Debug, PartialEq, Eq, Structural)]
pub struct Aabb2d {
    pub center: Vector,
    pub size: Vector,
}

impl Aabb2d {
    pub open spec fn wf(self) -> bool {
        self.center.wf() && self.size.wf() && self.size.x >= 0 && self.size.y >= 0
    }
}

/// `v` clamped into `[lo, hi]`.
pub open spec fn clamp(v: int, lo: int, hi: int) -> int {
    if v < lo {
        lo
    } else if v > hi {
        hi
    } else {
        v
    }
}

/// Side struck, from the offset of the circle's center to the closest point
/// of the box: the axis with the strictly larger magnitude decides, a tie goes
/// to the vertical axis, and a zero offset on the chosen axis gives `Right`
/// or `Bottom`.
pub open spec fn side_of(ox: int, oy: int) -> Collision {
    if abs(ox) > abs(oy) {
        if ox < 0 { Collision::Left } else { Collision::Right }
    } else {
        if oy > 0 { Collision::Top } else { Collision::Bottom }
    }
}

/// Side selection is a function of the offset alone: an offset larger in
/// magnitude horizontally gives a left or right hit, any other a top or
/// bottom hit.
pub proof fn lemma_side_follows_dominant_axis(ox: int, oy: int)
    ensures
        abs(ox) > abs(oy) ==> (side_of(ox, oy) == Collision::Left || side_of(ox, oy)
            == Collision::Right),
        abs(ox) <= abs(oy) ==> (side_of(ox, oy) == Collision::Top || side_of(ox, oy)
            == Collision::Bottom),
        abs(ox) > abs(oy) ==> (side_of(ox, oy) == Collision::Left <==> ox < 0),
        abs(ox) <= abs(oy) ==> (side_of(ox, oy) == Collision::Top <==> oy > 0),
{
}

/// Twice the offset from the closest point of `wall` to the center of
/// `ball`, along one axis (doubling keeps half sizes exact).
pub open spec fn offset2(c: int, wall_center: int, wall_size: int) -> int {
    2 * c - clamp(2 * c, 2 * wall_center - wall_size, 2 * wall_center + wall_size)
}

pub open spec fn offset2_x(ball: BoundingCircle, wall: Aabb2d) -> int {
    offset2(ball.center.x as int, wall.center.x as int, wall.size.x as int)
}

pub open spec fn offset2_y(ball: BoundingCircle, wall: Aabb2d) -> int {
    offset2(ball.center.y as int, wall.center.y as int, wall.size.y as int)
}

/// The circle and the box share a point: the closest point of the box lies
/// within the radius of the center.
pub open spec fn intersects(ball: BoundingCircle, wall: Aabb2d) -> bool {
    let ox = offset2_x(ball, wall);
    let oy = offset2_y(ball, wall);
    ox * ox + oy * oy <= 4 * (ball.radius as int) * (ball.radius as int)
}

/// Which side of `wall` the ball struck, if the two intersect.
pub open spec fn collision_of(ball: BoundingCircle, wall: Aabb2d) -> Option<Collision> {
    if intersects(ball, wall) {
        Some(side_of(offset2_x(ball, wall), offset2_y(ball, wall)))
    } else {
        None
    }
}

/// Velocity after a bounce on `side`: one axis reverses.
pub open spec fn reflect(v: Vector, side: Collision) -> Vector {
    match side {
        Collision::Left | Collision::Right => Vector { x: (-v.x) as i64, y: v.y },
        Collision::Top | Collision::Bottom => Vector { x: v.x, y: (-v.y) as i64 },
    }
}

pub(crate) proof fn lemma_square_bound(a: int, b: int)
    requires
        abs(a) <= b,
    ensures
        0 <= a * a <= b * b,
{
    assert(0 <= a * a <= b * b) by (nonlinear_arith)
        requires abs(a) <= b, abs(a) == (if a < 0 { -a } else { a });
}

fn clamp_exec(v: i64, lo: i64, hi: i64) -> (r: i64)
    ensures
        r == clamp(v as int, lo as int, hi as int),
{
    if v < lo {
        lo
    } else if v > hi {
        hi
    } else {
        v
    }
}

pub(crate) fn offset2_exec(c: i64, wall_center: i64, wall_size: i64) -> (r: i64)
    requires
        coord_ok(c as int),
        coord_ok(wall_center as int),
        0 <= wall_size <= MAX_COORD,
    ensures
        r == offset2(c as int, wall_center as int, wall_size as int),
        abs(r as int) <= 6 * MAX_COORD,
{
    let c2 = 2 * c;
    c2 - clamp_exec(c2, 2 * wall_center - wall_size, 2 * wall_center + wall_size)
}

/// Side selection from an offset, exactly as `side_of` states it.
pub fn side_from_offset(ox: i64, oy: i64) -> (r: Collision)
    requires
        ox > i64::MIN,
        oy > i64::MIN,
    ensures
        r == side_of(ox as int, oy as int),
{
    let ax = if ox < 0 { -ox } else { ox };
    let ay = if oy < 0 { -oy } else { oy };
    if ax > ay {
        if ox < 0 { Collision::Left } else { Collision::Right }
    } else {
        if oy > 0 { Collision::Top } else { Collision::Bottom }
    }
}

/// Velocity after a bounce on `side`.
pub fn reflect_exec(v: Vector, side: Collision) -> (r: Vector)
    requires
        v.wf(),
    ensures
        r == reflect(v, side),
        r.wf(),
{
    match side {
        Collision::Left | Collision::Right => Vector { x: -v.x, y: v.y },
        Collision::Top | Collision::Bottom => Vector { x: v.x, y: -v.y },
    }
}

} // verus!
