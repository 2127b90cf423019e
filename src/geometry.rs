use vstd::prelude::*;

verus! {

/// One world unit in the fixed-point scale used for every quantity.
pub const UNIT: i64 = 1000;

/// Largest magnitude of a level coordinate.
pub const MAX_COORD: i64 = 1_000_000_000_000_000;

/// A point or offset in the plane, in fixed-point units.
#[derive(Debug, Clone, Copy, PartialEq, Eq, Structural)]
pub struct Point {
    pub x: i64,
    pub y: i64,
}

/// A coordinate that a level may hold.
pub open spec fn coord_ok(v: i64) -> bool {
    -MAX_COORD <= v <= MAX_COORD
}

/// A point that a level may hold.
pub open spec fn point_ok(p: Point) -> bool {
    coord_ok(p.x) && coord_ok(p.y)
}

/// A point.
pub fn point(x: i64, y: i64) -> (r: Point)
    ensures
        r == (Point { x, y }),
{
    Point { x, y }
}

} // verus!
