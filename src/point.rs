use vstd::prelude::*;

verus! {

/// `v` brought into the range of `i64`: coordinate arithmetic saturates.
pub open spec fn clamp_coord(v: int) -> int {
    if v > i64::MAX {
        i64::MAX as int
    } else if v < i64::MIN {
        i64::MIN as int
    } else {
        v
    }
}

/// A point that holds an x/y coordinate, in pixels.
#[derive(Debug, Clone, Copy, PartialEq, Eq, Structural)]
pub struct Point {
    pub x: i64,
    pub y: i64,
}

/// `v` saturated into `i64`.
fn saturate(v: i128) -> (r: i64)
    ensures
        r == clamp_coord(v as int),
{
    if v > i64::MAX as i128 {
        i64::MAX
    } else if v < i64::MIN as i128 {
        i64::MIN
    } else {
        v as i64
    }
}

impl Point {
    pub fn new(x: i64, y: i64) -> (r: Point)
        ensures
            r.x == x,
            r.y == y,
    {
        Point { x, y }
    }

    /// The origin.
    pub open spec fn zero_spec() -> Point {
        Point { x: 0, y: 0 }
    }

    #[verifier::when_used_as_spec(zero_spec)]
    pub fn zero() -> (r: Point)
        ensures
            r == Point::zero_spec(),
    {
        Point::new(0, 0)
    }

    /// Returns true if the point is between the `min` and the `max` points.
    pub fn between(&self, min: &Point, max: &Point) -> (r: bool)
        ensures
            r == (min.x <= self.x && min.y <= self.y && max.x >= self.x && max.y >= self.y),
    {
        min.x <= self.x && min.y <= self.y && max.x >= self.x && max.y >= self.y
    }

    /// The sum of two points, saturating.
    pub fn plus(self, rhs: Point) -> (r: Point)
        ensures
            r.x == clamp_coord(self.x + rhs.x),
            r.y == clamp_coord(self.y + rhs.y),
    {
        Point { x: saturate(self.x as i128 + rhs.x as i128), y: saturate(self.y as i128 + rhs.y as i128) }
    }

    /// The difference of two points, saturating.
    pub fn minus(self, rhs: Point) -> (r: Point)
        ensures
            r.x == clamp_coord(self.x - rhs.x),
            r.y == clamp_coord(self.y - rhs.y),
    {
        Point { x: saturate(self.x as i128 - rhs.x as i128), y: saturate(self.y as i128 - rhs.y as i128) }
    }
}

impl From<(u32, u32)> for Point {
    fn from(value: (u32, u32)) -> (r: Point) {
        Point::new(value.0 as i64, value.1 as i64)
    }
}

impl vstd::std_specs::convert::FromSpecImpl<(u32, u32)> for Point {
    open spec fn obeys_from_spec() -> bool {
        true
    }

    open spec fn from_spec(v: (u32, u32)) -> Point {
        Point { x: v.0 as i64, y: v.1 as i64 }
    }
}

impl From<(i32, i32)> for Point {
    fn from(value: (i32, i32)) -> (r: Point) {
        Point::new(value.0 as i64, value.1 as i64)
    }
}

impl vstd::std_specs::convert::FromSpecImpl<(i32, i32)> for Point {
    open spec fn obeys_from_spec() -> bool {
        true
    }

    open spec fn from_spec(v: (i32, i32)) -> Point {
        Point { x: v.0 as i64, y: v.1 as i64 }
    }
}

} // verus!
