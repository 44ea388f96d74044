//! Points and distances on the integer world plane.
use vstd::prelude::*;

verus! {

/// A point, or a displacement, in world units.
#[derive(Clone, Copy, Debug, PartialEq, Eq, Structural)]
pub struct Point {
    pub x: i32,
    pub y: i32,
}

/// The square of the distance between two points.
pub open spec fn dist2(a: Point, b: Point) -> int {
    (a.x - b.x) * (a.x - b.x) + (a.y - b.y) * (a.y - b.y)
}

/// `v` limited to the range of `i32`.
pub open spec fn saturate(v: int) -> int {
    if v < i32::MIN {
        i32::MIN as int
    } else if v > i32::MAX {
        i32::MAX as int
    } else {
        v
    }
}

/// The point reached from `p` by displacement `d`, limited to the world's range.
pub open spec fn offset_of(p: Point, d: Point) -> Point {
    Point { x: saturate(p.x + d.x) as i32, y: saturate(p.y + d.y) as i32 }
}

/// Whether `a` is strictly closer to `b` than `radius`.
pub open spec fn is_within(a: Point, b: Point, radius: u32) -> bool {
    dist2(a, b) < radius * radius
}

fn product(a: i64, b: i64) -> (r: i128)
    requires
        -0x2_0000_0000 <= a <= 0x2_0000_0000,
        -0x2_0000_0000 <= b <= 0x2_0000_0000,
    ensures
        r == a * b,
        -0x4_0000_0000_0000_0000 <= r <= 0x4_0000_0000_0000_0000,
{
    let u = a as i128;
    let v = b as i128;
    assert(-0x4_0000_0000_0000_0000 <= u * v <= 0x4_0000_0000_0000_0000) by (nonlinear_arith)
        requires
            -0x2_0000_0000 <= u <= 0x2_0000_0000,
            -0x2_0000_0000 <= v <= 0x2_0000_0000,
    ;
    u * v
}

fn saturating_sum(a: i32, b: i32) -> (r: i32)
    ensures
        r == saturate(a + b),
{
    let s = a as i64 + b as i64;
    if s < i32::MIN as i64 {
        i32::MIN
    } else if s > i32::MAX as i64 {
        i32::MAX
    } else {
        s as i32
    }
}

impl Point {
    /// The origin of the world.
    pub fn origin() -> (r: Point)
        ensures
            r == (Point { x: 0, y: 0 }),
    {
        Point { x: 0, y: 0 }
    }

    /// The square of the distance to `other`.
    pub fn distance_squared(&self, other: &Point) -> (r: i128)
        ensures
            r == dist2(*self, *other),
            r >= 0,
    {
        let dx = self.x as i64 - other.x as i64;
        let dy = self.y as i64 - other.y as i64;
        let r = product(dx, dx) + product(dy, dy);
        assert(r >= 0) by (nonlinear_arith)
            requires
                r == dx * dx + dy * dy,
        ;
        r
    }

    /// Whether `other` is strictly closer than `radius`.
    pub fn is_within(&self, other: &Point, radius: u32) -> (r: bool)
        ensures
            r == is_within(*self, *other, radius),
    {
        self.distance_squared(other) < product(radius as i64, radius as i64)
    }

    /// The point reached by displacement `d`, limited to the world's range.
    pub fn offset(&self, d: &Point) -> (r: Point)
        ensures
            r == offset_of(*self, *d),
    {
        Point { x: saturating_sum(self.x, d.x), y: saturating_sum(self.y, d.y) }
    }

    /// The component along `axis` of the displacement from `self` to `to`,
    /// scaled by the length of `axis`.
    pub fn component_toward(&self, axis: &Point, to: &Point) -> (r: i128)
        ensures
            r == axis.x * (to.x - self.x) + axis.y * (to.y - self.y),
    {
        let dx = to.x as i64 - self.x as i64;
        let dy = to.y as i64 - self.y as i64;
        product(axis.x as i64, dx) + product(axis.y as i64, dy)
    }
}

} // verus!
