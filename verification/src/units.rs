use vstd::prelude::*;

verus! {

/// One world unit expressed in milliunits, the fixed-point scale of the
/// whole library: a coordinate of `1500` stands for one and a half units.
pub const MILLI: i64 = 1000;

/// One tenth of a world unit in milliunits.
pub const TENTH: i64 = 100;

/// Largest magnitude accepted for a camera position coordinate.
pub const POSITION_LIMIT: i64 = 1_000_000_000_000;

/// Largest magnitude accepted for a camera direction coordinate. The forward
/// direction of a camera is a unit vector, so a milliunit coordinate of it
/// stays within `MILLI`; the limit leaves generous slack.
pub const DIRECTION_LIMIT: i64 = 1_000_000;

/// A point or direction in world space, each coordinate in exact fixed-point
/// milliunits.
#[derive(Clone, Copy, Debug, PartialEq, Eq)]
pub struct Vec3Milli {
    pub x: i64,
    pub y: i64,
    pub z: i64,
}

impl Vec3Milli {
    /// Every coordinate lies within `bound` of zero.
    pub open spec fn in_range(self, bound: i64) -> bool {
        &&& -bound <= self.x <= bound
        &&& -bound <= self.y <= bound
        &&& -bound <= self.z <= bound
    }

    pub fn new(x: i64, y: i64, z: i64) -> (r: Self)
        ensures
            r.x == x,
            r.y == y,
            r.z == z,
    {
        Vec3Milli { x, y, z }
    }

    /// Component-wise sum.
    pub fn plus(self, other: Self) -> (r: Self)
        requires
            i64::MIN <= self.x + other.x <= i64::MAX,
            i64::MIN <= self.y + other.y <= i64::MAX,
            i64::MIN <= self.z + other.z <= i64::MAX,
        ensures
            r.x == self.x + other.x,
            r.y == self.y + other.y,
            r.z == self.z + other.z,
    {
        Vec3Milli { x: self.x + other.x, y: self.y + other.y, z: self.z + other.z }
    }

    /// The vector scaled by a whole number of units. Scaling a milliunit
    /// vector by `k` is exact: no rounding is involved.
    pub fn scaled(self, k: i64) -> (r: Self)
        requires
            i64::MIN <= k * self.x <= i64::MAX,
            i64::MIN <= k * self.y <= i64::MAX,
            i64::MIN <= k * self.z <= i64::MAX,
        ensures
            r.x == k * self.x,
            r.y == k * self.y,
            r.z == k * self.z,
    {
        Vec3Milli { x: k * self.x, y: k * self.y, z: k * self.z }
    }
}

/// An angle expressed as an exact rational multiple of a straight angle:
/// the angle is `num / den` times pi radians. This keeps irrational angles
/// (such as a fifth of pi) representable exactly.
#[derive(Clone, Copy, Debug, PartialEq, Eq)]
pub struct PiFraction {
    pub num: i64,
    pub den: i64,
}

} // verus!
