//! Fixed-point numbers: lengths in grid cells and velocities in grid cells
//! per second, both as whole multiples of `1 / ONE`.

use vstd::prelude::*;

verus! {

/// The fixed-point representation of 1.
pub const ONE: i64 = 65536;

/// The fixed-point representation of one half.
pub const HALF: i64 = 32768;

/// `ONE` cubed: the weight of a sample that coincides with a particle.
pub const ONE_CUBED: i128 = 281474976710656;

/// No velocity component, of a particle or of the grid, exceeds this in magnitude.
pub const VEL_MAX: i64 = 1099511627776;

/// No pressure exceeds this in magnitude.
pub const PRESSURE_MAX: i64 = 1125899906842624;

/// A point or a vector of three fixed-point components.
#[derive(Clone, Copy, Debug, PartialEq, Eq, Structural)]
pub struct Vec3 {
    pub x: i64,
    pub y: i64,
    pub z: i64,
}

impl Vec3 {
    /// The component along `axis` (0, 1 or 2 for x, y or z).
    pub open spec fn component(self, axis: int) -> i64 {
        if axis == 0 {
            self.x
        } else if axis == 1 {
            self.y
        } else {
            self.z
        }
    }

    pub fn get(&self, axis: u8) -> (r: i64)
        ensures
            r == self.component(axis as int),
    {
        if axis == 0 {
            self.x
        } else if axis == 1 {
            self.y
        } else {
            self.z
        }
    }

    /// Every component lies within `[-bound, bound]`.
    pub open spec fn within(self, bound: int) -> bool {
        &&& -bound <= self.x <= bound
        &&& -bound <= self.y <= bound
        &&& -bound <= self.z <= bound
    }
}

/// `x` moved into `[lo, hi]`.
pub open spec fn clamp(x: int, lo: int, hi: int) -> int {
    if x < lo {
        lo
    } else if x > hi {
        hi
    } else {
        x
    }
}

/// Division that rounds towards zero.
pub open spec fn trunc_div(a: int, b: int) -> int
    recommends
        b > 0,
{
    if a >= 0 {
        a / b
    } else {
        -((-a) / b)
    }
}

/// The linear interpolation kernel: 1 at distance 0, falling to 0 at distance 1.
pub open spec fn hat(d: int) -> int {
    if d <= -ONE || d >= ONE {
        0
    } else if d >= 0 {
        ONE - d
    } else {
        ONE + d
    }
}

/// Moves `x` into `[lo, hi]`.
pub fn clamp_to(x: i128, lo: i64, hi: i64) -> (r: i64)
    requires
        lo <= hi,
    ensures
        r == clamp(x as int, lo as int, hi as int),
{
    if x < lo as i128 {
        lo
    } else if x > hi as i128 {
        hi
    } else {
        x as i64
    }
}

/// Divides, rounding towards zero.
pub fn div_toward_zero(a: i128, b: i128) -> (r: i128)
    requires
        b > 0,
        a > i128::MIN,
    ensures
        r == trunc_div(a as int, b as int),
        a >= 0 ==> 0 <= r <= a,
        a <= 0 ==> a <= r <= 0,
{
    if a >= 0 {
        let q: u128 = (a as u128) / (b as u128);
        assert(0 <= (a as int) / (b as int) <= a) by (nonlinear_arith)
            requires
                a >= 0,
                b > 0,
        ;
        q as i128
    } else {
        let n: u128 = (-a) as u128;
        let q: u128 = n / (b as u128);
        assert(0 <= (n as int) / (b as int) <= n) by (nonlinear_arith)
            requires
                n >= 0,
                b > 0,
        ;
        -(q as i128)
    }
}

/// The interpolation kernel at distance `d`.
pub fn hat_of(d: i128) -> (r: i64)
    ensures
        r == hat(d as int),
        0 <= r <= ONE,
{
    if d <= -(ONE as i128) || d >= ONE as i128 {
        0
    } else if d >= 0 {
        ONE - (d as i64)
    } else {
        ONE + (d as i64)
    }
}

} // verus!
