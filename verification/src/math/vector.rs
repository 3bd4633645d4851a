//! Two-dimensional fixed-point vectors.

use vstd::prelude::*;
use vstd::std_specs::ops::{AddSpecImpl, MulSpecImpl, SubSpecImpl};

verus! {

/// The value of `v` limited to the range of `i64`.
pub open spec fn saturate(v: int) -> i64 {
    if v < i64::MIN {
        i64::MIN
    } else if v > i64::MAX {
        i64::MAX
    } else {
        v as i64
    }
}

/// Limits a wide intermediate result to the range of a coordinate.
pub fn saturate_i128(v: i128) -> (r: i64)
    ensures
        r == saturate(v as int),
{
    if v < i64::MIN as i128 {
        i64::MIN
    } else if v > i64::MAX as i128 {
        i64::MAX
    } else {
        v as i64
    }
}

/// A point or displacement on the simulation plane, in fixed-point units.
#[derive(Clone, Copy, Debug, PartialEq, Eq, Structural)]
pub struct Vector2d {
    pub x: i64,
    pub y: i64,
}

/// The value of `v` limited to the range of `i128`.
pub open spec fn saturate_wide(v: int) -> i128 {
    if v < i128::MIN {
        i128::MIN
    } else if v > i128::MAX {
        i128::MAX
    } else {
        v as i128
    }
}

impl Vector2d {
    /// Creates a vector.
    pub fn new(x: i64, y: i64) -> (v: Vector2d)
        ensures
            v == (Vector2d { x, y }),
    {
        Vector2d { x, y }
    }

    /// The dot product of the two vectors.  It is exact but for the one
    /// pair of vectors whose product does not fit, for which it saturates.
    pub fn dot(&self, rhs: Vector2d) -> (product: i128)
        ensures
            product == saturate_wide(self.x * rhs.x + self.y * rhs.y),
    {
        let first = product_of(self.x, rhs.x);
        let second = product_of(self.y, rhs.y);
        match first.checked_add(second) {
            Some(sum) => sum,
            None => i128::MAX,
        }
    }
}

/// The product of two coordinates, which always fits.
fn product_of(a: i64, b: i64) -> (product: i128)
    ensures
        product == a * b,
        -0x4000_0000_0000_0000_0000_0000_0000_0000 < product <= 0x4000_0000_0000_0000_0000_0000_0000_0000,
{
    assert(-0x4000_0000_0000_0000_0000_0000_0000_0000 < a * b <= 0x4000_0000_0000_0000_0000_0000_0000_0000)
        by (nonlinear_arith)
        requires
            -0x8000_0000_0000_0000 <= a < 0x8000_0000_0000_0000,
            -0x8000_0000_0000_0000 <= b < 0x8000_0000_0000_0000,
    ;
    a as i128 * b as i128
}

impl MulSpecImpl<i64> for Vector2d {
    open spec fn obeys_mul_spec() -> bool {
        true
    }

    open spec fn mul_req(self, rhs: i64) -> bool {
        true
    }

    open spec fn mul_spec(self, rhs: i64) -> Vector2d {
        Vector2d { x: saturate(self.x * rhs), y: saturate(self.y * rhs) }
    }
}

impl core::ops::Mul<i64> for Vector2d {
    type Output = Vector2d;

    /// The vector stretched by a factor.  Each coordinate saturates.
    fn mul(self, rhs: i64) -> Vector2d {
        Vector2d { x: saturate_i128(product_of(self.x, rhs)), y: saturate_i128(product_of(self.y, rhs)) }
    }
}

impl AddSpecImpl for Vector2d {
    open spec fn obeys_add_spec() -> bool {
        true
    }

    open spec fn add_req(self, rhs: Vector2d) -> bool {
        true
    }

    open spec fn add_spec(self, rhs: Vector2d) -> Vector2d {
        Vector2d { x: saturate(self.x + rhs.x), y: saturate(self.y + rhs.y) }
    }
}

impl core::ops::Add for Vector2d {
    type Output = Vector2d;

    /// The sum of the two vectors.  Each coordinate saturates.
    fn add(self, rhs: Vector2d) -> Vector2d {
        Vector2d {
            x: saturate_i128(self.x as i128 + rhs.x as i128),
            y: saturate_i128(self.y as i128 + rhs.y as i128),
        }
    }
}

impl SubSpecImpl for Vector2d {
    open spec fn obeys_sub_spec() -> bool {
        true
    }

    open spec fn sub_req(self, rhs: Vector2d) -> bool {
        true
    }

    open spec fn sub_spec(self, rhs: Vector2d) -> Vector2d {
        Vector2d { x: saturate(self.x - rhs.x), y: saturate(self.y - rhs.y) }
    }
}

impl core::ops::Sub for Vector2d {
    type Output = Vector2d;

    /// The difference of the two vectors.  Each coordinate saturates.
    fn sub(self, rhs: Vector2d) -> Vector2d {
        Vector2d {
            x: saturate_i128(self.x as i128 - rhs.x as i128),
            y: saturate_i128(self.y as i128 - rhs.y as i128),
        }
    }
}

} // verus!
