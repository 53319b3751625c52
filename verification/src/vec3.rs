//! Three-component fixed-point vectors.

use vstd::prelude::*;
use crate::fx::{
    FX_ONE, fx_in_range, fx_clamped, fx_mul_spec, fx_div_spec, fx_sqrt_spec,
    fx_add, fx_sub, fx_mul, fx_div, fx_sqrt,
};

verus! {

/// A vector of three fixed-point scalars.
#[derive(Clone, Copy, PartialEq, Eq, Structural, Debug)]
pub struct V3 {
    pub x: i64,
    pub y: i64,
    pub z: i64,
}

/// All three components lie in the representable band.
pub open spec fn v3_in_range(v: V3) -> bool {
    fx_in_range(v.x as int) && fx_in_range(v.y as int) && fx_in_range(v.z as int)
}

/// Component-wise clamped sum.
pub open spec fn v3_add_spec(a: V3, b: V3) -> V3 {
    V3 {
        x: fx_clamped(a.x + b.x) as i64,
        y: fx_clamped(a.y + b.y) as i64,
        z: fx_clamped(a.z + b.z) as i64,
    }
}

/// Component-wise clamped difference.
pub open spec fn v3_sub_spec(a: V3, b: V3) -> V3 {
    V3 {
        x: fx_clamped(a.x - b.x) as i64,
        y: fx_clamped(a.y - b.y) as i64,
        z: fx_clamped(a.z - b.z) as i64,
    }
}

/// Every component scaled by `s`.
pub open spec fn v3_scale_spec(a: V3, s: int) -> V3 {
    V3 {
        x: fx_mul_spec(a.x as int, s) as i64,
        y: fx_mul_spec(a.y as int, s) as i64,
        z: fx_mul_spec(a.z as int, s) as i64,
    }
}

/// The inner product, accumulated left to right with clamping.
pub open spec fn v3_dot_spec(a: V3, b: V3) -> int {
    fx_clamped(
        fx_clamped(
            fx_mul_spec(a.x as int, b.x as int) + fx_mul_spec(a.y as int, b.y as int))
        + fx_mul_spec(a.z as int, b.z as int))
}

/// The cross product, each term a clamped scaled product.
pub open spec fn v3_cross_spec(a: V3, b: V3) -> V3 {
    V3 {
        x: fx_clamped(fx_mul_spec(a.y as int, b.z as int) - fx_mul_spec(a.z as int, b.y as int)) as i64,
        y: fx_clamped(fx_mul_spec(a.z as int, b.x as int) - fx_mul_spec(a.x as int, b.z as int)) as i64,
        z: fx_clamped(fx_mul_spec(a.x as int, b.y as int) - fx_mul_spec(a.y as int, b.x as int)) as i64,
    }
}

/// The Euclidean length: the square root of the self inner product.
pub open spec fn v3_norm_spec(v: V3) -> int {
    fx_sqrt_spec(v3_dot_spec(v, v))
}

/// The unit vector in the direction of `v`; a vector of zero length is
/// returned unchanged.
pub open spec fn v3_normalized_spec(v: V3) -> V3 {
    let n = v3_norm_spec(v);
    if n == 0 {
        v
    } else {
        V3 {
            x: fx_div_spec(v.x as int, n) as i64,
            y: fx_div_spec(v.y as int, n) as i64,
            z: fx_div_spec(v.z as int, n) as i64,
        }
    }
}

impl V3 {
    /// Build a vector from its components.
    pub fn new(x: i64, y: i64, z: i64) -> (v: V3)
        ensures
            v == (V3 { x, y, z }),
    {
        V3 { x, y, z }
    }

    /// Component-wise clamped sum.
    pub fn add(&self, other: &V3) -> (r: V3)
        ensures
            r == v3_add_spec(*self, *other),
            v3_in_range(r),
    {
        V3 {
            x: fx_add(self.x, other.x),
            y: fx_add(self.y, other.y),
            z: fx_add(self.z, other.z),
        }
    }

    /// Component-wise clamped difference.
    pub fn sub(&self, other: &V3) -> (r: V3)
        ensures
            r == v3_sub_spec(*self, *other),
            v3_in_range(r),
    {
        V3 {
            x: fx_sub(self.x, other.x),
            y: fx_sub(self.y, other.y),
            z: fx_sub(self.z, other.z),
        }
    }

    /// Every component scaled by `s`.
    pub fn scale(&self, s: i64) -> (r: V3)
        requires
            v3_in_range(*self),
            fx_in_range(s as int),
        ensures
            r == v3_scale_spec(*self, s as int),
            v3_in_range(r),
    {
        V3 {
            x: fx_mul(self.x, s),
            y: fx_mul(self.y, s),
            z: fx_mul(self.z, s),
        }
    }

    /// The inner product.
    pub fn dot(&self, other: &V3) -> (r: i64)
        requires
            v3_in_range(*self),
            v3_in_range(*other),
        ensures
            r as int == v3_dot_spec(*self, *other),
            fx_in_range(r as int),
    {
        let xx: i64 = fx_mul(self.x, other.x);
        let yy: i64 = fx_mul(self.y, other.y);
        let zz: i64 = fx_mul(self.z, other.z);
        fx_add(fx_add(xx, yy), zz)
    }

    /// The cross product.
    pub fn cross(&self, other: &V3) -> (r: V3)
        requires
            v3_in_range(*self),
            v3_in_range(*other),
        ensures
            r == v3_cross_spec(*self, *other),
            v3_in_range(r),
    {
        V3 {
            x: fx_sub(fx_mul(self.y, other.z), fx_mul(self.z, other.y)),
            y: fx_sub(fx_mul(self.z, other.x), fx_mul(self.x, other.z)),
            z: fx_sub(fx_mul(self.x, other.y), fx_mul(self.y, other.x)),
        }
    }

    /// The Euclidean length.
    pub fn norm(&self) -> (r: i64)
        requires
            v3_in_range(*self),
        ensures
            r as int == v3_norm_spec(*self),
            r >= 0,
            fx_in_range(r as int),
    {
        fx_sqrt(self.dot(self))
    }

    /// The unit vector in this direction; the zero vector stays as it is.
    pub fn normalize(&self) -> (r: V3)
        requires
            v3_in_range(*self),
        ensures
            r == v3_normalized_spec(*self),
            v3_in_range(r),
    {
        let n: i64 = self.norm();
        if n == 0 {
            *self
        } else {
            V3 {
                x: fx_div(self.x, n),
                y: fx_div(self.y, n),
                z: fx_div(self.z, n),
            }
        }
    }
}

/// A pair of fixed-point scalars, for texture coordinates.
#[derive(Clone, Copy, PartialEq, Eq, Structural, Debug)]
pub struct V2 {
    pub x: i64,
    pub y: i64,
}

/// Both components lie in the representable band.
pub open spec fn v2_in_range(v: V2) -> bool {
    fx_in_range(v.x as int) && fx_in_range(v.y as int)
}

impl V2 {
    /// Build a pair from its components.
    pub fn new(x: i64, y: i64) -> (v: V2)
        ensures
            v == (V2 { x, y }),
    {
        V2 { x, y }
    }
}

/// A vector of four fixed-point scalars, for homogeneous coordinates.
#[derive(Clone, Copy, PartialEq, Eq, Structural, Debug)]
pub struct V4 {
    pub x: i64,
    pub y: i64,
    pub z: i64,
    pub w: i64,
}

/// All four components lie in the representable band.
pub open spec fn v4_in_range(v: V4) -> bool {
    fx_in_range(v.x as int) && fx_in_range(v.y as int)
        && fx_in_range(v.z as int) && fx_in_range(v.w as int)
}

/// The four-component inner product, accumulated left to right.
pub open spec fn v4_dot_spec(a: V4, b: V4) -> int {
    fx_clamped(
        fx_clamped(
            fx_clamped(
                fx_mul_spec(a.x as int, b.x as int) + fx_mul_spec(a.y as int, b.y as int))
            + fx_mul_spec(a.z as int, b.z as int))
        + fx_mul_spec(a.w as int, b.w as int))
}

impl V4 {
    /// Build a vector from its components.
    pub fn new(x: i64, y: i64, z: i64, w: i64) -> (v: V4)
        ensures
            v == (V4 { x, y, z, w }),
    {
        V4 { x, y, z, w }
    }

    /// The four-component inner product.
    pub fn dot(&self, other: &V4) -> (r: i64)
        requires
            v4_in_range(*self),
            v4_in_range(*other),
        ensures
            r as int == v4_dot_spec(*self, *other),
            fx_in_range(r as int),
    {
        let xx: i64 = fx_mul(self.x, other.x);
        let yy: i64 = fx_mul(self.y, other.y);
        let zz: i64 = fx_mul(self.z, other.z);
        let ww: i64 = fx_mul(self.w, other.w);
        fx_add(fx_add(fx_add(xx, yy), zz), ww)
    }
}

} // verus!
