//! Homogeneous 4x4 fixed-point matrices and the per-frame matrix builders.

use vstd::prelude::*;
use crate::fx::{
    FX_ONE, FX_PI, FX_HALF_PI, FX_FIVE_PI_SQ,
    fx_in_range, fx_clamped, fx_div_spec, fx_mul_spec,
    fx_sin_spec, fx_cos_spec,
    fx_add, fx_sub, fx_neg, fx_mul, fx_div, fx_sin, fx_cos,
};
use crate::vec3::{V3, V4, v3_in_range, v4_in_range, v4_dot_spec,
    v3_sub_spec, v3_cross_spec, v3_dot_spec, v3_normalized_spec};

verus! {

/// A 4x4 matrix stored as four row vectors.
#[derive(Clone, Copy, PartialEq, Eq, Structural, Debug)]
pub struct M4 {
    pub r0: V4,
    pub r1: V4,
    pub r2: V4,
    pub r3: V4,
}

/// All sixteen entries lie in the representable band.
pub open spec fn m4_in_range(m: M4) -> bool {
    v4_in_range(m.r0) && v4_in_range(m.r1) && v4_in_range(m.r2) && v4_in_range(m.r3)
}

/// The columns of a matrix, as vectors.
pub open spec fn m4_col_spec(m: M4, j: int) -> V4 {
    if j == 0 {
        V4 { x: m.r0.x, y: m.r1.x, z: m.r2.x, w: m.r3.x }
    } else if j == 1 {
        V4 { x: m.r0.y, y: m.r1.y, z: m.r2.y, w: m.r3.y }
    } else if j == 2 {
        V4 { x: m.r0.z, y: m.r1.z, z: m.r2.z, w: m.r3.z }
    } else {
        V4 { x: m.r0.w, y: m.r1.w, z: m.r2.w, w: m.r3.w }
    }
}

/// One row of a matrix product: the row against each column of `b`.
pub open spec fn m4_mul_row_spec(r: V4, b: M4) -> V4 {
    V4 {
        x: v4_dot_spec(r, m4_col_spec(b, 0)) as i64,
        y: v4_dot_spec(r, m4_col_spec(b, 1)) as i64,
        z: v4_dot_spec(r, m4_col_spec(b, 2)) as i64,
        w: v4_dot_spec(r, m4_col_spec(b, 3)) as i64,
    }
}

/// The matrix product `a * b`.
pub open spec fn m4_mul_spec(a: M4, b: M4) -> M4 {
    M4 {
        r0: m4_mul_row_spec(a.r0, b),
        r1: m4_mul_row_spec(a.r1, b),
        r2: m4_mul_row_spec(a.r2, b),
        r3: m4_mul_row_spec(a.r3, b),
    }
}

/// The matrix applied to a homogeneous vector.
pub open spec fn m4_apply_spec(m: M4, v: V4) -> V4 {
    V4 {
        x: v4_dot_spec(m.r0, v) as i64,
        y: v4_dot_spec(m.r1, v) as i64,
        z: v4_dot_spec(m.r2, v) as i64,
        w: v4_dot_spec(m.r3, v) as i64,
    }
}

impl M4 {
    /// Build a matrix from its sixteen entries, row by row.
    #[allow(clippy::too_many_arguments)]
    pub fn new(
        m00: i64, m01: i64, m02: i64, m03: i64,
        m10: i64, m11: i64, m12: i64, m13: i64,
        m20: i64, m21: i64, m22: i64, m23: i64,
        m30: i64, m31: i64, m32: i64, m33: i64,
    ) -> (m: M4)
        ensures
            m == (M4 {
                r0: V4 { x: m00, y: m01, z: m02, w: m03 },
                r1: V4 { x: m10, y: m11, z: m12, w: m13 },
                r2: V4 { x: m20, y: m21, z: m22, w: m23 },
                r3: V4 { x: m30, y: m31, z: m32, w: m33 },
            }),
    {
        M4 {
            r0: V4 { x: m00, y: m01, z: m02, w: m03 },
            r1: V4 { x: m10, y: m11, z: m12, w: m13 },
            r2: V4 { x: m20, y: m21, z: m22, w: m23 },
            r3: V4 { x: m30, y: m31, z: m32, w: m33 },
        }
    }

    /// The identity transform.
    pub fn identity() -> (m: M4)
        ensures
            m == m4_identity_spec(),
    {
        M4::new(
            FX_ONE, 0, 0, 0,
            0, FX_ONE, 0, 0,
            0, 0, FX_ONE, 0,
            0, 0, 0, FX_ONE,
        )
    }

    /// One column, as a vector.
    fn col(&self, j: usize) -> (c: V4)
        requires
            j < 4,
        ensures
            c == m4_col_spec(*self, j as int),
    {
        if j == 0 {
            V4 { x: self.r0.x, y: self.r1.x, z: self.r2.x, w: self.r3.x }
        } else if j == 1 {
            V4 { x: self.r0.y, y: self.r1.y, z: self.r2.y, w: self.r3.y }
        } else if j == 2 {
            V4 { x: self.r0.z, y: self.r1.z, z: self.r2.z, w: self.r3.z }
        } else {
            V4 { x: self.r0.w, y: self.r1.w, z: self.r2.w, w: self.r3.w }
        }
    }

    /// The matrix product `self * other`.
    pub fn mul_mat(&self, other: &M4) -> (m: M4)
        requires
            m4_in_range(*self),
            m4_in_range(*other),
        ensures
            m == m4_mul_spec(*self, *other),
            m4_in_range(m),
    {
        let c0: V4 = other.col(0);
        let c1: V4 = other.col(1);
        let c2: V4 = other.col(2);
        let c3: V4 = other.col(3);
        M4 {
            r0: V4 {
                x: self.r0.dot(&c0), y: self.r0.dot(&c1),
                z: self.r0.dot(&c2), w: self.r0.dot(&c3),
            },
            r1: V4 {
                x: self.r1.dot(&c0), y: self.r1.dot(&c1),
                z: self.r1.dot(&c2), w: self.r1.dot(&c3),
            },
            r2: V4 {
                x: self.r2.dot(&c0), y: self.r2.dot(&c1),
                z: self.r2.dot(&c2), w: self.r2.dot(&c3),
            },
            r3: V4 {
                x: self.r3.dot(&c0), y: self.r3.dot(&c1),
                z: self.r3.dot(&c2), w: self.r3.dot(&c3),
            },
        }
    }

    /// The matrix applied to a homogeneous vector.
    pub fn apply(&self, v: &V4) -> (r: V4)
        requires
            m4_in_range(*self),
            v4_in_range(*v),
        ensures
            r == m4_apply_spec(*self, *v),
            v4_in_range(r),
    {
        V4 {
            x: self.r0.dot(v),
            y: self.r1.dot(v),
            z: self.r2.dot(v),
            w: self.r3.dot(v),
        }
    }
}

/// The identity transform.
pub open spec fn m4_identity_spec() -> M4 {
    M4 {
        r0: V4 { x: FX_ONE, y: 0, z: 0, w: 0 },
        r1: V4 { x: 0, y: FX_ONE, z: 0, w: 0 },
        r2: V4 { x: 0, y: 0, z: FX_ONE, w: 0 },
        r3: V4 { x: 0, y: 0, z: 0, w: FX_ONE },
    }
}

/// Rotation about the X axis, from a sine and cosine pair.
pub open spec fn rot_x_spec(s: int, c: int) -> M4 {
    M4 {
        r0: V4 { x: FX_ONE, y: 0, z: 0, w: 0 },
        r1: V4 { x: 0, y: c as i64, z: fx_clamped(-s) as i64, w: 0 },
        r2: V4 { x: 0, y: s as i64, z: c as i64, w: 0 },
        r3: V4 { x: 0, y: 0, z: 0, w: FX_ONE },
    }
}

/// Rotation about the Y axis, from a sine and cosine pair.
pub open spec fn rot_y_spec(s: int, c: int) -> M4 {
    M4 {
        r0: V4 { x: c as i64, y: 0, z: s as i64, w: 0 },
        r1: V4 { x: 0, y: FX_ONE, z: 0, w: 0 },
        r2: V4 { x: fx_clamped(-s) as i64, y: 0, z: c as i64, w: 0 },
        r3: V4 { x: 0, y: 0, z: 0, w: FX_ONE },
    }
}

/// Rotation about the Z axis, from a sine and cosine pair.
pub open spec fn rot_z_spec(s: int, c: int) -> M4 {
    M4 {
        r0: V4 { x: c as i64, y: fx_clamped(-s) as i64, z: 0, w: 0 },
        r1: V4 { x: s as i64, y: c as i64, z: 0, w: 0 },
        r2: V4 { x: 0, y: 0, z: FX_ONE, w: 0 },
        r3: V4 { x: 0, y: 0, z: 0, w: FX_ONE },
    }
}

/// Uniform scale followed by translation, as one affine matrix.
pub open spec fn scale_translate_spec(t: V3, s: int) -> M4 {
    M4 {
        r0: V4 { x: s as i64, y: 0, z: 0, w: t.x },
        r1: V4 { x: 0, y: s as i64, z: 0, w: t.y },
        r2: V4 { x: 0, y: 0, z: s as i64, w: t.z },
        r3: V4 { x: 0, y: 0, z: 0, w: FX_ONE },
    }
}

/// The model matrix: rotations about Z, Y and X composed (X applied
/// first), then scaled and translated.
pub open spec fn model_matrix_spec(translation: V3, scale: int, rotation: V3) -> M4 {
    let rx = rot_x_spec(fx_sin_spec(rotation.x as int), fx_cos_spec(rotation.x as int));
    let ry = rot_y_spec(fx_sin_spec(rotation.y as int), fx_cos_spec(rotation.y as int));
    let rz = rot_z_spec(fx_sin_spec(rotation.z as int), fx_cos_spec(rotation.z as int));
    let rot = m4_mul_spec(m4_mul_spec(rz, ry), rx);
    m4_mul_spec(scale_translate_spec(translation, scale), rot)
}

/// Build the model matrix from scene parameters: Euler angles in
/// micro-radians, a uniform scale and a translation.
#[verifier::rlimit(100)]
pub fn create_model_matrix(translation: V3, scale: i64, rotation: V3) -> (m: M4)
    requires
        v3_in_range(translation),
        fx_in_range(scale as int),
        v3_in_range(rotation),
    ensures
        m == model_matrix_spec(translation, scale as int, rotation),
        m4_in_range(m),
{
    let sin_x: i64 = fx_sin(rotation.x);
    let cos_x: i64 = fx_cos(rotation.x);
    let sin_y: i64 = fx_sin(rotation.y);
    let cos_y: i64 = fx_cos(rotation.y);
    let sin_z: i64 = fx_sin(rotation.z);
    let cos_z: i64 = fx_cos(rotation.z);

    let rotation_matrix_x: M4 = M4::new(
        FX_ONE, 0, 0, 0,
        0, cos_x, fx_neg(sin_x), 0,
        0, sin_x, cos_x, 0,
        0, 0, 0, FX_ONE,
    );
    let rotation_matrix_y: M4 = M4::new(
        cos_y, 0, sin_y, 0,
        0, FX_ONE, 0, 0,
        fx_neg(sin_y), 0, cos_y, 0,
        0, 0, 0, FX_ONE,
    );
    let rotation_matrix_z: M4 = M4::new(
        cos_z, fx_neg(sin_z), 0, 0,
        sin_z, cos_z, 0, 0,
        0, 0, FX_ONE, 0,
        0, 0, 0, FX_ONE,
    );

    let rotation_matrix: M4 = rotation_matrix_z.mul_mat(&rotation_matrix_y).mul_mat(&rotation_matrix_x);

    let transform_matrix: M4 = M4::new(
        scale, 0, 0, translation.x,
        0, scale, 0, translation.y,
        0, 0, scale, translation.z,
        0, 0, 0, FX_ONE,
    );

    transform_matrix.mul_mat(&rotation_matrix)
}

/// At zero Euler angles the sine is exactly zero and the cosine exactly
/// one, so all three rotation factors are exactly the identity and the
/// model matrix is exactly the scale-and-translate transform.
pub proof fn lemma_model_matrix_zero_rotation(translation: V3, scale: int)
    requires
        v3_in_range(translation),
        fx_in_range(scale),
    ensures
        model_matrix_spec(translation, scale, V3 { x: 0, y: 0, z: 0 })
            == scale_translate_spec(translation, scale),
{
    assert(fx_sin_spec(0) == 0);
    assert(fx_mul_spec(FX_HALF_PI as int, FX_PI as int - FX_HALF_PI as int) == 2_467_401);
    assert(crate::fx::fx_rdiv_spec(39_478_416int, FX_FIVE_PI_SQ as int - 9_869_604)
        == FX_ONE as int);
    assert(crate::fx::fx_half_sin_spec(FX_HALF_PI as int) == FX_ONE as int);
    assert(fx_sin_spec(FX_HALF_PI as int) == FX_ONE as int);
    assert(fx_cos_spec(0) == FX_ONE as int);
    let i = m4_identity_spec();
    assert(rot_x_spec(fx_sin_spec(0), fx_cos_spec(0)) == i);
    assert(rot_y_spec(fx_sin_spec(0), fx_cos_spec(0)) == i);
    assert(rot_z_spec(fx_sin_spec(0), fx_cos_spec(0)) == i);
    assert(m4_mul_spec(i, i) == i);
    let st = scale_translate_spec(translation, scale);
    crate::fx::lemma_fx_mul_one(scale);
    crate::fx::lemma_fx_mul_one(translation.x as int);
    crate::fx::lemma_fx_mul_one(translation.y as int);
    crate::fx::lemma_fx_mul_one(translation.z as int);
    assert(m4_mul_spec(st, i) == st);
}

/// With zero rotation, unit scale and zero translation, the model matrix
/// is exactly the identity.
#[verifier::rlimit(100)]
pub proof fn lemma_model_matrix_identity()
    ensures
        model_matrix_spec(V3 { x: 0, y: 0, z: 0 }, FX_ONE as int, V3 { x: 0, y: 0, z: 0 })
            == m4_identity_spec(),
{
    lemma_model_matrix_zero_rotation(V3 { x: 0, y: 0, z: 0 }, FX_ONE as int);
    assert(scale_translate_spec(V3 { x: 0, y: 0, z: 0 }, FX_ONE as int)
        == m4_identity_spec());
}

/// The look-at view matrix from eye, target and up vectors.
pub open spec fn view_matrix_spec(eye: V3, center: V3, up: V3) -> M4 {
    let f = v3_normalized_spec(v3_sub_spec(center, eye));
    let s = v3_normalized_spec(v3_cross_spec(f, up));
    let u = v3_cross_spec(s, f);
    M4 {
        r0: V4 { x: s.x, y: s.y, z: s.z, w: fx_clamped(-v3_dot_spec(s, eye)) as i64 },
        r1: V4 { x: u.x, y: u.y, z: u.z, w: fx_clamped(-v3_dot_spec(u, eye)) as i64 },
        r2: V4 {
            x: fx_clamped(-f.x) as i64,
            y: fx_clamped(-f.y) as i64,
            z: fx_clamped(-f.z) as i64,
            w: v3_dot_spec(f, eye) as i64,
        },
        r3: V4 { x: 0, y: 0, z: 0, w: FX_ONE },
    }
}

/// Build the standard right-handed look-at transform.
pub fn create_view_matrix(eye: V3, center: V3, up: V3) -> (m: M4)
    requires
        v3_in_range(eye),
        v3_in_range(center),
        v3_in_range(up),
    ensures
        m == view_matrix_spec(eye, center, up),
        m4_in_range(m),
{
    let f: V3 = center.sub(&eye).normalize();
    let s: V3 = f.cross(&up).normalize();
    let u: V3 = s.cross(&f);
    M4::new(
        s.x, s.y, s.z, fx_neg(s.dot(&eye)),
        u.x, u.y, u.z, fx_neg(u.dot(&eye)),
        fx_neg(f.x), fx_neg(f.y), fx_neg(f.z), f.dot(&eye),
        0, 0, 0, FX_ONE,
    )
}

/// Cotangent of half the fixed 45-degree vertical field of view,
/// in micro-units.
pub const FX_FOCAL: i64 = 2_414_214;

/// The near plane distance, in micro-units.
pub const FX_NEAR: i64 = 100_000;

/// The far plane distance, in micro-units.
pub const FX_FAR: i64 = 1_000_000_000;

/// The perspective projection for the fixed field of view and the given
/// viewport proportions.
pub open spec fn perspective_matrix_spec(window_width: int, window_height: int) -> M4 {
    let aspect = fx_div_spec(window_width, window_height);
    let depth_range = fx_clamped(FX_FAR as int - FX_NEAR as int);
    let m22 = fx_clamped(-fx_div_spec(fx_clamped(FX_FAR as int + FX_NEAR as int), depth_range));
    let m23 = fx_clamped(-fx_div_spec(
        fx_mul_spec(2_000_000, fx_mul_spec(FX_FAR as int, FX_NEAR as int)), depth_range));
    M4 {
        r0: V4 { x: fx_div_spec(FX_FOCAL as int, aspect) as i64, y: 0, z: 0, w: 0 },
        r1: V4 { x: 0, y: FX_FOCAL, z: 0, w: 0 },
        r2: V4 { x: 0, y: 0, z: m22 as i64, w: m23 as i64 },
        r3: V4 { x: 0, y: 0, z: fx_clamped(-(FX_ONE as int)) as i64, w: 0 },
    }
}

/// Build the perspective projection. The viewport dimensions are pixel
/// counts in units (between one and one hundred thousand pixels).
pub fn create_perspective_matrix(window_width: i64, window_height: i64) -> (m: M4)
    requires
        FX_ONE <= window_width <= 100_000 * FX_ONE,
        FX_ONE <= window_height <= 100_000 * FX_ONE,
    ensures
        m == perspective_matrix_spec(window_width as int, window_height as int),
        m4_in_range(m),
{
    let aspect: i64 = fx_div(window_width, window_height);
    proof {
        vstd::arithmetic::div_mod::lemma_div_pos_is_pos(
            window_width as int * (FX_ONE as int), window_height as int);
        assert(window_width as int * (FX_ONE as int)
            >= window_height as int)
            by (nonlinear_arith)
            requires
                window_width as int >= FX_ONE as int,
                window_height as int <= 100_000 * (FX_ONE as int),
        ;
        vstd::arithmetic::div_mod::lemma_div_non_zero(
            window_width as int * (FX_ONE as int), window_height as int);
    }
    let depth_range: i64 = fx_sub(FX_FAR, FX_NEAR);
    let m22: i64 = fx_neg(fx_div(fx_add(FX_FAR, FX_NEAR), depth_range));
    let m23: i64 = fx_neg(fx_div(fx_mul(2_000_000, fx_mul(FX_FAR, FX_NEAR)), depth_range));
    M4::new(
        fx_div(FX_FOCAL, aspect), 0, 0, 0,
        0, FX_FOCAL, 0, 0,
        0, 0, m22, m23,
        0, 0, fx_neg(FX_ONE), 0,
    )
}

/// The viewport transform: normalized device coordinates in `[-1, 1]` to
/// pixel space, with the vertical axis flipped and depth passed through.
pub open spec fn viewport_matrix_spec(width: int, height: int) -> M4 {
    M4 {
        r0: V4 {
            x: fx_mul_spec(width, 500_000) as i64, y: 0, z: 0,
            w: fx_mul_spec(width, 500_000) as i64,
        },
        r1: V4 {
            x: 0, y: fx_clamped(-fx_mul_spec(height, 500_000)) as i64, z: 0,
            w: fx_mul_spec(height, 500_000) as i64,
        },
        r2: V4 { x: 0, y: 0, z: FX_ONE, w: 0 },
        r3: V4 { x: 0, y: 0, z: 0, w: FX_ONE },
    }
}

/// Build the viewport matrix for a pixel buffer of the given dimensions
/// (micro-units of pixels).
pub fn create_viewport_matrix(width: i64, height: i64) -> (m: M4)
    requires
        fx_in_range(width as int),
        fx_in_range(height as int),
    ensures
        m == viewport_matrix_spec(width as int, height as int),
        m4_in_range(m),
{
    let half_w: i64 = fx_mul(width, 500_000);
    let half_h: i64 = fx_mul(height, 500_000);
    M4::new(
        half_w, 0, 0, half_w,
        0, fx_neg(half_h), 0, half_h,
        0, 0, FX_ONE, 0,
        0, 0, 0, FX_ONE,
    )
}

} // verus!
