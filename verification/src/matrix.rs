//! 4x4 transformation matrices over Q16.16 fixed point.
//!
//! Entries are named row by row (`m01` is row 0, column 1), matching the
//! row-major argument order of the matrix-building operations. Composition
//! is exact saturating fixed-point arithmetic, so matrix products are
//! deterministic and can be stated entry by entry in contracts.

use vstd::prelude::*;

use crate::fixed_point::{fx_add, fx_add_spec, fx_mul, fx_mul_spec, fx_sub, fx_sub_spec, FX_UNIT};

verus! {

/// A 4x4 matrix of Q16.16 fixed-point entries, row-major.
#[derive(Clone, Copy, Debug, PartialEq, Eq, Structural)]
pub struct Mat4 {
    pub m00: i32,
    pub m01: i32,
    pub m02: i32,
    pub m03: i32,
    pub m10: i32,
    pub m11: i32,
    pub m12: i32,
    pub m13: i32,
    pub m20: i32,
    pub m21: i32,
    pub m22: i32,
    pub m23: i32,
    pub m30: i32,
    pub m31: i32,
    pub m32: i32,
    pub m33: i32,
}

/// The identity matrix.
pub open spec fn mat4_identity_spec() -> Mat4 {
    Mat4 {
        m00: 65536,
        m01: 0,
        m02: 0,
        m03: 0,
        m10: 0,
        m11: 65536,
        m12: 0,
        m13: 0,
        m20: 0,
        m21: 0,
        m22: 65536,
        m23: 0,
        m30: 0,
        m31: 0,
        m32: 0,
        m33: 65536,
    }
}

/// A four-term fixed-point dot product.
pub open spec fn fx_dot4_spec(a0: int, a1: int, a2: int, a3: int, b0: int, b1: int, b2: int, b3: int) -> int {
    fx_add_spec(
        fx_add_spec(fx_add_spec(fx_mul_spec(a0, b0), fx_mul_spec(a1, b1)), fx_mul_spec(a2, b2)),
        fx_mul_spec(a3, b3),
    )
}

/// Entry (r, c) of the product `a * b` is the dot product of row r of `a`
/// with column c of `b`.
pub open spec fn mat4_mul_spec(a: Mat4, b: Mat4) -> Mat4 {
    Mat4 {
        m00: fx_dot4_spec(a.m00 as int, a.m01 as int, a.m02 as int, a.m03 as int, b.m00 as int, b.m10 as int, b.m20 as int, b.m30 as int) as i32,
        m01: fx_dot4_spec(a.m00 as int, a.m01 as int, a.m02 as int, a.m03 as int, b.m01 as int, b.m11 as int, b.m21 as int, b.m31 as int) as i32,
        m02: fx_dot4_spec(a.m00 as int, a.m01 as int, a.m02 as int, a.m03 as int, b.m02 as int, b.m12 as int, b.m22 as int, b.m32 as int) as i32,
        m03: fx_dot4_spec(a.m00 as int, a.m01 as int, a.m02 as int, a.m03 as int, b.m03 as int, b.m13 as int, b.m23 as int, b.m33 as int) as i32,
        m10: fx_dot4_spec(a.m10 as int, a.m11 as int, a.m12 as int, a.m13 as int, b.m00 as int, b.m10 as int, b.m20 as int, b.m30 as int) as i32,
        m11: fx_dot4_spec(a.m10 as int, a.m11 as int, a.m12 as int, a.m13 as int, b.m01 as int, b.m11 as int, b.m21 as int, b.m31 as int) as i32,
        m12: fx_dot4_spec(a.m10 as int, a.m11 as int, a.m12 as int, a.m13 as int, b.m02 as int, b.m12 as int, b.m22 as int, b.m32 as int) as i32,
        m13: fx_dot4_spec(a.m10 as int, a.m11 as int, a.m12 as int, a.m13 as int, b.m03 as int, b.m13 as int, b.m23 as int, b.m33 as int) as i32,
        m20: fx_dot4_spec(a.m20 as int, a.m21 as int, a.m22 as int, a.m23 as int, b.m00 as int, b.m10 as int, b.m20 as int, b.m30 as int) as i32,
        m21: fx_dot4_spec(a.m20 as int, a.m21 as int, a.m22 as int, a.m23 as int, b.m01 as int, b.m11 as int, b.m21 as int, b.m31 as int) as i32,
        m22: fx_dot4_spec(a.m20 as int, a.m21 as int, a.m22 as int, a.m23 as int, b.m02 as int, b.m12 as int, b.m22 as int, b.m32 as int) as i32,
        m23: fx_dot4_spec(a.m20 as int, a.m21 as int, a.m22 as int, a.m23 as int, b.m03 as int, b.m13 as int, b.m23 as int, b.m33 as int) as i32,
        m30: fx_dot4_spec(a.m30 as int, a.m31 as int, a.m32 as int, a.m33 as int, b.m00 as int, b.m10 as int, b.m20 as int, b.m30 as int) as i32,
        m31: fx_dot4_spec(a.m30 as int, a.m31 as int, a.m32 as int, a.m33 as int, b.m01 as int, b.m11 as int, b.m21 as int, b.m31 as int) as i32,
        m32: fx_dot4_spec(a.m30 as int, a.m31 as int, a.m32 as int, a.m33 as int, b.m02 as int, b.m12 as int, b.m22 as int, b.m32 as int) as i32,
        m33: fx_dot4_spec(a.m30 as int, a.m31 as int, a.m32 as int, a.m33 as int, b.m03 as int, b.m13 as int, b.m23 as int, b.m33 as int) as i32,
    }
}

impl Mat4 {
    /// The identity matrix.
    pub fn identity() -> (r: Mat4)
        ensures
            r == mat4_identity_spec(),
    {
        Mat4 {
            m00: FX_UNIT,
            m01: 0,
            m02: 0,
            m03: 0,
            m10: 0,
            m11: FX_UNIT,
            m12: 0,
            m13: 0,
            m20: 0,
            m21: 0,
            m22: FX_UNIT,
            m23: 0,
            m30: 0,
            m31: 0,
            m32: 0,
            m33: FX_UNIT,
        }
    }

    /// A matrix built from sixteen entries given row by row.
    pub fn from_rows(
        n00: i32, n01: i32, n02: i32, n03: i32,
        n10: i32, n11: i32, n12: i32, n13: i32,
        n20: i32, n21: i32, n22: i32, n23: i32,
        n30: i32, n31: i32, n32: i32, n33: i32,
    ) -> (r: Mat4)
        ensures
            r == (Mat4 {
                m00: n00, m01: n01, m02: n02, m03: n03,
                m10: n10, m11: n11, m12: n12, m13: n13,
                m20: n20, m21: n21, m22: n22, m23: n23,
                m30: n30, m31: n31, m32: n32, m33: n33,
            }),
    {
        Mat4 {
            m00: n00, m01: n01, m02: n02, m03: n03,
            m10: n10, m11: n11, m12: n12, m13: n13,
            m20: n20, m21: n21, m22: n22, m23: n23,
            m30: n30, m31: n31, m32: n32, m33: n33,
        }
    }
}

/// A four-term fixed-point dot product on raw values.
fn fx_dot4(a0: i32, a1: i32, a2: i32, a3: i32, b0: i32, b1: i32, b2: i32, b3: i32) -> (r: i32)
    ensures
        r as int == fx_dot4_spec(a0 as int, a1 as int, a2 as int, a3 as int, b0 as int, b1 as int, b2 as int, b3 as int),
{
    let t0: i32 = fx_mul(a0, b0);
    let t1: i32 = fx_mul(a1, b1);
    let t2: i32 = fx_mul(a2, b2);
    let t3: i32 = fx_mul(a3, b3);
    fx_add(fx_add(fx_add(t0, t1), t2), t3)
}

/// The matrix product `a * b` over saturating fixed-point arithmetic.
pub fn mat4_mul(a: &Mat4, b: &Mat4) -> (r: Mat4)
    ensures
        r == mat4_mul_spec(*a, *b),
{
    Mat4 {
        m00: fx_dot4(a.m00, a.m01, a.m02, a.m03, b.m00, b.m10, b.m20, b.m30),
        m01: fx_dot4(a.m00, a.m01, a.m02, a.m03, b.m01, b.m11, b.m21, b.m31),
        m02: fx_dot4(a.m00, a.m01, a.m02, a.m03, b.m02, b.m12, b.m22, b.m32),
        m03: fx_dot4(a.m00, a.m01, a.m02, a.m03, b.m03, b.m13, b.m23, b.m33),
        m10: fx_dot4(a.m10, a.m11, a.m12, a.m13, b.m00, b.m10, b.m20, b.m30),
        m11: fx_dot4(a.m10, a.m11, a.m12, a.m13, b.m01, b.m11, b.m21, b.m31),
        m12: fx_dot4(a.m10, a.m11, a.m12, a.m13, b.m02, b.m12, b.m22, b.m32),
        m13: fx_dot4(a.m10, a.m11, a.m12, a.m13, b.m03, b.m13, b.m23, b.m33),
        m20: fx_dot4(a.m20, a.m21, a.m22, a.m23, b.m00, b.m10, b.m20, b.m30),
        m21: fx_dot4(a.m20, a.m21, a.m22, a.m23, b.m01, b.m11, b.m21, b.m31),
        m22: fx_dot4(a.m20, a.m21, a.m22, a.m23, b.m02, b.m12, b.m22, b.m32),
        m23: fx_dot4(a.m20, a.m21, a.m22, a.m23, b.m03, b.m13, b.m23, b.m33),
        m30: fx_dot4(a.m30, a.m31, a.m32, a.m33, b.m00, b.m10, b.m20, b.m30),
        m31: fx_dot4(a.m30, a.m31, a.m32, a.m33, b.m01, b.m11, b.m21, b.m31),
        m32: fx_dot4(a.m30, a.m31, a.m32, a.m33, b.m02, b.m12, b.m22, b.m32),
        m33: fx_dot4(a.m30, a.m31, a.m32, a.m33, b.m03, b.m13, b.m23, b.m33),
    }
}

/// A translation by (x, y, z).
pub open spec fn mat4_translation_spec(x: int, y: int, z: int) -> Mat4 {
    Mat4 {
        m00: 65536, m01: 0, m02: 0, m03: x as i32,
        m10: 0, m11: 65536, m12: 0, m13: y as i32,
        m20: 0, m21: 0, m22: 65536, m23: z as i32,
        m30: 0, m31: 0, m32: 0, m33: 65536,
    }
}

/// A translation matrix on raw values.
pub fn mat4_translation(x: i32, y: i32, z: i32) -> (r: Mat4)
    ensures
        r == mat4_translation_spec(x as int, y as int, z as int),
{
    Mat4 {
        m00: FX_UNIT, m01: 0, m02: 0, m03: x,
        m10: 0, m11: FX_UNIT, m12: 0, m13: y,
        m20: 0, m21: 0, m22: FX_UNIT, m23: z,
        m30: 0, m31: 0, m32: 0, m33: FX_UNIT,
    }
}

/// A non-uniform scaling by (x, y, z).
pub open spec fn mat4_scaling_spec(x: int, y: int, z: int) -> Mat4 {
    Mat4 {
        m00: x as i32, m01: 0, m02: 0, m03: 0,
        m10: 0, m11: y as i32, m12: 0, m13: 0,
        m20: 0, m21: 0, m22: z as i32, m23: 0,
        m30: 0, m31: 0, m32: 0, m33: 65536,
    }
}

/// A non-uniform scaling matrix on raw values.
pub fn mat4_scaling(x: i32, y: i32, z: i32) -> (r: Mat4)
    ensures
        r == mat4_scaling_spec(x as int, y as int, z as int),
{
    Mat4 {
        m00: x, m01: 0, m02: 0, m03: 0,
        m10: 0, m11: y, m12: 0, m13: 0,
        m20: 0, m21: 0, m22: z, m23: 0,
        m30: 0, m31: 0, m32: 0, m33: FX_UNIT,
    }
}

/// A shear about the x-axis with factor `t` in entry (0, 1).
pub open spec fn mat4_shear_x_spec(t: int) -> Mat4 {
    Mat4 {
        m00: 65536, m01: t as i32, m02: 0, m03: 0,
        m10: 0, m11: 65536, m12: 0, m13: 0,
        m20: 0, m21: 0, m22: 65536, m23: 0,
        m30: 0, m31: 0, m32: 0, m33: 65536,
    }
}

/// A shear matrix about the x-axis on a raw factor.
pub fn mat4_shear_x(t: i32) -> (r: Mat4)
    ensures
        r == mat4_shear_x_spec(t as int),
{
    Mat4 {
        m00: FX_UNIT, m01: t, m02: 0, m03: 0,
        m10: 0, m11: FX_UNIT, m12: 0, m13: 0,
        m20: 0, m21: 0, m22: FX_UNIT, m23: 0,
        m30: 0, m31: 0, m32: 0, m33: FX_UNIT,
    }
}

/// A shear about the y-axis with factor `t` in entry (1, 0).
pub open spec fn mat4_shear_y_spec(t: int) -> Mat4 {
    Mat4 {
        m00: 65536, m01: 0, m02: 0, m03: 0,
        m10: t as i32, m11: 65536, m12: 0, m13: 0,
        m20: 0, m21: 0, m22: 65536, m23: 0,
        m30: 0, m31: 0, m32: 0, m33: 65536,
    }
}

/// The rotation matrix for an axis (x, y, z), taken as given without
/// normalization, and an angle whose cosine is `c` and sine is `s`: the
/// axis-angle (Rodrigues) form, evaluated in saturating fixed point.
pub open spec fn mat4_rotation_spec(c: int, s: int, x: int, y: int, z: int) -> Mat4 {
    let omc = fx_sub_spec(65536, c);
    Mat4 {
        m00: fx_add_spec(c, fx_mul_spec(fx_mul_spec(x, x), omc)) as i32,
        m01: fx_sub_spec(fx_mul_spec(fx_mul_spec(x, y), omc), fx_mul_spec(z, s)) as i32,
        m02: fx_add_spec(fx_mul_spec(fx_mul_spec(x, z), omc), fx_mul_spec(y, s)) as i32,
        m03: 0,
        m10: fx_add_spec(fx_mul_spec(fx_mul_spec(x, y), omc), fx_mul_spec(z, s)) as i32,
        m11: fx_add_spec(c, fx_mul_spec(fx_mul_spec(y, y), omc)) as i32,
        m12: fx_sub_spec(fx_mul_spec(fx_mul_spec(y, z), omc), fx_mul_spec(x, s)) as i32,
        m13: 0,
        m20: fx_sub_spec(fx_mul_spec(fx_mul_spec(x, z), omc), fx_mul_spec(y, s)) as i32,
        m21: fx_add_spec(fx_mul_spec(fx_mul_spec(y, z), omc), fx_mul_spec(x, s)) as i32,
        m22: fx_add_spec(c, fx_mul_spec(fx_mul_spec(z, z), omc)) as i32,
        m23: 0,
        m30: 0,
        m31: 0,
        m32: 0,
        m33: 65536,
    }
}

/// The axis-angle rotation matrix on raw values.
pub fn mat4_rotation(c: i32, s: i32, x: i32, y: i32, z: i32) -> (r: Mat4)
    ensures
        r == mat4_rotation_spec(c as int, s as int, x as int, y as int, z as int),
{
    let omc: i32 = fx_sub(FX_UNIT, c);
    Mat4 {
        m00: fx_add(c, fx_mul(fx_mul(x, x), omc)),
        m01: fx_sub(fx_mul(fx_mul(x, y), omc), fx_mul(z, s)),
        m02: fx_add(fx_mul(fx_mul(x, z), omc), fx_mul(y, s)),
        m03: 0,
        m10: fx_add(fx_mul(fx_mul(x, y), omc), fx_mul(z, s)),
        m11: fx_add(c, fx_mul(fx_mul(y, y), omc)),
        m12: fx_sub(fx_mul(fx_mul(y, z), omc), fx_mul(x, s)),
        m13: 0,
        m20: fx_sub(fx_mul(fx_mul(x, z), omc), fx_mul(y, s)),
        m21: fx_add(fx_mul(fx_mul(y, z), omc), fx_mul(x, s)),
        m22: fx_add(c, fx_mul(fx_mul(z, z), omc)),
        m23: 0,
        m30: 0,
        m31: 0,
        m32: 0,
        m33: FX_UNIT,
    }
}

/// A shear matrix about the y-axis on a raw factor.
pub fn mat4_shear_y(t: i32) -> (r: Mat4)
    ensures
        r == mat4_shear_y_spec(t as int),
{
    Mat4 {
        m00: FX_UNIT, m01: 0, m02: 0, m03: 0,
        m10: t, m11: FX_UNIT, m12: 0, m13: 0,
        m20: 0, m21: 0, m22: FX_UNIT, m23: 0,
        m30: 0, m31: 0, m32: 0, m33: FX_UNIT,
    }
}

} // verus!
