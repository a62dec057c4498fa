//! Homogeneous 4-vectors and row-major 4x4 matrices of fixed-point scalars.

use vstd::prelude::*;
use crate::fixed::{Fx, SCALE, mul_raw, fits_i64, lemma_mul_raw_bound};

verus! {

#[derive(Clone, Copy, PartialEq, Eq, Structural, Debug)]
pub struct V4 {
    pub x: Fx,
    pub y: Fx,
    pub z: Fx,
    pub w: Fx,
}

/// Rows are written out; `mRC` is row `R`, column `C`. The matrix acts on
/// column vectors: row `R` of the product with `v` is
/// `mR0*x + mR1*y + mR2*z + mR3*w`, every product rounded.
#[derive(Clone, Copy, PartialEq, Eq, Structural, Debug)]
pub struct Mat4 {
    pub m00: Fx,
    pub m01: Fx,
    pub m02: Fx,
    pub m03: Fx,
    pub m10: Fx,
    pub m11: Fx,
    pub m12: Fx,
    pub m13: Fx,
    pub m20: Fx,
    pub m21: Fx,
    pub m22: Fx,
    pub m23: Fx,
    pub m30: Fx,
    pub m31: Fx,
    pub m32: Fx,
    pub m33: Fx,
}

/// Sum of four rounded products: one entry of a matrix application.
pub open spec fn dot4_raw(a0: Fx, a1: Fx, a2: Fx, a3: Fx, b0: Fx, b1: Fx, b2: Fx, b3: Fx) -> int {
    mul_raw(a0.v(), b0.v()) + mul_raw(a1.v(), b1.v()) + mul_raw(a2.v(), b2.v()) + mul_raw(
        a3.v(),
        b3.v(),
    )
}

/// All intermediate values of `dot4_raw` stay representable.
pub open spec fn dot4_fits(a0: Fx, a1: Fx, a2: Fx, a3: Fx, b0: Fx, b1: Fx, b2: Fx, b3: Fx) -> bool {
    let p0 = mul_raw(a0.v(), b0.v());
    let p1 = mul_raw(a1.v(), b1.v());
    let p2 = mul_raw(a2.v(), b2.v());
    let p3 = mul_raw(a3.v(), b3.v());
    fits_i64(p0) && fits_i64(p1) && fits_i64(p2) && fits_i64(p3) && fits_i64(p0 + p1) && fits_i64(
        p0 + p1 + p2,
    ) && fits_i64(p0 + p1 + p2 + p3)
}

/// One entry of a matrix application, computed exactly as specified.
pub fn dot4(a0: Fx, a1: Fx, a2: Fx, a3: Fx, b0: Fx, b1: Fx, b2: Fx, b3: Fx) -> (r: Fx)
    requires
        dot4_fits(a0, a1, a2, a3, b0, b1, b2, b3),
    ensures
        r.v() == dot4_raw(a0, a1, a2, a3, b0, b1, b2, b3),
{
    a0.mul(b0).add(a1.mul(b1)).add(a2.mul(b2)).add(a3.mul(b3))
}

impl Mat4 {
    /// Every entry within the given magnitude.
    pub open spec fn abs_le(self, b: int) -> bool {
        &&& -b <= self.m00.v() <= b
        &&& -b <= self.m01.v() <= b
        &&& -b <= self.m02.v() <= b
        &&& -b <= self.m03.v() <= b
        &&& -b <= self.m10.v() <= b
        &&& -b <= self.m11.v() <= b
        &&& -b <= self.m12.v() <= b
        &&& -b <= self.m13.v() <= b
        &&& -b <= self.m20.v() <= b
        &&& -b <= self.m21.v() <= b
        &&& -b <= self.m22.v() <= b
        &&& -b <= self.m23.v() <= b
        &&& -b <= self.m30.v() <= b
        &&& -b <= self.m31.v() <= b
        &&& -b <= self.m32.v() <= b
        &&& -b <= self.m33.v() <= b
    }

    /// The intermediate values of `self` applied to `v` stay representable.
    pub open spec fn transform_fits(self, v: V4) -> bool {
        &&& dot4_fits(self.m00, self.m01, self.m02, self.m03, v.x, v.y, v.z, v.w)
        &&& dot4_fits(self.m10, self.m11, self.m12, self.m13, v.x, v.y, v.z, v.w)
        &&& dot4_fits(self.m20, self.m21, self.m22, self.m23, v.x, v.y, v.z, v.w)
        &&& dot4_fits(self.m30, self.m31, self.m32, self.m33, v.x, v.y, v.z, v.w)
    }

    /// Apply the matrix to a column vector.
    pub fn transform(self, v: V4) -> (r: V4)
        requires
            self.transform_fits(v),
        ensures
            r.x.v() == dot4_raw(self.m00, self.m01, self.m02, self.m03, v.x, v.y, v.z, v.w),
            r.y.v() == dot4_raw(self.m10, self.m11, self.m12, self.m13, v.x, v.y, v.z, v.w),
            r.z.v() == dot4_raw(self.m20, self.m21, self.m22, self.m23, v.x, v.y, v.z, v.w),
            r.w.v() == dot4_raw(self.m30, self.m31, self.m32, self.m33, v.x, v.y, v.z, v.w),
    {
        V4 {
            x: dot4(self.m00, self.m01, self.m02, self.m03, v.x, v.y, v.z, v.w),
            y: dot4(self.m10, self.m11, self.m12, self.m13, v.x, v.y, v.z, v.w),
            z: dot4(self.m20, self.m21, self.m22, self.m23, v.x, v.y, v.z, v.w),
            w: dot4(self.m30, self.m31, self.m32, self.m33, v.x, v.y, v.z, v.w),
        }
    }
}

/// Bound under which a product of matrices stays representable: with the left
/// factor's entries within `MUL_LEFT_LIM` and the right factor's within
/// `MUL_RIGHT_LIM`, each rounded product is at most 2*10^18 and a sum of four
/// stays below `i64::MAX`.
pub const MUL_LEFT_LIM: i64 = 2_000_000_000_000;

pub const MUL_RIGHT_LIM: i64 = 1_000_000_000_000;

/// One entry of a bounded matrix product.
fn mul_entry(a0: Fx, a1: Fx, a2: Fx, a3: Fx, b0: Fx, b1: Fx, b2: Fx, b3: Fx) -> (r: Fx)
    requires
        -(MUL_LEFT_LIM as int) <= a0.v() <= MUL_LEFT_LIM as int,
        -(MUL_LEFT_LIM as int) <= a1.v() <= MUL_LEFT_LIM as int,
        -(MUL_LEFT_LIM as int) <= a2.v() <= MUL_LEFT_LIM as int,
        -(MUL_LEFT_LIM as int) <= a3.v() <= MUL_LEFT_LIM as int,
        -(MUL_RIGHT_LIM as int) <= b0.v() <= MUL_RIGHT_LIM as int,
        -(MUL_RIGHT_LIM as int) <= b1.v() <= MUL_RIGHT_LIM as int,
        -(MUL_RIGHT_LIM as int) <= b2.v() <= MUL_RIGHT_LIM as int,
        -(MUL_RIGHT_LIM as int) <= b3.v() <= MUL_RIGHT_LIM as int,
    ensures
        r.v() == dot4_raw(a0, a1, a2, a3, b0, b1, b2, b3),
{
    proof {
        lemma_mul_raw_bound(a0.v(), b0.v(), MUL_LEFT_LIM as int, MUL_RIGHT_LIM as int);
        lemma_mul_raw_bound(a1.v(), b1.v(), MUL_LEFT_LIM as int, MUL_RIGHT_LIM as int);
        lemma_mul_raw_bound(a2.v(), b2.v(), MUL_LEFT_LIM as int, MUL_RIGHT_LIM as int);
        lemma_mul_raw_bound(a3.v(), b3.v(), MUL_LEFT_LIM as int, MUL_RIGHT_LIM as int);
    }
    dot4(a0, a1, a2, a3, b0, b1, b2, b3)
}

/// The matrix product, entry by entry: row of `a` against column of `b`.
pub open spec fn mat_mul_spec(a: Mat4, b: Mat4) -> Mat4 {
    Mat4 {
        m00: Fx { raw: dot4_raw(a.m00, a.m01, a.m02, a.m03, b.m00, b.m10, b.m20, b.m30) as i64 },
        m01: Fx { raw: dot4_raw(a.m00, a.m01, a.m02, a.m03, b.m01, b.m11, b.m21, b.m31) as i64 },
        m02: Fx { raw: dot4_raw(a.m00, a.m01, a.m02, a.m03, b.m02, b.m12, b.m22, b.m32) as i64 },
        m03: Fx { raw: dot4_raw(a.m00, a.m01, a.m02, a.m03, b.m03, b.m13, b.m23, b.m33) as i64 },
        m10: Fx { raw: dot4_raw(a.m10, a.m11, a.m12, a.m13, b.m00, b.m10, b.m20, b.m30) as i64 },
        m11: Fx { raw: dot4_raw(a.m10, a.m11, a.m12, a.m13, b.m01, b.m11, b.m21, b.m31) as i64 },
        m12: Fx { raw: dot4_raw(a.m10, a.m11, a.m12, a.m13, b.m02, b.m12, b.m22, b.m32) as i64 },
        m13: Fx { raw: dot4_raw(a.m10, a.m11, a.m12, a.m13, b.m03, b.m13, b.m23, b.m33) as i64 },
        m20: Fx { raw: dot4_raw(a.m20, a.m21, a.m22, a.m23, b.m00, b.m10, b.m20, b.m30) as i64 },
        m21: Fx { raw: dot4_raw(a.m20, a.m21, a.m22, a.m23, b.m01, b.m11, b.m21, b.m31) as i64 },
        m22: Fx { raw: dot4_raw(a.m20, a.m21, a.m22, a.m23, b.m02, b.m12, b.m22, b.m32) as i64 },
        m23: Fx { raw: dot4_raw(a.m20, a.m21, a.m22, a.m23, b.m03, b.m13, b.m23, b.m33) as i64 },
        m30: Fx { raw: dot4_raw(a.m30, a.m31, a.m32, a.m33, b.m00, b.m10, b.m20, b.m30) as i64 },
        m31: Fx { raw: dot4_raw(a.m30, a.m31, a.m32, a.m33, b.m01, b.m11, b.m21, b.m31) as i64 },
        m32: Fx { raw: dot4_raw(a.m30, a.m31, a.m32, a.m33, b.m02, b.m12, b.m22, b.m32) as i64 },
        m33: Fx { raw: dot4_raw(a.m30, a.m31, a.m32, a.m33, b.m03, b.m13, b.m23, b.m33) as i64 },
    }
}

/// Matrix product `a * b`, every entry a `dot4_raw` of a row of `a` with a
/// column of `b`.
pub fn matmul(a: &Mat4, b: &Mat4) -> (r: Mat4)
    requires
        a.abs_le(MUL_LEFT_LIM as int),
        b.abs_le(MUL_RIGHT_LIM as int),
    ensures
        r == mat_mul_spec(*a, *b),
        r.m00.v() == dot4_raw(a.m00, a.m01, a.m02, a.m03, b.m00, b.m10, b.m20, b.m30),
        r.m01.v() == dot4_raw(a.m00, a.m01, a.m02, a.m03, b.m01, b.m11, b.m21, b.m31),
        r.m02.v() == dot4_raw(a.m00, a.m01, a.m02, a.m03, b.m02, b.m12, b.m22, b.m32),
        r.m03.v() == dot4_raw(a.m00, a.m01, a.m02, a.m03, b.m03, b.m13, b.m23, b.m33),
        r.m10.v() == dot4_raw(a.m10, a.m11, a.m12, a.m13, b.m00, b.m10, b.m20, b.m30),
        r.m11.v() == dot4_raw(a.m10, a.m11, a.m12, a.m13, b.m01, b.m11, b.m21, b.m31),
        r.m12.v() == dot4_raw(a.m10, a.m11, a.m12, a.m13, b.m02, b.m12, b.m22, b.m32),
        r.m13.v() == dot4_raw(a.m10, a.m11, a.m12, a.m13, b.m03, b.m13, b.m23, b.m33),
        r.m20.v() == dot4_raw(a.m20, a.m21, a.m22, a.m23, b.m00, b.m10, b.m20, b.m30),
        r.m21.v() == dot4_raw(a.m20, a.m21, a.m22, a.m23, b.m01, b.m11, b.m21, b.m31),
        r.m22.v() == dot4_raw(a.m20, a.m21, a.m22, a.m23, b.m02, b.m12, b.m22, b.m32),
        r.m23.v() == dot4_raw(a.m20, a.m21, a.m22, a.m23, b.m03, b.m13, b.m23, b.m33),
        r.m30.v() == dot4_raw(a.m30, a.m31, a.m32, a.m33, b.m00, b.m10, b.m20, b.m30),
        r.m31.v() == dot4_raw(a.m30, a.m31, a.m32, a.m33, b.m01, b.m11, b.m21, b.m31),
        r.m32.v() == dot4_raw(a.m30, a.m31, a.m32, a.m33, b.m02, b.m12, b.m22, b.m32),
        r.m33.v() == dot4_raw(a.m30, a.m31, a.m32, a.m33, b.m03, b.m13, b.m23, b.m33),
{
    Mat4 {
        m00: mul_entry(a.m00, a.m01, a.m02, a.m03, b.m00, b.m10, b.m20, b.m30),
        m01: mul_entry(a.m00, a.m01, a.m02, a.m03, b.m01, b.m11, b.m21, b.m31),
        m02: mul_entry(a.m00, a.m01, a.m02, a.m03, b.m02, b.m12, b.m22, b.m32),
        m03: mul_entry(a.m00, a.m01, a.m02, a.m03, b.m03, b.m13, b.m23, b.m33),
        m10: mul_entry(a.m10, a.m11, a.m12, a.m13, b.m00, b.m10, b.m20, b.m30),
        m11: mul_entry(a.m10, a.m11, a.m12, a.m13, b.m01, b.m11, b.m21, b.m31),
        m12: mul_entry(a.m10, a.m11, a.m12, a.m13, b.m02, b.m12, b.m22, b.m32),
        m13: mul_entry(a.m10, a.m11, a.m12, a.m13, b.m03, b.m13, b.m23, b.m33),
        m20: mul_entry(a.m20, a.m21, a.m22, a.m23, b.m00, b.m10, b.m20, b.m30),
        m21: mul_entry(a.m20, a.m21, a.m22, a.m23, b.m01, b.m11, b.m21, b.m31),
        m22: mul_entry(a.m20, a.m21, a.m22, a.m23, b.m02, b.m12, b.m22, b.m32),
        m23: mul_entry(a.m20, a.m21, a.m22, a.m23, b.m03, b.m13, b.m23, b.m33),
        m30: mul_entry(a.m30, a.m31, a.m32, a.m33, b.m00, b.m10, b.m20, b.m30),
        m31: mul_entry(a.m30, a.m31, a.m32, a.m33, b.m01, b.m11, b.m21, b.m31),
        m32: mul_entry(a.m30, a.m31, a.m32, a.m33, b.m02, b.m12, b.m22, b.m32),
        m33: mul_entry(a.m30, a.m31, a.m32, a.m33, b.m03, b.m13, b.m23, b.m33),
    }
}

/// The identity matrix: ones down the diagonal.
pub open spec fn identity_spec() -> Mat4 {
    Mat4 {
        m00: Fx { raw: SCALE },
        m01: Fx { raw: 0 },
        m02: Fx { raw: 0 },
        m03: Fx { raw: 0 },
        m10: Fx { raw: 0 },
        m11: Fx { raw: SCALE },
        m12: Fx { raw: 0 },
        m13: Fx { raw: 0 },
        m20: Fx { raw: 0 },
        m21: Fx { raw: 0 },
        m22: Fx { raw: SCALE },
        m23: Fx { raw: 0 },
        m30: Fx { raw: 0 },
        m31: Fx { raw: 0 },
        m32: Fx { raw: 0 },
        m33: Fx { raw: SCALE },
    }
}

pub fn identity() -> (r: Mat4)
    ensures
        r == identity_spec(),
{
    let one = Fx { raw: SCALE };
    let zero = Fx { raw: 0 };
    Mat4 {
        m00: one,
        m01: zero,
        m02: zero,
        m03: zero,
        m10: zero,
        m11: one,
        m12: zero,
        m13: zero,
        m20: zero,
        m21: zero,
        m22: one,
        m23: zero,
        m30: zero,
        m31: zero,
        m32: zero,
        m33: one,
    }
}

} // verus!
