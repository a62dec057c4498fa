//! Camera, projection and the packed camera uniform.
//!
//! A camera holds an eye position and a yaw/pitch orientation (angles in
//! fixed-point radians). Its view matrix is the right-handed look matrix
//! composed from the supplied sines and cosines of those angles: for an exact
//! sine/cosine pair the intermediate normalizations of the usual derivation
//! are identities, so the matrix is built from the raw products directly.

use vstd::prelude::*;
use crate::fixed::{
    Fx, SCALE, mul_raw, div_raw, tdiv, lemma_mul_raw_bound, lemma_div_raw_bound,
    lemma_mul_raw_whole, lemma_mul_raw_neg_left,
};
use crate::vec::{V3, dot_raw};
use crate::mat4::{Mat4, V4, dot4_raw, MUL_LEFT_LIM, MUL_RIGHT_LIM};

verus! {

/// Largest eye-coordinate magnitude `calc_matrix` accepts (a machine limit:
/// it keeps every product of the matrix composition inside `i64`).
pub const POS_LIM: i64 = 1_000_000_000_000_000;

/// The pitch clamp bound: a tenth of a milliradian short of a right angle,
/// in fixed-point radians.
pub const MAX_PITCH: i64 = 1_570_696;

/// Sines and cosines of a camera's yaw and pitch, supplied by the caller.
/// Nothing here can evaluate them; the model only needs them bounded by one.
#[derive(Clone, Copy, PartialEq, Eq, Structural, Debug)]
pub struct CamTrig {
    pub yaw_sin: Fx,
    pub yaw_cos: Fx,
    pub pitch_sin: Fx,
    pub pitch_cos: Fx,
}

impl CamTrig {
    /// Every value within `[-1, 1]` in fixed point.
    pub open spec fn ok(self) -> bool {
        &&& -(SCALE as int) <= self.yaw_sin.v() <= SCALE as int
        &&& -(SCALE as int) <= self.yaw_cos.v() <= SCALE as int
        &&& -(SCALE as int) <= self.pitch_sin.v() <= SCALE as int
        &&& -(SCALE as int) <= self.pitch_cos.v() <= SCALE as int
    }

    /// Build a trig record, clamping each value into `[-1, 1]` so that the
    /// result is always usable (an evaluation that is a hair outside the
    /// range through conversion rounding is brought back in).
    pub fn new(yaw_sin: Fx, yaw_cos: Fx, pitch_sin: Fx, pitch_cos: Fx) -> (r: CamTrig)
        ensures
            r.ok(),
            r.yaw_sin.v() == crate::fixed::clamp_raw(yaw_sin.v(), -(SCALE as int), SCALE as int),
            r.yaw_cos.v() == crate::fixed::clamp_raw(yaw_cos.v(), -(SCALE as int), SCALE as int),
            r.pitch_sin.v() == crate::fixed::clamp_raw(
                pitch_sin.v(),
                -(SCALE as int),
                SCALE as int,
            ),
            r.pitch_cos.v() == crate::fixed::clamp_raw(
                pitch_cos.v(),
                -(SCALE as int),
                SCALE as int,
            ),
    {
        let lo = Fx { raw: -SCALE };
        let hi = Fx { raw: SCALE };
        CamTrig {
            yaw_sin: yaw_sin.clamp_to(lo, hi),
            yaw_cos: yaw_cos.clamp_to(lo, hi),
            pitch_sin: pitch_sin.clamp_to(lo, hi),
            pitch_cos: pitch_cos.clamp_to(lo, hi),
        }
    }
}

/// The look direction derived from yaw and pitch:
/// `(cos pitch * cos yaw, sin pitch, cos pitch * sin yaw)`.
pub open spec fn fwd_vec(t: CamTrig) -> V3 {
    V3 {
        x: Fx { raw: mul_raw(t.pitch_cos.v(), t.yaw_cos.v()) as i64 },
        y: t.pitch_sin,
        z: Fx { raw: mul_raw(t.pitch_cos.v(), t.yaw_sin.v()) as i64 },
    }
}

/// The side (right) direction: `(-sin yaw, 0, cos yaw)`.
pub open spec fn side_vec(t: CamTrig) -> V3 {
    V3 { x: Fx { raw: (-t.yaw_sin.v()) as i64 }, y: Fx { raw: 0 }, z: t.yaw_cos }
}

/// The camera-up direction: the cross product of side and look directions.
pub open spec fn up_vec(t: CamTrig) -> V3 {
    let s = side_vec(t);
    let f = fwd_vec(t);
    V3 {
        x: Fx { raw: (mul_raw(s.y.v(), f.z.v()) - mul_raw(s.z.v(), f.y.v())) as i64 },
        y: Fx { raw: (mul_raw(s.z.v(), f.x.v()) - mul_raw(s.x.v(), f.z.v())) as i64 },
        z: Fx { raw: (mul_raw(s.x.v(), f.y.v()) - mul_raw(s.y.v(), f.x.v())) as i64 },
    }
}

/// The right-handed view matrix: rows are the side, up and negated look
/// directions, with translations that undo the eye position.
pub open spec fn view_matrix_spec(cam: Camera, t: CamTrig) -> Mat4 {
    let s = side_vec(t);
    let u = up_vec(t);
    let f = fwd_vec(t);
    Mat4 {
        m00: s.x,
        m01: s.y,
        m02: s.z,
        m03: Fx { raw: (-dot_raw(s, cam.position)) as i64 },
        m10: u.x,
        m11: u.y,
        m12: u.z,
        m13: Fx { raw: (-dot_raw(u, cam.position)) as i64 },
        m20: Fx { raw: (-f.x.v()) as i64 },
        m21: Fx { raw: (-f.y.v()) as i64 },
        m22: Fx { raw: (-f.z.v()) as i64 },
        m23: Fx { raw: dot_raw(f, cam.position) as i64 },
        m30: Fx { raw: 0 },
        m31: Fx { raw: 0 },
        m32: Fx { raw: 0 },
        m33: Fx { raw: SCALE },
    }
}

/// Free camera: eye position and yaw/pitch orientation.
#[derive(Clone, Copy, PartialEq, Eq, Structural, Debug)]
pub struct Camera {
    pub position: V3,
    pub yaw: Fx,
    pub pitch: Fx,
}

impl Camera {
    /// The camera invariant: pitch stays strictly short of a right angle, so
    /// the up direction never degenerates.
    pub open spec fn wf(self) -> bool {
        -(MAX_PITCH as int) <= self.pitch.v() <= MAX_PITCH as int
    }

    pub fn new(position: V3, yaw: Fx, pitch: Fx) -> (r: Camera)
        ensures
            r == (Camera { position, yaw, pitch }),
    {
        Camera { position, yaw, pitch }
    }

    /// The view matrix for this camera, given the sines and cosines of its
    /// yaw and pitch.
    pub fn calc_matrix(&self, t: CamTrig) -> (m: Mat4)
        requires
            t.ok(),
            self.position.abs_le(POS_LIM as int),
        ensures
            m == view_matrix_spec(*self, t),
    {
        proof {
            let s = SCALE as int;
            lemma_mul_raw_bound(t.pitch_cos.v(), t.yaw_cos.v(), s, s);
            lemma_mul_raw_bound(t.pitch_cos.v(), t.yaw_sin.v(), s, s);
        }
        let f = V3 {
            x: t.pitch_cos.mul(t.yaw_cos),
            y: t.pitch_sin,
            z: t.pitch_cos.mul(t.yaw_sin),
        };
        let sv = V3 { x: t.yaw_sin.neg(), y: Fx { raw: 0 }, z: t.yaw_cos };
        proof {
            let s = SCALE as int;
            lemma_mul_raw_bound(sv.y.v(), f.z.v(), s, s);
            lemma_mul_raw_bound(sv.z.v(), f.y.v(), s, s);
            lemma_mul_raw_bound(sv.z.v(), f.x.v(), s, s);
            lemma_mul_raw_bound(sv.x.v(), f.z.v(), s, s);
            lemma_mul_raw_bound(sv.x.v(), f.y.v(), s, s);
            lemma_mul_raw_bound(sv.y.v(), f.x.v(), s, s);
        }
        let u = sv.cross(f);
        proof {
            let s = SCALE as int;
            let p = POS_LIM as int;
            lemma_mul_raw_bound(sv.x.v(), self.position.x.v(), s, p);
            lemma_mul_raw_bound(sv.y.v(), self.position.y.v(), s, p);
            lemma_mul_raw_bound(sv.z.v(), self.position.z.v(), s, p);
            lemma_mul_raw_bound(u.x.v(), self.position.x.v(), 2 * s, p);
            lemma_mul_raw_bound(u.y.v(), self.position.y.v(), 2 * s, p);
            lemma_mul_raw_bound(u.z.v(), self.position.z.v(), 2 * s, p);
            lemma_mul_raw_bound(f.x.v(), self.position.x.v(), s, p);
            lemma_mul_raw_bound(f.y.v(), self.position.y.v(), s, p);
            lemma_mul_raw_bound(f.z.v(), self.position.z.v(), s, p);
        }
        let tx = sv.dot(self.position);
        let ty = u.dot(self.position);
        let tz = f.dot(self.position);
        Mat4 {
            m00: sv.x,
            m01: sv.y,
            m02: sv.z,
            m03: tx.neg(),
            m10: u.x,
            m11: u.y,
            m12: u.z,
            m13: ty.neg(),
            m20: f.x.neg(),
            m21: f.y.neg(),
            m22: f.z.neg(),
            m23: tz,
            m30: Fx { raw: 0 },
            m31: Fx { raw: 0 },
            m32: Fx { raw: 0 },
            m33: Fx { raw: SCALE },
        }
    }
}

/// The view matrix maps the eye itself to the origin of view space: applying
/// it to the homogeneous camera position gives `(0, 0, 0, 1)` exactly. (This
/// is the matrix side of "the inverse view transform recovers the camera
/// position".)
pub proof fn lemma_view_centers_camera(cam: Camera, t: CamTrig)
    requires
        t.ok(),
        cam.position.abs_le(POS_LIM as int),
    ensures
        ({
            let m = view_matrix_spec(cam, t);
            let p = V4 {
                x: cam.position.x,
                y: cam.position.y,
                z: cam.position.z,
                w: Fx { raw: SCALE },
            };
            &&& m.transform_fits(p)
            &&& dot4_raw(m.m00, m.m01, m.m02, m.m03, p.x, p.y, p.z, p.w) == 0
            &&& dot4_raw(m.m10, m.m11, m.m12, m.m13, p.x, p.y, p.z, p.w) == 0
            &&& dot4_raw(m.m20, m.m21, m.m22, m.m23, p.x, p.y, p.z, p.w) == 0
            &&& dot4_raw(m.m30, m.m31, m.m32, m.m33, p.x, p.y, p.z, p.w) == SCALE as int
        }),
{
    let s = SCALE as int;
    let pos = cam.position;
    let sv = side_vec(t);
    let u = up_vec(t);
    let f = fwd_vec(t);
    lemma_mul_raw_bound(t.pitch_cos.v(), t.yaw_cos.v(), s, s);
    lemma_mul_raw_bound(t.pitch_cos.v(), t.yaw_sin.v(), s, s);
    lemma_mul_raw_bound(sv.y.v(), f.z.v(), s, s);
    lemma_mul_raw_bound(sv.z.v(), f.y.v(), s, s);
    lemma_mul_raw_bound(sv.z.v(), f.x.v(), s, s);
    lemma_mul_raw_bound(sv.x.v(), f.z.v(), s, s);
    lemma_mul_raw_bound(sv.x.v(), f.y.v(), s, s);
    lemma_mul_raw_bound(sv.y.v(), f.x.v(), s, s);
    let p = POS_LIM as int;
    lemma_mul_raw_bound(sv.x.v(), pos.x.v(), s, p);
    lemma_mul_raw_bound(sv.y.v(), pos.y.v(), s, p);
    lemma_mul_raw_bound(sv.z.v(), pos.z.v(), s, p);
    lemma_mul_raw_bound(u.x.v(), pos.x.v(), 2 * s, p);
    lemma_mul_raw_bound(u.y.v(), pos.y.v(), 2 * s, p);
    lemma_mul_raw_bound(u.z.v(), pos.z.v(), 2 * s, p);
    lemma_mul_raw_bound(f.x.v(), pos.x.v(), s, p);
    lemma_mul_raw_bound(f.y.v(), pos.y.v(), s, p);
    lemma_mul_raw_bound(f.z.v(), pos.z.v(), s, p);
    let m = view_matrix_spec(cam, t);
    // The translation entry of each row weighs in with a whole factor of one,
    // which is exact, and cancels the row's dot product with the position.
    lemma_mul_raw_whole(m.m03.v(), 1);
    lemma_mul_raw_whole(m.m13.v(), 1);
    lemma_mul_raw_whole(m.m23.v(), 1);
    lemma_mul_raw_whole(s, 1);
    lemma_mul_raw_neg_left(f.x.v(), pos.x.v());
    lemma_mul_raw_neg_left(f.y.v(), pos.y.v());
    lemma_mul_raw_neg_left(f.z.v(), pos.z.v());
}

/// Apply a camera's view matrix to its own homogeneous position. The
/// contract pins the result to the origin of view space; the body computes
/// it with the public matrix and transform operations.
pub fn eye_in_view(cam: &Camera, t: CamTrig) -> (r: V4)
    requires
        t.ok(),
        cam.position.abs_le(POS_LIM as int),
    ensures
        r.x.v() == 0,
        r.y.v() == 0,
        r.z.v() == 0,
        r.w.v() == SCALE as int,
{
    proof {
        lemma_view_centers_camera(*cam, t);
    }
    let m = cam.calc_matrix(t);
    m.transform(V4 { x: cam.position.x, y: cam.position.y, z: cam.position.z, w: Fx { raw: SCALE } })
}

/// Eye-coordinate bound under which the view matrix is usable as the right
/// factor of a matrix product.
pub const VIEW_POS_LIM: i64 = 150_000_000_000;

/// Under `VIEW_POS_LIM`, every entry of the view matrix stays within the
/// right-factor bound of `matmul`.
pub proof fn lemma_view_matrix_bounded(cam: Camera, t: CamTrig)
    requires
        t.ok(),
        cam.position.abs_le(VIEW_POS_LIM as int),
    ensures
        view_matrix_spec(cam, t).abs_le(MUL_RIGHT_LIM as int),
{
    let s = SCALE as int;
    let b = VIEW_POS_LIM as int;
    let sv = side_vec(t);
    let u = up_vec(t);
    let f = fwd_vec(t);
    lemma_mul_raw_bound(t.pitch_cos.v(), t.yaw_cos.v(), s, s);
    lemma_mul_raw_bound(t.pitch_cos.v(), t.yaw_sin.v(), s, s);
    lemma_mul_raw_bound(sv.y.v(), f.z.v(), s, s);
    lemma_mul_raw_bound(sv.z.v(), f.y.v(), s, s);
    lemma_mul_raw_bound(sv.z.v(), f.x.v(), s, s);
    lemma_mul_raw_bound(sv.x.v(), f.z.v(), s, s);
    lemma_mul_raw_bound(sv.x.v(), f.y.v(), s, s);
    lemma_mul_raw_bound(sv.y.v(), f.x.v(), s, s);
    lemma_mul_raw_bound(sv.x.v(), cam.position.x.v(), s, b);
    lemma_mul_raw_bound(sv.y.v(), cam.position.y.v(), s, b);
    lemma_mul_raw_bound(sv.z.v(), cam.position.z.v(), s, b);
    lemma_mul_raw_bound(u.x.v(), cam.position.x.v(), 2 * s, b);
    lemma_mul_raw_bound(u.y.v(), cam.position.y.v(), 2 * s, b);
    lemma_mul_raw_bound(u.z.v(), cam.position.z.v(), 2 * s, b);
    lemma_mul_raw_bound(f.x.v(), cam.position.x.v(), s, b);
    lemma_mul_raw_bound(f.y.v(), cam.position.y.v(), s, b);
    lemma_mul_raw_bound(f.z.v(), cam.position.z.v(), s, b);
}

/// Largest depth-range value the projection accepts, in raw steps.
pub const Z_LIM: i64 = 1_000_000_000;

/// Largest cotangent of the half field of view the projection accepts.
pub const COT_LIM: i64 = 1_000_000_000;

/// Half of one, for the clip-space conversion.
pub const HALF: i64 = 500_000;

/// Perspective projection: aspect ratio derived from the surface size, a
/// vertical field of view and a near/far depth range.
#[derive(Clone, Copy, PartialEq, Eq, Structural, Debug)]
pub struct Projection {
    pub width: u32,
    pub height: u32,
    pub fovy: Fx,
    pub znear: Fx,
    pub zfar: Fx,
}

/// The fixed-point aspect ratio of a surface size.
pub open spec fn aspect_raw(width: u32, height: u32) -> int {
    tdiv(width * (SCALE as int), height as int)
}

/// The projection matrix for the given cotangent of the half field of view,
/// already adjusted from the conventional clip space (depth in `[-1, 1]`) to
/// the target one (depth in `[0, 1]`): the depth row is averaged with the
/// homogeneous row. The adjustment is the same whatever the backing API, so
/// output is consistent everywhere.
pub open spec fn proj_matrix_spec(p: Projection, cot: Fx) -> Mat4 {
    let a = aspect_raw(p.width, p.height);
    let e22 = div_raw(p.zfar.v() + p.znear.v(), p.zfar.v() - p.znear.v());
    let e23 = div_raw(2 * mul_raw(p.zfar.v(), p.znear.v()), p.zfar.v() - p.znear.v());
    Mat4 {
        m00: Fx { raw: div_raw(cot.v(), a) as i64 },
        m01: Fx { raw: 0 },
        m02: Fx { raw: 0 },
        m03: Fx { raw: 0 },
        m10: Fx { raw: 0 },
        m11: cot,
        m12: Fx { raw: 0 },
        m13: Fx { raw: 0 },
        m20: Fx { raw: 0 },
        m21: Fx { raw: 0 },
        m22: Fx { raw: (mul_raw(HALF as int, -e22) + mul_raw(HALF as int, -(SCALE as int))) as i64 },
        m23: Fx { raw: mul_raw(HALF as int, -e23) as i64 },
        m30: Fx { raw: 0 },
        m31: Fx { raw: 0 },
        m32: Fx { raw: (-(SCALE as int)) as i64 },
        m33: Fx { raw: 0 },
    }
}

impl Projection {
    /// The projection invariant: a usable surface size (neither degenerate
    /// nor narrower than a tenth of its height) and a positive depth range
    /// of at least one unit, reaching no further than `Z_LIM`.
    pub open spec fn wf(self) -> bool {
        &&& 1 <= self.width <= 100_000
        &&& 1 <= self.height <= 100_000
        &&& self.height <= 10 * self.width
        &&& 0 < self.znear.v()
        &&& self.znear.v() + (SCALE as int) <= self.zfar.v() <= Z_LIM as int
    }

    pub fn new(width: u32, height: u32, fovy: Fx, znear: Fx, zfar: Fx) -> (r: Projection)
        ensures
            r == (Projection { width, height, fovy, znear, zfar }),
    {
        Projection { width, height, fovy, znear, zfar }
    }

    /// A surface-size change touches nothing but the stored size (and hence
    /// the aspect ratio); field of view and depth range are fixed.
    pub fn resize(&mut self, width: u32, height: u32)
        ensures
            *final(self) == (Projection { width, height, ..*old(self) }),
    {
        self.width = width;
        self.height = height;
    }

    /// The projection matrix, given the cotangent of half the field of view.
    pub fn calc_matrix(&self, cot: Fx) -> (m: Mat4)
        requires
            self.wf(),
            0 < cot.v() <= COT_LIM as int,
        ensures
            m == proj_matrix_spec(*self, cot),
            m.abs_le(MUL_LEFT_LIM as int),
    {
        proof {
            lemma_aspect_range(self.width, self.height);
            lemma_div_raw_bound(cot.v(), aspect_raw(self.width, self.height), COT_LIM as int, 100_000);
            lemma_div_raw_bound(
                self.zfar.v() + self.znear.v(),
                self.zfar.v() - self.znear.v(),
                2 * (Z_LIM as int),
                SCALE as int,
            );
            lemma_mul_raw_bound(self.zfar.v(), self.znear.v(), Z_LIM as int, Z_LIM as int);
            lemma_div_raw_bound(
                2 * mul_raw(self.zfar.v(), self.znear.v()),
                self.zfar.v() - self.znear.v(),
                2_000_000_000_000,
                SCALE as int,
            );
        }
        let aspect = Fx { raw: self.width as i64 }.div(Fx { raw: self.height as i64 });
        let m00 = cot.div(aspect);
        let e22 = self.zfar.add(self.znear).div(self.zfar.sub(self.znear));
        let fn2 = self.zfar.mul(self.znear);
        let e23 = fn2.add(fn2).div(self.zfar.sub(self.znear));
        let half = Fx { raw: HALF };
        proof {
            lemma_mul_raw_bound(HALF as int, -e22.v(), HALF as int, 2_000_000_000);
            lemma_mul_raw_bound(HALF as int, -(SCALE as int), HALF as int, SCALE as int);
            lemma_mul_raw_bound(HALF as int, -e23.v(), HALF as int, 2_000_000_000_000);
        }
        let m22 = half.mul(e22.neg()).add(half.mul(Fx { raw: -SCALE }));
        let m23 = half.mul(e23.neg());
        Mat4 {
            m00,
            m01: Fx { raw: 0 },
            m02: Fx { raw: 0 },
            m03: Fx { raw: 0 },
            m10: Fx { raw: 0 },
            m11: cot,
            m12: Fx { raw: 0 },
            m13: Fx { raw: 0 },
            m20: Fx { raw: 0 },
            m21: Fx { raw: 0 },
            m22,
            m23,
            m30: Fx { raw: 0 },
            m31: Fx { raw: 0 },
            m32: Fx { raw: -SCALE },
            m33: Fx { raw: 0 },
        }
    }
}

/// For a well-formed surface size the aspect ratio lies between a tenth and
/// a hundred thousand (in raw steps: between 100_000 and 100_000 * SCALE).
proof fn lemma_aspect_range(width: u32, height: u32)
    requires
        1 <= width <= 100_000,
        1 <= height <= 100_000,
        height <= 10 * width,
    ensures
        100_000 <= aspect_raw(width, height) <= 100_000_000_000,
{
    let s = SCALE as int;
    let w = width as int;
    let h = height as int;
    assert(w * s >= 0) by (nonlinear_arith)
        requires
            w >= 1,
            s > 0,
    ;
    // Lower bound: the denominator is at most ten times the numerator's
    // width factor, and (w*s) / (10*w) is exactly s/10.
    vstd::arithmetic::div_mod::lemma_div_is_ordered_by_denominator(w * s, h, 10 * w);
    assert(w * s == 100_000 * (10 * w)) by (nonlinear_arith)
        requires
            s == 1_000_000,
    ;
    vstd::arithmetic::div_mod::lemma_div_multiples_vanish(100_000, 10 * w);
    // Upper bound: divide the largest numerator by the smallest denominator.
    lemma_div_raw_bound(w, h, 100_000, 1);
}

/// After a resize, every term of the projection matrix that does not depend
/// on the aspect ratio is exactly unchanged; only the entry dividing by the
/// aspect ratio can move.
pub proof fn lemma_resize_keeps_non_aspect_terms(p: Projection, width: u32, height: u32, cot: Fx)
    ensures
        ({
            let before = proj_matrix_spec(p, cot);
            let after = proj_matrix_spec(Projection { width, height, ..p }, cot);
            &&& after.m01 == before.m01 && after.m02 == before.m02 && after.m03 == before.m03
            &&& after.m10 == before.m10 && after.m11 == before.m11 && after.m12 == before.m12
            &&& after.m13 == before.m13
            &&& after.m20 == before.m20 && after.m21 == before.m21 && after.m22 == before.m22
            &&& after.m23 == before.m23
            &&& after.m30 == before.m30 && after.m31 == before.m31 && after.m32 == before.m32
            &&& after.m33 == before.m33
        }),
{
}

/// The packed, shader-facing camera data: the homogeneous eye position and
/// the combined view-projection matrix.
#[derive(Clone, Copy, PartialEq, Eq, Structural, Debug)]
pub struct CameraUniform {
    pub view_position: V4,
    pub view_proj: Mat4,
}

impl CameraUniform {
    /// A fresh uniform: zero position, identity matrix.
    pub fn new() -> (r: CameraUniform)
        ensures
            r.view_position == (V4 {
                x: Fx { raw: 0 },
                y: Fx { raw: 0 },
                z: Fx { raw: 0 },
                w: Fx { raw: 0 },
            }),
            r.view_proj == crate::mat4::identity_spec(),
    {
        CameraUniform {
            view_position: V4 {
                x: Fx { raw: 0 },
                y: Fx { raw: 0 },
                z: Fx { raw: 0 },
                w: Fx { raw: 0 },
            },
            view_proj: crate::mat4::identity(),
        }
    }

    /// Repack from the current camera and projection: the eye position made
    /// homogeneous, and the product of the projection and view matrices.
    pub fn update_view_proj(&mut self, camera: &Camera, projection: &Projection, t: CamTrig, cot: Fx)
        requires
            t.ok(),
            projection.wf(),
            0 < cot.v() <= COT_LIM as int,
            camera.position.abs_le(VIEW_POS_LIM as int),
        ensures
            final(self).view_position == (V4 {
                x: camera.position.x,
                y: camera.position.y,
                z: camera.position.z,
                w: Fx { raw: SCALE },
            }),
            final(self).view_proj == crate::mat4::mat_mul_spec(
                proj_matrix_spec(*projection, cot),
                view_matrix_spec(*camera, t),
            ),
    {
        proof {
            lemma_view_matrix_bounded(*camera, t);
        }
        let vm = camera.calc_matrix(t);
        let pm = projection.calc_matrix(cot);
        self.view_proj = crate::mat4::matmul(&pm, &vm);
        self.view_position = V4 {
            x: camera.position.x,
            y: camera.position.y,
            z: camera.position.z,
            w: Fx { raw: SCALE },
        };
    }
}

} // verus!
