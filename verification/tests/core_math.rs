//! Fixed-point arithmetic, view and projection matrices, and the packed
//! camera uniform.

use render_core::camera::{CamTrig, Camera, CameraUniform, Projection, eye_in_view, MAX_PITCH};
use render_core::fixed::{Fx, SCALE};
use render_core::vec::V3;

fn fx(x: f64) -> Fx {
    Fx::from_raw((x * 1_000_000.0).round() as i64)
}

fn v3(x: f64, y: f64, z: f64) -> V3 {
    V3 { x: fx(x), y: fx(y), z: fx(z) }
}

fn trig_of(yaw: f64, pitch: f64) -> CamTrig {
    CamTrig::new(fx(yaw.sin()), fx(yaw.cos()), fx(pitch.sin()), fx(pitch.cos()))
}

#[test]
fn mul_rounds_toward_zero() {
    let a = Fx::from_raw(1); // a millionth
    let half = fx(0.5);
    assert_eq!(a.mul(half).raw, 0);
    assert_eq!(a.neg().mul(half).raw, 0); // not -1: symmetric rounding
    assert_eq!(fx(1.5).mul(fx(-1.5)).raw, -2_250_000);
    assert_eq!(fx(3.0).mul(fx(2.0)).raw, 6_000_000);
}

#[test]
fn div_rounds_toward_zero() {
    assert_eq!(fx(1.0).div(fx(3.0)).raw, 333_333);
    assert_eq!(fx(-1.0).div(fx(3.0)).raw, -333_333);
    assert_eq!(fx(6.0).div(fx(2.0)).raw, 3_000_000);
}

#[test]
fn clamp_to_works() {
    assert_eq!(fx(2.0).clamp_to(fx(-1.0), fx(1.0)).raw, SCALE);
    assert_eq!(fx(-2.0).clamp_to(fx(-1.0), fx(1.0)).raw, -SCALE);
    assert_eq!(fx(0.25).clamp_to(fx(-1.0), fx(1.0)).raw, 250_000);
}

#[test]
fn view_matrix_axis_aligned() {
    // Yaw of a quarter turn to the left: sine -1 and cosine 0 are exact in
    // fixed point, so every matrix entry is pinned.
    let cam = Camera::new(v3(0.0, 5.0, 10.0), fx(-std::f64::consts::FRAC_PI_2), fx(0.0));
    let t = CamTrig::new(fx(-1.0), fx(0.0), fx(0.0), fx(1.0));
    let m = cam.calc_matrix(t);
    // side = (1, 0, 0), up = (0, 1, 0), look = (0, 0, -1)
    assert_eq!(m.m00.raw, SCALE);
    assert_eq!(m.m01.raw, 0);
    assert_eq!(m.m02.raw, 0);
    assert_eq!(m.m03.raw, 0);
    assert_eq!(m.m10.raw, 0);
    assert_eq!(m.m11.raw, SCALE);
    assert_eq!(m.m12.raw, 0);
    assert_eq!(m.m13.raw, -5_000_000);
    assert_eq!(m.m20.raw, 0);
    assert_eq!(m.m21.raw, 0);
    assert_eq!(m.m22.raw, SCALE);
    assert_eq!(m.m23.raw, -10_000_000);
    assert_eq!(m.m33.raw, SCALE);
}

#[test]
fn view_matrix_recovers_camera_position() {
    // The round trip of the position component: the view matrix maps the
    // eye to the view-space origin, for orientations within the pitch clamp.
    let cases = [
        (-1.5707963, -0.34906585),
        (0.7, 0.2),
        (2.5, -1.2),
        (0.0, 1.5),
        (-3.0, 1.5706),
    ];
    for (yaw, pitch) in cases {
        assert!(pitch >= -(MAX_PITCH as f64) / 1e6 && pitch <= (MAX_PITCH as f64) / 1e6);
        let cam = Camera::new(v3(12.25, -3.5, 908.125), fx(yaw), fx(pitch));
        let r = eye_in_view(&cam, trig_of(yaw, pitch));
        assert_eq!(r.x.raw, 0);
        assert_eq!(r.y.raw, 0);
        assert_eq!(r.z.raw, 0);
        assert_eq!(r.w.raw, SCALE);
    }
}

#[test]
fn projection_resize_changes_only_aspect_term() {
    let fovy = std::f64::consts::FRAC_PI_4;
    let cot = fx(1.0 / (fovy / 2.0).tan());
    let mut p = Projection::new(800, 600, fx(fovy), fx(0.1), fx(100.0));
    let before = p.calc_matrix(cot);
    p.resize(1600, 600);
    let after = p.calc_matrix(cot);
    // The aspect-driven entry moved; every other term is bit-identical.
    assert_ne!(after.m00.raw, before.m00.raw);
    assert_eq!(after.m11.raw, before.m11.raw);
    assert_eq!(after.m22.raw, before.m22.raw);
    assert_eq!(after.m23.raw, before.m23.raw);
    assert_eq!(after.m32.raw, before.m32.raw);
    assert_eq!(after.m33.raw, before.m33.raw);
    assert_eq!(after.m01.raw, before.m01.raw);
    assert_eq!(after.m10.raw, before.m10.raw);
    assert_eq!(after.m30.raw, before.m30.raw);
}

#[test]
fn projection_matrix_values() {
    // Square surface: the aspect ratio is exactly one, so the two
    // fov-driven terms agree; the depth row carries the clip conversion.
    let cot = fx(2.0);
    let p = Projection::new(600, 600, fx(0.9272952), fx(1.0), fx(101.0));
    let m = p.calc_matrix(cot);
    assert_eq!(m.m00.raw, 2_000_000);
    assert_eq!(m.m11.raw, 2_000_000);
    // (far+near)/(near-far) = -1.02, halved and shifted: -0.51 - 0.5
    assert_eq!(m.m22.raw, -1_010_000);
    // 2*far*near/(near-far) = -2.02, halved: -1.01
    assert_eq!(m.m23.raw, -1_010_000);
    assert_eq!(m.m32.raw, -SCALE);
    assert_eq!(m.m33.raw, 0);
}

#[test]
fn camera_uniform_starts_at_identity() {
    let u = CameraUniform::new();
    assert_eq!(u.view_position.x.raw, 0);
    assert_eq!(u.view_position.w.raw, 0);
    assert_eq!(u.view_proj.m00.raw, SCALE);
    assert_eq!(u.view_proj.m11.raw, SCALE);
    assert_eq!(u.view_proj.m22.raw, SCALE);
    assert_eq!(u.view_proj.m33.raw, SCALE);
    assert_eq!(u.view_proj.m01.raw, 0);
    assert_eq!(u.view_proj.m23.raw, 0);
}

#[test]
fn camera_uniform_packs_position_and_product() {
    let cam = Camera::new(v3(0.0, 0.0, 0.0), fx(-std::f64::consts::FRAC_PI_2), fx(0.0));
    let t = CamTrig::new(fx(-1.0), fx(0.0), fx(0.0), fx(1.0));
    let cot = fx(2.0);
    let p = Projection::new(600, 600, fx(0.9272952), fx(1.0), fx(101.0));
    let mut u = CameraUniform::new();
    u.update_view_proj(&cam, &p, t, cot);
    // Homogeneous eye position.
    assert_eq!(u.view_position.x.raw, 0);
    assert_eq!(u.view_position.y.raw, 0);
    assert_eq!(u.view_position.z.raw, 0);
    assert_eq!(u.view_position.w.raw, SCALE);
    // With the eye at the origin the product is the projection times the
    // pure rotation: row 3 picks the negated look direction.
    assert_eq!(u.view_proj.m30.raw, 0);
    assert_eq!(u.view_proj.m31.raw, 0);
    assert_eq!(u.view_proj.m32.raw, -SCALE);
    // Row 0: m00 * side.x = 2 * 1.
    assert_eq!(u.view_proj.m00.raw, 2_000_000);
}
