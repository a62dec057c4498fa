//! Controller integration, input routing, the light model and the instance
//! grid.

use render_core::camera::{CamTrig, Camera, Projection, MAX_PITCH};
use render_core::controller::{CameraController, Key, ScrollDelta};
use render_core::fixed::{Fx, SCALE};
use render_core::instance::make_grid;
use render_core::light::{Light, LightKind};
use render_core::model::{DrawCmd, Material, Mesh, Model, draw_light_model_instanced, draw_model_instanced};
use render_core::scene::{FrameAction, Scene, SurfaceIssue, WindowInput, frame_error_action};
use render_core::vec::V3;

fn fx(x: f64) -> Fx {
    Fx::from_raw((x * 1_000_000.0).round() as i64)
}

fn v3(x: f64, y: f64, z: f64) -> V3 {
    V3 { x: fx(x), y: fx(y), z: fx(z) }
}

fn trig_of(yaw: f64, pitch: f64) -> CamTrig {
    CamTrig::new(fx(yaw.sin()), fx(yaw.cos()), fx(pitch.sin()), fx(pitch.cos()))
}

#[test]
fn keyboard_mapping_and_recognition() {
    let mut c = CameraController::new(fx(4.0), fx(0.4));
    assert!(c.process_keyboard(Key::W, true));
    assert_eq!(c.amount_forward.raw, SCALE);
    assert!(c.process_keyboard(Key::Up, false));
    assert_eq!(c.amount_forward.raw, 0);
    assert!(c.process_keyboard(Key::A, true));
    assert_eq!(c.amount_left.raw, SCALE);
    assert!(c.process_keyboard(Key::Right, true));
    assert_eq!(c.amount_right.raw, SCALE);
    assert!(c.process_keyboard(Key::Space, true));
    assert_eq!(c.amount_up.raw, SCALE);
    assert!(c.process_keyboard(Key::LShift, true));
    assert_eq!(c.amount_down.raw, SCALE);
    assert!(!c.process_keyboard(Key::Other, true));
}

#[test]
fn scroll_units_are_normalized() {
    let mut c = CameraController::new(fx(4.0), fx(0.4));
    c.process_scroll(ScrollDelta::Lines(fx(2.0)));
    assert_eq!(c.scroll.raw, -200_000_000); // two lines count as 200 units
    c.process_scroll(ScrollDelta::Pixels(fx(-50.0)));
    assert_eq!(c.scroll.raw, -150_000_000); // accumulated, pixels one for one
}

#[test]
fn scroll_impulse_moves_along_the_look_direction() {
    let mut c = CameraController::new(fx(4.0), fx(0.4));
    let mut cam = Camera::new(v3(0.0, 0.0, 0.0), fx(-std::f64::consts::FRAC_PI_2), fx(0.0));
    c.process_scroll(ScrollDelta::Pixels(fx(-150.0)));
    assert_eq!(c.scroll.raw, 150_000_000);
    let t = CamTrig::new(fx(-1.0), fx(0.0), fx(0.0), fx(1.0));
    c.update_camera(&mut cam, fx(1.0), t);
    // 150 units of impulse at speed 4 for one second, along the look
    // direction (0, 0, -1); the impulse is consumed by the frame.
    assert_eq!(cam.position.z.raw, -600_000_000);
    assert_eq!(cam.position.x.raw, 0);
    assert_eq!(c.scroll.raw, 0);
}

#[test]
fn noop_frame_keeps_camera() {
    // No held key, no pending delta: integration changes nothing, with a
    // zero frame time or a long one.
    let mut c = CameraController::new(fx(4.0), fx(0.4));
    let mut cam = Camera::new(v3(0.0, 5.0, 10.0), fx(-1.5707963), fx(-0.3490658));
    let before = cam;
    let t = trig_of(-1.5707963, -0.3490658);
    c.update_camera(&mut cam, fx(0.0), t);
    assert_eq!(cam, before);
    c.update_camera(&mut cam, fx(0.5), t);
    assert_eq!(cam, before);
}

#[test]
fn mouse_delta_is_consumed_once() {
    let mut c = CameraController::new(fx(4.0), fx(0.4));
    let mut cam = Camera::new(v3(0.0, 0.0, 0.0), fx(0.0), fx(0.0));
    c.process_mouse(fx(10.0), fx(4.0));
    assert_eq!(c.rotate_horizontal.raw, 10_000_000);
    assert_eq!(c.rotate_vertical.raw, 4_000_000);
    let t = trig_of(0.0, 0.0);
    c.update_camera(&mut cam, fx(1.0), t);
    // One frame turned the camera and reset the pending delta.
    assert_eq!(c.rotate_horizontal.raw, 0);
    assert_eq!(c.rotate_vertical.raw, 0);
    assert_eq!(cam.yaw.raw, 4_000_000); // 10 * 0.4
    assert_eq!(cam.pitch.raw, -1_570_696); // -1.6 clamped
    // A second frame with no new input adds no rotation.
    let after = cam;
    c.update_camera(&mut cam, fx(1.0), trig_of(4.0, -1.570696));
    assert_eq!(cam, after);
}

#[test]
fn pitch_is_clamped_both_ways() {
    let mut c = CameraController::new(fx(4.0), fx(1.0));
    let mut cam = Camera::new(v3(0.0, 0.0, 0.0), fx(0.0), fx(0.0));
    c.process_mouse(fx(0.0), fx(-1000.0));
    c.update_camera(&mut cam, fx(1.0), trig_of(0.0, 0.0));
    assert_eq!(cam.pitch.raw, MAX_PITCH);
    c.process_mouse(fx(0.0), fx(100000.0));
    c.update_camera(&mut cam, fx(1.0), trig_of(0.0, 1.5706));
    assert_eq!(cam.pitch.raw, -MAX_PITCH);
}

#[test]
fn forward_second_at_speed_four() {
    // Start at (0, 5, 10), yaw a quarter turn left, pitch -20 degrees; hold
    // "forward" for one second at speed 4: the displacement is 4 units along
    // the flattened look direction (0, 0, -1), whose magnitude is exactly 4.
    let yaw = -std::f64::consts::FRAC_PI_2;
    let pitch = -20.0f64.to_radians();
    let mut c = CameraController::new(fx(4.0), fx(0.4));
    let mut cam = Camera::new(v3(0.0, 5.0, 10.0), fx(yaw), fx(pitch));
    assert!(c.process_keyboard(Key::W, true));
    let t = CamTrig::new(fx(-1.0), fx(0.0), fx(pitch.sin()), fx(pitch.cos()));
    c.update_camera(&mut cam, fx(1.0), t);
    assert_eq!(cam.position.x.raw, 0);
    assert_eq!(cam.position.y.raw, 5_000_000);
    assert_eq!(cam.position.z.raw, 6_000_000);
    assert_eq!(cam.yaw.raw, fx(yaw).raw);
    assert_eq!(cam.pitch.raw, fx(pitch).raw);
    let dz = (cam.position.z.raw - 10_000_000) as f64 / 1e6;
    assert_eq!(dz.abs(), 4.0);
}

#[test]
fn spot_direction_keeps_unit_length_under_orbit() {
    let mut light = Light::new_spot(
        v3(1.0, 1.0, 1.0),
        v3(1.0, 0.0, 0.0),
        v3(1.0, 1.0, 1.0),
        fx(1.0),
        fx(0.976296),
        fx(0.953717),
    );
    // One degree per step, a few full turns.
    let step = 1.0f64.to_radians();
    let (s, c) = (fx(step.sin()), fx(step.cos()));
    for _ in 0..1080 {
        light.orbit_y(s, c);
    }
    match light.kind {
        LightKind::Spot { direction, .. } => {
            let x = direction.x.raw as f64 / 1e6;
            let y = direction.y.raw as f64 / 1e6;
            let z = direction.z.raw as f64 / 1e6;
            let len = (x * x + y * y + z * z).sqrt();
            assert!((len - 1.0).abs() < 1e-2, "length drifted to {len}");
        },
        _ => unreachable!(),
    }
}

#[test]
fn light_blob_layouts() {
    let spot = Light::new_spot(
        v3(1.0, 2.0, 3.0),
        v3(-1.0, -1.0, -1.0),
        v3(1.0, 1.0, 1.0),
        fx(1.0),
        fx(0.976296),
        fx(0.953717),
    );
    let blob = spot.to_blob();
    assert_eq!(blob.len(), 12); // 48 bytes of four-byte scalars
    assert_eq!(blob[0].raw, 1_000_000);
    assert_eq!(blob[2].raw, 3_000_000);
    assert_eq!(blob[3].raw, 976_296); // inner cone after the position
    assert_eq!(blob[4].raw, -1_000_000);
    assert_eq!(blob[7].raw, 1_000_000); // intensity after the direction
    assert_eq!(blob[11].raw, 953_717); // outer cone closes the blob

    let point = Light::new_point(v3(2.0, 2.0, 2.0), v3(1.0, 1.0, 1.0), fx(1.0));
    let blob = point.to_blob();
    assert_eq!(blob.len(), 12);
    assert_eq!(blob[3].raw, 1_000_000); // intensity
    assert_eq!(blob[7].raw, 1_000_000); // constant attenuation
    assert_eq!(blob[8].raw, 90_000); // linear
    assert_eq!(blob[9].raw, 32_000); // quadratic
    assert_eq!(blob[10].raw, 0); // padding
    assert_eq!(blob[11].raw, 0);

    let sun = Light::new_directional(v3(1.0, 1.0, -1.0), v3(1.0, 1.0, 1.0), fx(1.0));
    let blob = sun.to_blob();
    assert_eq!(blob.len(), 8);
    assert_eq!(blob[0].raw, 1_000_000);
    assert_eq!(blob[2].raw, -1_000_000);
    assert_eq!(blob[7].raw, 0); // padding
}

#[test]
fn grid_has_hundred_instances_with_fallback_axis() {
    let grid = make_grid(10, fx(3.0));
    assert_eq!(grid.len(), 100);
    // Corner instance: both indices zero, displaced half the side.
    assert_eq!(grid[0].position.x.raw, -15_000_000);
    assert_eq!(grid[0].position.z.raw, -15_000_000);
    assert_eq!(grid[0].position.y.raw, 0);
    assert_eq!(grid[0].axis, grid[0].position);
    // The instance on the origin is the grid centre; its axis falls back to
    // the world depth axis instead of a zero vector.
    let centre = &grid[55]; // row 5, column 5
    assert_eq!(centre.position.x.raw, 0);
    assert_eq!(centre.position.z.raw, 0);
    assert_eq!(centre.axis.x.raw, 0);
    assert_eq!(centre.axis.y.raw, 0);
    assert_eq!(centre.axis.z.raw, SCALE);
    // No instance anywhere has a degenerate axis.
    for inst in &grid {
        assert!(inst.axis.x.raw != 0 || inst.axis.y.raw != 0 || inst.axis.z.raw != 0);
    }
    // Opposite corner: displacement is not mirrored, the grid is centred on
    // the origin cell.
    assert_eq!(grid[99].position.x.raw, 12_000_000);
    assert_eq!(grid[99].position.z.raw, 12_000_000);
}

#[test]
fn model_draw_resolves_materials_by_index() {
    let mesh_a = Mesh { vertex_buffer: 10, index_buffer: 11, num_elements: 36, material: 1 };
    let mesh_b = Mesh { vertex_buffer: 20, index_buffer: 21, num_elements: 9, material: 0 };
    let mat_0 = Material { diffuse_texture: 100, normal_texture: 101, bind_group: 7 };
    let mat_1 = Material { diffuse_texture: 200, normal_texture: 201, bind_group: 8 };
    let model = Model { meshes: vec![mesh_a, mesh_b], materials: vec![mat_0, mat_1] };
    let cmds = draw_model_instanced(&model, 40, 50, 0, 100);
    assert_eq!(cmds.len(), 12);
    assert_eq!(cmds[0], DrawCmd::SetVertexBuffer { slot: 0, buffer: 10 });
    assert_eq!(cmds[1], DrawCmd::SetIndexBuffer { buffer: 11, wide: true });
    assert_eq!(cmds[2], DrawCmd::SetBindGroup { index: 0, group: 8 }); // material 1
    assert_eq!(cmds[3], DrawCmd::SetBindGroup { index: 1, group: 40 });
    assert_eq!(cmds[4], DrawCmd::SetBindGroup { index: 2, group: 50 });
    assert_eq!(cmds[5], DrawCmd::DrawIndexed { num_elements: 36, inst_start: 0, inst_end: 100 });
    assert_eq!(cmds[8], DrawCmd::SetBindGroup { index: 0, group: 7 }); // material 0
    assert_eq!(cmds[11], DrawCmd::DrawIndexed { num_elements: 9, inst_start: 0, inst_end: 100 });

    let light_cmds = draw_light_model_instanced(&model, 40, 50, 0, 1);
    assert_eq!(light_cmds.len(), 10);
    assert_eq!(light_cmds[1], DrawCmd::SetIndexBuffer { buffer: 11, wide: false });
    assert_eq!(light_cmds[2], DrawCmd::SetBindGroup { index: 0, group: 40 });
    assert_eq!(light_cmds[3], DrawCmd::SetBindGroup { index: 1, group: 50 });
}

#[test]
fn scene_routes_input_and_gates_the_pointer() {
    let cam = Camera::new(v3(0.0, 5.0, 10.0), fx(-1.5707963), fx(-0.3490658));
    let proj = Projection::new(800, 600, fx(0.7853982), fx(0.1), fx(100.0));
    let ctl = CameraController::new(fx(4.0), fx(0.4));
    let light = Light::new_directional(v3(1.0, 1.0, -1.0), v3(1.0, 1.0, 1.0), fx(1.0));
    let mut scene = Scene::new(cam, proj, ctl, light);

    assert!(scene.input(WindowInput::Keyboard { key: Key::W, pressed: true }));
    assert_eq!(scene.controller.amount_forward.raw, SCALE);
    assert!(!scene.input(WindowInput::Keyboard { key: Key::Other, pressed: true }));
    assert!(scene.input(WindowInput::Wheel { delta: ScrollDelta::Pixels(fx(30.0)) }));
    assert_eq!(scene.controller.scroll.raw, -30_000_000);
    assert!(!scene.input(WindowInput::Other));

    // Pointer motion is dropped until the left button is held.
    scene.mouse_motion(fx(5.0), fx(5.0));
    assert_eq!(scene.controller.rotate_horizontal.raw, 0);
    assert!(scene.input(WindowInput::MouseLeft { pressed: true }));
    scene.mouse_motion(fx(5.0), fx(5.0));
    assert_eq!(scene.controller.rotate_horizontal.raw, 5_000_000);
    assert!(scene.input(WindowInput::MouseLeft { pressed: false }));
    scene.mouse_motion(fx(5.0), fx(5.0));
    assert_eq!(scene.controller.rotate_horizontal.raw, 5_000_000);
}

#[test]
fn scene_resize_ignores_degenerate_sizes() {
    let cam = Camera::new(v3(0.0, 5.0, 10.0), fx(0.0), fx(0.0));
    let proj = Projection::new(800, 600, fx(0.7853982), fx(0.1), fx(100.0));
    let ctl = CameraController::new(fx(4.0), fx(0.4));
    let light = Light::new_directional(v3(1.0, 1.0, -1.0), v3(1.0, 1.0, 1.0), fx(1.0));
    let mut scene = Scene::new(cam, proj, ctl, light);
    scene.resize(0, 400);
    assert_eq!(scene.projection.width, 800);
    assert_eq!(scene.projection.height, 600);
    scene.resize(1024, 768);
    assert_eq!(scene.projection.width, 1024);
    assert_eq!(scene.projection.height, 768);
    assert_eq!(scene.projection.znear.raw, 100_000);
    assert_eq!(scene.projection.zfar.raw, 100_000_000);
}

#[test]
fn scene_frame_update_moves_and_packs() {
    let yaw = -std::f64::consts::FRAC_PI_2;
    let cam = Camera::new(v3(0.0, 5.0, 10.0), fx(yaw), fx(0.0));
    let proj = Projection::new(800, 600, fx(0.7853982), fx(0.1), fx(100.0));
    let ctl = CameraController::new(fx(4.0), fx(0.4));
    let light = Light::new_directional(v3(1.0, 0.0, 0.0), v3(1.0, 1.0, 1.0), fx(1.0));
    let mut scene = Scene::new(cam, proj, ctl, light);
    scene.input(WindowInput::Keyboard { key: Key::W, pressed: true });
    let t = CamTrig::new(fx(-1.0), fx(0.0), fx(0.0), fx(1.0));
    // A quarter-turn orbit with exact trig.
    scene.update_motion(fx(1.0), t, fx(1.0), fx(0.0));
    assert_eq!(scene.camera.position.z.raw, 6_000_000);
    match scene.light.kind {
        LightKind::Directional { direction } => {
            assert_eq!(direction.x.raw, 0);
            assert_eq!(direction.z.raw, -1_000_000);
        },
        _ => unreachable!(),
    }
    let cot = fx(1.0 / (0.7853982f64 / 2.0).tan());
    scene.refresh_uniform(t, cot);
    assert_eq!(scene.uniform.view_position.x.raw, 0);
    assert_eq!(scene.uniform.view_position.y.raw, 5_000_000);
    assert_eq!(scene.uniform.view_position.z.raw, 6_000_000);
    assert_eq!(scene.uniform.view_position.w.raw, SCALE);
}

#[test]
fn frame_errors_map_to_actions() {
    assert_eq!(frame_error_action(SurfaceIssue::Lost), FrameAction::Reconfigure);
    assert_eq!(frame_error_action(SurfaceIssue::Outdated), FrameAction::Reconfigure);
    assert_eq!(frame_error_action(SurfaceIssue::OutOfMemory), FrameAction::Exit);
    assert_eq!(frame_error_action(SurfaceIssue::Timeout), FrameAction::Skip);
}
