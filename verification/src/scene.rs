//! The scene state and the per-frame decisions of the run loop: routing
//! window input to the controller, guarding resizes, sequencing the frame
//! update, and choosing what to do when presenting a frame fails.

use vstd::prelude::*;
use crate::fixed::{Fx, SCALE, fits_i64};
use crate::camera::{
    Camera, CamTrig, CameraUniform, Projection, COT_LIM, VIEW_POS_LIM, proj_matrix_spec,
    view_matrix_spec,
};
use crate::controller::{
    CameraController, Key, ScrollDelta, apply_key, key_recognized, scroll_in_range, scroll_after,
    update_in_range, pos_after_x, pos_after_y, pos_after_z, yaw_after, pitch_after,
};
use crate::light::{Light, LIGHT_LIM, rot_y_x, rot_y_z};
use crate::mat4::mat_mul_spec;

verus! {

/// A window event, reduced to what the scene reacts to.
#[derive(Clone, Copy, PartialEq, Eq, Structural, Debug)]
pub enum WindowInput {
    Keyboard { key: Key, pressed: bool },
    Wheel { delta: ScrollDelta },
    MouseLeft { pressed: bool },
    Other,
}

/// Why presenting a frame failed.
#[derive(Clone, Copy, PartialEq, Eq, Structural, Debug)]
pub enum SurfaceIssue {
    Timeout,
    Outdated,
    Lost,
    OutOfMemory,
}

/// What the run loop does about it.
#[derive(Clone, Copy, PartialEq, Eq, Structural, Debug)]
pub enum FrameAction {
    Reconfigure,
    Exit,
    Skip,
}

/// The frame-error policy: a stale or lost surface is reconfigured at the
/// current size and the frame dropped; running out of memory ends the loop;
/// anything else only skips the frame.
pub fn frame_error_action(issue: SurfaceIssue) -> (action: FrameAction)
    ensures
        action == (match issue {
            SurfaceIssue::Lost => FrameAction::Reconfigure,
            SurfaceIssue::Outdated => FrameAction::Reconfigure,
            SurfaceIssue::OutOfMemory => FrameAction::Exit,
            SurfaceIssue::Timeout => FrameAction::Skip,
        }),
{
    match issue {
        SurfaceIssue::Lost => FrameAction::Reconfigure,
        SurfaceIssue::Outdated => FrameAction::Reconfigure,
        SurfaceIssue::OutOfMemory => FrameAction::Exit,
        SurfaceIssue::Timeout => FrameAction::Skip,
    }
}

/// Everything the frame loop owns: camera, projection, controller, the
/// packed camera uniform, the active light, and whether the left mouse
/// button is held (which gates pointer motion).
pub struct Scene {
    pub camera: Camera,
    pub projection: Projection,
    pub controller: CameraController,
    pub uniform: CameraUniform,
    pub light: Light,
    pub mouse_pressed: bool,
}

impl Scene {
    pub fn new(
        camera: Camera,
        projection: Projection,
        controller: CameraController,
        light: Light,
    ) -> (r: Scene)
        ensures
            r.camera == camera,
            r.projection == projection,
            r.controller == controller,
            r.light == light,
            !r.mouse_pressed,
    {
        Scene {
            camera,
            projection,
            controller,
            uniform: CameraUniform::new(),
            light,
            mouse_pressed: false,
        }
    }

    /// Route one window event: keyboard to the movement flags, the wheel to
    /// the scroll impulse, the left button to the pointer gate. The result
    /// says whether the event was consumed.
    pub fn input(&mut self, event: WindowInput) -> (consumed: bool)
        requires
            (event matches WindowInput::Wheel { delta } ==> scroll_in_range(
                old(self).controller,
                delta,
            )),
        ensures
            final(self).camera == old(self).camera,
            final(self).projection == old(self).projection,
            final(self).uniform == old(self).uniform,
            final(self).light == old(self).light,
            (event matches WindowInput::Keyboard { key, pressed } ==> consumed == key_recognized(
                key,
            ) && final(self).controller == apply_key(old(self).controller, key, pressed)
                && final(self).mouse_pressed == old(self).mouse_pressed),
            (event matches WindowInput::Wheel { delta } ==> consumed && final(self).controller == (
            CameraController {
                scroll: Fx { raw: scroll_after(old(self).controller, delta) as i64 },
                ..old(self).controller
            }) && final(self).mouse_pressed == old(self).mouse_pressed),
            (event matches WindowInput::MouseLeft { pressed } ==> consumed
                && final(self).mouse_pressed == pressed
                && final(self).controller == old(self).controller),
            (event is Other ==> !consumed && final(self).controller == old(self).controller
                && final(self).mouse_pressed == old(self).mouse_pressed),
    {
        match event {
            WindowInput::Keyboard { key, pressed } => self.controller.process_keyboard(
                key,
                pressed,
            ),
            WindowInput::Wheel { delta } => {
                self.controller.process_scroll(delta);
                true
            },
            WindowInput::MouseLeft { pressed } => {
                self.mouse_pressed = pressed;
                true
            },
            WindowInput::Other => false,
        }
    }

    /// Pointer motion reaches the controller only while the left button is
    /// held; otherwise it is ignored.
    pub fn mouse_motion(&mut self, dx: Fx, dy: Fx)
        requires
            old(self).mouse_pressed ==> fits_i64(
                old(self).controller.rotate_horizontal.v() + dx.v(),
            ) && fits_i64(old(self).controller.rotate_vertical.v() + dy.v()),
        ensures
            final(self).camera == old(self).camera,
            final(self).projection == old(self).projection,
            final(self).uniform == old(self).uniform,
            final(self).light == old(self).light,
            final(self).mouse_pressed == old(self).mouse_pressed,
            old(self).mouse_pressed ==> final(self).controller == (CameraController {
                rotate_horizontal: Fx {
                    raw: (old(self).controller.rotate_horizontal.v() + dx.v()) as i64,
                },
                rotate_vertical: Fx {
                    raw: (old(self).controller.rotate_vertical.v() + dy.v()) as i64,
                },
                ..old(self).controller
            }),
            !old(self).mouse_pressed ==> final(self).controller == old(self).controller,
    {
        if self.mouse_pressed {
            self.controller.process_mouse(dx, dy);
        }
    }

    /// A surface-size change reaches the projection only when both
    /// dimensions are positive; a degenerate size is ignored.
    pub fn resize(&mut self, width: u32, height: u32)
        ensures
            final(self).camera == old(self).camera,
            final(self).controller == old(self).controller,
            final(self).uniform == old(self).uniform,
            final(self).light == old(self).light,
            final(self).mouse_pressed == old(self).mouse_pressed,
            (width > 0 && height > 0) ==> final(self).projection == (Projection {
                width,
                height,
                ..old(self).projection
            }),
            !(width > 0 && height > 0) ==> final(self).projection == old(self).projection,
    {
        if width > 0 && height > 0 {
            self.projection.resize(width, height);
        }
    }

    /// The motion half of a frame: integrate the controller into the camera
    /// (consuming the one-shot input) and orbit the light by the angle whose
    /// sine and cosine are supplied.
    pub fn update_motion(&mut self, dt: Fx, t: CamTrig, orbit_sin: Fx, orbit_cos: Fx)
        requires
            t.ok(),
            update_in_range(old(self).controller, old(self).camera, dt),
            -(SCALE as int) <= orbit_sin.v() <= SCALE as int,
            -(SCALE as int) <= orbit_cos.v() <= SCALE as int,
            old(self).light.orbit_vector().abs_le(LIGHT_LIM as int),
        ensures
            final(self).projection == old(self).projection,
            final(self).uniform == old(self).uniform,
            final(self).mouse_pressed == old(self).mouse_pressed,
            final(self).camera.position.x.v() == pos_after_x(
                old(self).controller,
                old(self).camera,
                dt,
                t,
            ),
            final(self).camera.position.y.v() == pos_after_y(
                old(self).controller,
                old(self).camera,
                dt,
                t,
            ),
            final(self).camera.position.z.v() == pos_after_z(
                old(self).controller,
                old(self).camera,
                dt,
                t,
            ),
            final(self).camera.yaw.v() == yaw_after(old(self).controller, old(self).camera, dt),
            final(self).camera.pitch.v() == pitch_after(old(self).controller, old(self).camera, dt),
            final(self).camera.wf(),
            final(self).controller == (CameraController {
                rotate_horizontal: Fx { raw: 0 },
                rotate_vertical: Fx { raw: 0 },
                scroll: Fx { raw: 0 },
                ..old(self).controller
            }),
            final(self).light.color == old(self).light.color,
            final(self).light.intensity == old(self).light.intensity,
            final(self).light.orbit_vector().x.v() == rot_y_x(
                orbit_sin,
                orbit_cos,
                old(self).light.orbit_vector(),
            ),
            final(self).light.orbit_vector().y == old(self).light.orbit_vector().y,
            final(self).light.orbit_vector().z.v() == rot_y_z(
                orbit_sin,
                orbit_cos,
                old(self).light.orbit_vector(),
            ),
    {
        self.controller.update_camera(&mut self.camera, dt, t);
        self.light.orbit_y(orbit_sin, orbit_cos);
    }

    /// The packing half of a frame: rebuild the camera uniform from the
    /// current camera and projection, given the trigonometry of the camera's
    /// current orientation and the cotangent of half the field of view.
    pub fn refresh_uniform(&mut self, t: CamTrig, cot: Fx)
        requires
            t.ok(),
            old(self).projection.wf(),
            0 < cot.v() <= COT_LIM as int,
            old(self).camera.position.abs_le(VIEW_POS_LIM as int),
        ensures
            final(self).camera == old(self).camera,
            final(self).projection == old(self).projection,
            final(self).controller == old(self).controller,
            final(self).light == old(self).light,
            final(self).mouse_pressed == old(self).mouse_pressed,
            final(self).uniform.view_position == (crate::mat4::V4 {
                x: old(self).camera.position.x,
                y: old(self).camera.position.y,
                z: old(self).camera.position.z,
                w: Fx { raw: SCALE },
            }),
            final(self).uniform.view_proj == mat_mul_spec(
                proj_matrix_spec(old(self).projection, cot),
                view_matrix_spec(old(self).camera, t),
            ),
    {
        self.uniform.update_view_proj(&self.camera, &self.projection, t, cot);
    }
}

} // verus!
