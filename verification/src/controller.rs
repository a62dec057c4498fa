//! The camera controller: an accumulator of raw input that is integrated
//! into camera motion once per frame, scaled by the elapsed time.
//!
//! Movement flags persist while a key is held; the scroll impulse and the
//! mouse delta are consumed by one `update_camera` call and reset to zero.

use vstd::prelude::*;
use crate::fixed::{Fx, SCALE, mul_raw, clamp_raw, fits_i64, lemma_mul_raw_bound};
use crate::camera::{Camera, CamTrig, MAX_PITCH};

verus! {

/// Largest speed or sensitivity magnitude `update_camera` accepts
/// (a machine limit keeping every product inside `i64`).
pub const SPEED_LIM: i64 = 1_000_000_000;

/// Largest frame time accepted, in fixed-point seconds.
pub const DT_LIM: i64 = 1_000_000_000;

/// Largest accumulated scroll impulse accepted by one frame.
pub const SCROLL_LIM: i64 = 1_000_000_000;

/// Largest accumulated mouse delta accepted by one frame.
pub const ROT_LIM: i64 = 1_000_000_000_000;

/// Largest camera coordinate accepted by one frame.
pub const CTRL_POS_LIM: i64 = 100_000_000_000_000_000;

/// Largest yaw or pitch magnitude accepted by one frame.
pub const ANGLE_LIM: i64 = 1_000_000_000_000;

/// The movement keys the controller recognizes; anything else is `Other`
/// and is reported as not consumed.
#[derive(Clone, Copy, PartialEq, Eq, Structural, Debug)]
pub enum Key {
    W,
    A,
    S,
    D,
    Up,
    Down,
    Left,
    Right,
    Space,
    LShift,
    Other,
}

/// A scroll step: wheel lines or touchpad pixels, normalized to a common
/// scale (one line counts as a hundred pixels).
#[derive(Clone, Copy, PartialEq, Eq, Structural, Debug)]
pub enum ScrollDelta {
    Lines(Fx),
    Pixels(Fx),
}

#[derive(Clone, Copy, PartialEq, Eq, Structural, Debug)]
pub struct CameraController {
    pub amount_left: Fx,
    pub amount_right: Fx,
    pub amount_forward: Fx,
    pub amount_backward: Fx,
    pub amount_up: Fx,
    pub amount_down: Fx,
    pub rotate_horizontal: Fx,
    pub rotate_vertical: Fx,
    pub scroll: Fx,
    pub speed: Fx,
    pub sensitivity: Fx,
}

pub open spec fn key_recognized(key: Key) -> bool {
    key != Key::Other
}

/// The flag magnitude a key event sets: one while pressed, zero on release.
pub open spec fn key_amount(pressed: bool) -> Fx {
    if pressed {
        Fx { raw: SCALE }
    } else {
        Fx { raw: 0 }
    }
}

/// The controller after a key event: the one flag the key maps to takes the
/// event's magnitude; an unrecognized key changes nothing.
pub open spec fn apply_key(c: CameraController, key: Key, pressed: bool) -> CameraController {
    let a = key_amount(pressed);
    match key {
        Key::W => CameraController { amount_forward: a, ..c },
        Key::Up => CameraController { amount_forward: a, ..c },
        Key::S => CameraController { amount_backward: a, ..c },
        Key::Down => CameraController { amount_backward: a, ..c },
        Key::A => CameraController { amount_left: a, ..c },
        Key::Left => CameraController { amount_left: a, ..c },
        Key::D => CameraController { amount_right: a, ..c },
        Key::Right => CameraController { amount_right: a, ..c },
        Key::Space => CameraController { amount_up: a, ..c },
        Key::LShift => CameraController { amount_down: a, ..c },
        Key::Other => c,
    }
}

/// A scroll step stays representable when accumulated.
pub open spec fn scroll_in_range(c: CameraController, delta: ScrollDelta) -> bool {
    match delta {
        ScrollDelta::Lines(l) => fits_i64(l.v() * 100) && fits_i64(c.scroll.v() - l.v() * 100),
        ScrollDelta::Pixels(p) => fits_i64(p.v()) && fits_i64(c.scroll.v() - p.v()),
    }
}

/// The pending impulse after a scroll step: the normalized step, negated,
/// added to what was pending.
pub open spec fn scroll_after(c: CameraController, delta: ScrollDelta) -> int {
    match delta {
        ScrollDelta::Lines(l) => c.scroll.v() - l.v() * 100,
        ScrollDelta::Pixels(p) => c.scroll.v() - p.v(),
    }
}

/// The scalar multiplying a movement direction for one frame:
/// `(flag - opposite flag) * speed * dt`.
pub open spec fn move_scale(pos: Fx, neg: Fx, speed: Fx, dt: Fx) -> int {
    mul_raw(mul_raw(pos.v() - neg.v(), speed.v()), dt.v())
}

/// The scalar multiplying the look direction for the scroll impulse:
/// `scroll * speed * dt`.
pub open spec fn scroll_scale(c: CameraController, dt: Fx) -> int {
    mul_raw(mul_raw(c.scroll.v(), c.speed.v()), dt.v())
}

/// The camera position after one frame, componentwise. Horizontal movement
/// follows the flattened look and side directions from the yaw; the scroll
/// impulse follows the full look direction; the up/down flags move straight
/// along the world vertical.
pub open spec fn pos_after_x(c: CameraController, cam: Camera, dt: Fx, t: CamTrig) -> int {
    cam.position.x.v() + mul_raw(t.yaw_cos.v(), move_scale(c.amount_forward, c.amount_backward, c.speed, dt))
        + mul_raw(-t.yaw_sin.v(), move_scale(c.amount_right, c.amount_left, c.speed, dt))
        + mul_raw(mul_raw(t.pitch_cos.v(), t.yaw_cos.v()), scroll_scale(c, dt))
}

pub open spec fn pos_after_y(c: CameraController, cam: Camera, dt: Fx, t: CamTrig) -> int {
    cam.position.y.v() + mul_raw(0, move_scale(c.amount_forward, c.amount_backward, c.speed, dt))
        + mul_raw(0, move_scale(c.amount_right, c.amount_left, c.speed, dt)) + mul_raw(
        t.pitch_sin.v(),
        scroll_scale(c, dt),
    ) + mul_raw(mul_raw(c.amount_up.v() - c.amount_down.v(), c.speed.v()), dt.v())
}

pub open spec fn pos_after_z(c: CameraController, cam: Camera, dt: Fx, t: CamTrig) -> int {
    cam.position.z.v() + mul_raw(t.yaw_sin.v(), move_scale(c.amount_forward, c.amount_backward, c.speed, dt))
        + mul_raw(t.yaw_cos.v(), move_scale(c.amount_right, c.amount_left, c.speed, dt))
        + mul_raw(mul_raw(t.pitch_cos.v(), t.yaw_sin.v()), scroll_scale(c, dt))
}

/// The yaw after one frame: the pending horizontal mouse delta, scaled by
/// sensitivity and elapsed time, is added.
pub open spec fn yaw_after(c: CameraController, cam: Camera, dt: Fx) -> int {
    cam.yaw.v() + mul_raw(mul_raw(c.rotate_horizontal.v(), c.sensitivity.v()), dt.v())
}

/// The pitch after one frame: the pending vertical mouse delta is applied
/// inverted, then the result is clamped strictly inside a right angle.
pub open spec fn pitch_after(c: CameraController, cam: Camera, dt: Fx) -> int {
    clamp_raw(
        cam.pitch.v() + mul_raw(mul_raw(-c.rotate_vertical.v(), c.sensitivity.v()), dt.v()),
        -(MAX_PITCH as int),
        MAX_PITCH as int,
    )
}

/// The bounds under which one frame's integration cannot overflow
/// (machine limits, not behavioral ones).
pub open spec fn update_in_range(c: CameraController, cam: Camera, dt: Fx) -> bool {
    &&& 0 <= c.amount_left.v() <= SCALE as int
    &&& 0 <= c.amount_right.v() <= SCALE as int
    &&& 0 <= c.amount_forward.v() <= SCALE as int
    &&& 0 <= c.amount_backward.v() <= SCALE as int
    &&& 0 <= c.amount_up.v() <= SCALE as int
    &&& 0 <= c.amount_down.v() <= SCALE as int
    &&& -(SPEED_LIM as int) <= c.speed.v() <= SPEED_LIM as int
    &&& -(SPEED_LIM as int) <= c.sensitivity.v() <= SPEED_LIM as int
    &&& -(SCROLL_LIM as int) <= c.scroll.v() <= SCROLL_LIM as int
    &&& -(ROT_LIM as int) <= c.rotate_horizontal.v() <= ROT_LIM as int
    &&& -(ROT_LIM as int) <= c.rotate_vertical.v() <= ROT_LIM as int
    &&& 0 <= dt.v() <= DT_LIM as int
    &&& cam.position.abs_le(CTRL_POS_LIM as int)
    &&& -(ANGLE_LIM as int) <= cam.yaw.v() <= ANGLE_LIM as int
    &&& -(ANGLE_LIM as int) <= cam.pitch.v() <= ANGLE_LIM as int
}

impl CameraController {
    /// Movement flags hold only the two magnitudes a key event can set.
    pub open spec fn wf(self) -> bool {
        &&& self.amount_left.v() == 0 || self.amount_left.v() == SCALE as int
        &&& self.amount_right.v() == 0 || self.amount_right.v() == SCALE as int
        &&& self.amount_forward.v() == 0 || self.amount_forward.v() == SCALE as int
        &&& self.amount_backward.v() == 0 || self.amount_backward.v() == SCALE as int
        &&& self.amount_up.v() == 0 || self.amount_up.v() == SCALE as int
        &&& self.amount_down.v() == 0 || self.amount_down.v() == SCALE as int
    }

    /// No pending one-shot input and no held key.
    pub open spec fn at_rest(self) -> bool {
        &&& self.amount_left.v() == 0
        &&& self.amount_right.v() == 0
        &&& self.amount_forward.v() == 0
        &&& self.amount_backward.v() == 0
        &&& self.amount_up.v() == 0
        &&& self.amount_down.v() == 0
        &&& self.rotate_horizontal.v() == 0
        &&& self.rotate_vertical.v() == 0
        &&& self.scroll.v() == 0
    }

    pub fn new(speed: Fx, sensitivity: Fx) -> (r: CameraController)
        ensures
            r.speed == speed,
            r.sensitivity == sensitivity,
            r.at_rest(),
            r.wf(),
    {
        CameraController {
            amount_left: Fx { raw: 0 },
            amount_right: Fx { raw: 0 },
            amount_forward: Fx { raw: 0 },
            amount_backward: Fx { raw: 0 },
            amount_up: Fx { raw: 0 },
            amount_down: Fx { raw: 0 },
            rotate_horizontal: Fx { raw: 0 },
            rotate_vertical: Fx { raw: 0 },
            scroll: Fx { raw: 0 },
            speed,
            sensitivity,
        }
    }

    /// Map a key event onto the movement flags; the result says whether the
    /// key was one of the recognized movement keys.
    pub fn process_keyboard(&mut self, key: Key, pressed: bool) -> (r: bool)
        ensures
            r == key_recognized(key),
            *final(self) == apply_key(*old(self), key, pressed),
            old(self).wf() ==> final(self).wf(),
    {
        let amount = if pressed {
            Fx { raw: SCALE }
        } else {
            Fx { raw: 0 }
        };
        match key {
            Key::W | Key::Up => {
                self.amount_forward = amount;
                true
            },
            Key::S | Key::Down => {
                self.amount_backward = amount;
                true
            },
            Key::A | Key::Left => {
                self.amount_left = amount;
                true
            },
            Key::D | Key::Right => {
                self.amount_right = amount;
                true
            },
            Key::Space => {
                self.amount_up = amount;
                true
            },
            Key::LShift => {
                self.amount_down = amount;
                true
            },
            Key::Other => false,
        }
    }

    /// Accumulate a raw pointer delta into the pending rotation.
    pub fn process_mouse(&mut self, dx: Fx, dy: Fx)
        requires
            fits_i64(old(self).rotate_horizontal.v() + dx.v()),
            fits_i64(old(self).rotate_vertical.v() + dy.v()),
        ensures
            *final(self) == (CameraController {
                rotate_horizontal: Fx {
                    raw: (old(self).rotate_horizontal.v() + dx.v()) as i64,
                },
                rotate_vertical: Fx { raw: (old(self).rotate_vertical.v() + dy.v()) as i64 },
                ..*old(self)
            }),
    {
        self.rotate_horizontal = self.rotate_horizontal.add(dx);
        self.rotate_vertical = self.rotate_vertical.add(dy);
    }

    /// Accumulate a scroll step into the pending forward impulse. A positive
    /// step scrolls content up, which pulls the camera forward, hence the
    /// negation; line steps count a hundred times a pixel step.
    pub fn process_scroll(&mut self, delta: ScrollDelta)
        requires
            scroll_in_range(*old(self), delta),
        ensures
            *final(self) == (CameraController {
                scroll: Fx { raw: scroll_after(*old(self), delta) as i64 },
                ..*old(self)
            }),
    {
        let step: Fx = match delta {
            ScrollDelta::Lines(l) => {
                proof {
                    crate::fixed::lemma_mul_raw_whole(l.v(), 100);
                }
                l.mul(Fx { raw: 100 * SCALE })
            },
            ScrollDelta::Pixels(p) => p,
        };
        self.scroll = self.scroll.sub(step);
    }

    /// One frame of integration: displace the position from the held
    /// movement flags and the pending scroll impulse, turn from the pending
    /// mouse delta, clamp the pitch, and consume the one-shot input.
    pub fn update_camera(&mut self, camera: &mut Camera, dt: Fx, t: CamTrig)
        requires
            t.ok(),
            update_in_range(*old(self), *old(camera), dt),
        ensures
            final(camera).position.x.v() == pos_after_x(*old(self), *old(camera), dt, t),
            final(camera).position.y.v() == pos_after_y(*old(self), *old(camera), dt, t),
            final(camera).position.z.v() == pos_after_z(*old(self), *old(camera), dt, t),
            final(camera).yaw.v() == yaw_after(*old(self), *old(camera), dt),
            final(camera).pitch.v() == pitch_after(*old(self), *old(camera), dt),
            -(MAX_PITCH as int) <= final(camera).pitch.v() <= MAX_PITCH as int,
            final(camera).wf(),
            *final(self) == (CameraController {
                rotate_horizontal: Fx { raw: 0 },
                rotate_vertical: Fx { raw: 0 },
                scroll: Fx { raw: 0 },
                ..*old(self)
            }),
    {
        proof {
            let s_lim = SPEED_LIM as int;
            let dt_lim = DT_LIM as int;
            let c = *old(self);
            lemma_mul_raw_bound(
                c.amount_forward.v() - c.amount_backward.v(),
                c.speed.v(),
                SCALE as int,
                s_lim,
            );
            lemma_mul_raw_bound(
                mul_raw(c.amount_forward.v() - c.amount_backward.v(), c.speed.v()),
                dt.v(),
                s_lim,
                dt_lim,
            );
            lemma_mul_raw_bound(
                c.amount_right.v() - c.amount_left.v(),
                c.speed.v(),
                SCALE as int,
                s_lim,
            );
            lemma_mul_raw_bound(
                mul_raw(c.amount_right.v() - c.amount_left.v(), c.speed.v()),
                dt.v(),
                s_lim,
                dt_lim,
            );
            lemma_mul_raw_bound(
                c.amount_up.v() - c.amount_down.v(),
                c.speed.v(),
                SCALE as int,
                s_lim,
            );
            lemma_mul_raw_bound(
                mul_raw(c.amount_up.v() - c.amount_down.v(), c.speed.v()),
                dt.v(),
                s_lim,
                dt_lim,
            );
            lemma_mul_raw_bound(c.scroll.v(), c.speed.v(), SCROLL_LIM as int, s_lim);
            lemma_mul_raw_bound(
                mul_raw(c.scroll.v(), c.speed.v()),
                dt.v(),
                1_000_000_000_000,
                dt_lim,
            );
            lemma_mul_raw_bound(c.rotate_horizontal.v(), c.sensitivity.v(), ROT_LIM as int, s_lim);
            lemma_mul_raw_bound(
                mul_raw(c.rotate_horizontal.v(), c.sensitivity.v()),
                dt.v(),
                1_000_000_000_000_000,
                dt_lim,
            );
            lemma_mul_raw_bound(-c.rotate_vertical.v(), c.sensitivity.v(), ROT_LIM as int, s_lim);
            lemma_mul_raw_bound(
                mul_raw(-c.rotate_vertical.v(), c.sensitivity.v()),
                dt.v(),
                1_000_000_000_000_000,
                dt_lim,
            );
            lemma_mul_raw_bound(t.pitch_cos.v(), t.yaw_cos.v(), SCALE as int, SCALE as int);
            lemma_mul_raw_bound(t.pitch_cos.v(), t.yaw_sin.v(), SCALE as int, SCALE as int);
        }
        // Horizontal movement from the yaw: flattened look and side directions.
        let fwd = crate::vec::V3 { x: t.yaw_cos, y: Fx { raw: 0 }, z: t.yaw_sin };
        let right = crate::vec::V3 { x: t.yaw_sin.neg(), y: Fx { raw: 0 }, z: t.yaw_cos };
        let k_fwd = self.amount_forward.sub(self.amount_backward).mul(self.speed).mul(dt);
        let k_right = self.amount_right.sub(self.amount_left).mul(self.speed).mul(dt);
        proof {
            lemma_mul_raw_bound(t.yaw_cos.v(), k_fwd.v(), SCALE as int, 1_000_000_000_000);
            lemma_mul_raw_bound(0, k_fwd.v(), 0, 1_000_000_000_000);
            lemma_mul_raw_bound(t.yaw_sin.v(), k_fwd.v(), SCALE as int, 1_000_000_000_000);
            lemma_mul_raw_bound(-t.yaw_sin.v(), k_right.v(), SCALE as int, 1_000_000_000_000);
            lemma_mul_raw_bound(0, k_right.v(), 0, 1_000_000_000_000);
            lemma_mul_raw_bound(t.yaw_cos.v(), k_right.v(), SCALE as int, 1_000_000_000_000);
        }
        let mut pos = camera.position.add(fwd.scale(k_fwd));
        pos = pos.add(right.scale(k_right));
        // Scroll impulse along the full look direction.
        let look = crate::vec::V3 {
            x: t.pitch_cos.mul(t.yaw_cos),
            y: t.pitch_sin,
            z: t.pitch_cos.mul(t.yaw_sin),
        };
        let k_scroll = self.scroll.mul(self.speed).mul(dt);
        proof {
            lemma_mul_raw_bound(look.x.v(), k_scroll.v(), SCALE as int, 1_000_000_000_000_000);
            lemma_mul_raw_bound(look.y.v(), k_scroll.v(), SCALE as int, 1_000_000_000_000_000);
            lemma_mul_raw_bound(look.z.v(), k_scroll.v(), SCALE as int, 1_000_000_000_000_000);
        }
        pos = pos.add(look.scale(k_scroll));
        self.scroll = Fx { raw: 0 };
        // Vertical movement straight along the world up.
        let k_up = self.amount_up.sub(self.amount_down).mul(self.speed).mul(dt);
        pos.y = pos.y.add(k_up);
        camera.position = pos;
        // Rotation from the pending mouse delta, then the pitch clamp.
        let d_yaw = self.rotate_horizontal.mul(self.sensitivity).mul(dt);
        let d_pitch = self.rotate_vertical.neg().mul(self.sensitivity).mul(dt);
        camera.yaw = camera.yaw.add(d_yaw);
        camera.pitch = camera.pitch.add(d_pitch).clamp_to(
            Fx { raw: -MAX_PITCH },
            Fx { raw: MAX_PITCH },
        );
        self.rotate_horizontal = Fx { raw: 0 };
        self.rotate_vertical = Fx { raw: 0 };
    }
}

/// A frame with nothing accumulated is a no-op: with every flag and pending
/// delta at zero, the integration leaves position and orientation exactly
/// unchanged, whatever the frame time (the pitch clamp is the identity on a
/// well-formed camera).
pub proof fn lemma_noop_frame(c: CameraController, cam: Camera, dt: Fx, t: CamTrig)
    requires
        c.at_rest(),
        cam.wf(),
    ensures
        pos_after_x(c, cam, dt, t) == cam.position.x.v(),
        pos_after_y(c, cam, dt, t) == cam.position.y.v(),
        pos_after_z(c, cam, dt, t) == cam.position.z.v(),
        yaw_after(c, cam, dt) == cam.yaw.v(),
        pitch_after(c, cam, dt) == cam.pitch.v(),
{
    assert(mul_raw(0, c.speed.v()) == 0);
    assert(mul_raw(0, dt.v()) == 0);
    assert(mul_raw(0, c.sensitivity.v()) == 0);
    assert(mul_raw(t.yaw_cos.v(), 0) == 0);
    assert(mul_raw(t.yaw_sin.v(), 0) == 0);
    assert(mul_raw(-t.yaw_sin.v(), 0) == 0);
    assert(mul_raw(t.pitch_sin.v(), 0) == 0);
    assert(mul_raw(mul_raw(t.pitch_cos.v(), t.yaw_cos.v()), 0) == 0);
    assert(mul_raw(mul_raw(t.pitch_cos.v(), t.yaw_sin.v()), 0) == 0);
}

/// Consumed mouse input turns no further: with both pending deltas at zero
/// the yaw is unchanged and the pitch only passes through its clamp, so a
/// second frame after a `update_camera` adds no rotation.
pub proof fn lemma_no_pending_rotation(c: CameraController, cam: Camera, dt: Fx)
    requires
        c.rotate_horizontal.v() == 0,
        c.rotate_vertical.v() == 0,
        cam.wf(),
    ensures
        yaw_after(c, cam, dt) == cam.yaw.v(),
        pitch_after(c, cam, dt) == cam.pitch.v(),
{
    assert(mul_raw(0, c.sensitivity.v()) == 0);
    assert(mul_raw(0, dt.v()) == 0);
}

} // verus!
