//! The light model: one tagged type covering point, directional and spot
//! lights, a single serializer producing each variant's fixed blob layout,
//! and the per-frame orbit of the active light about the world vertical.

use vstd::prelude::*;
use crate::fixed::{Fx, SCALE, mul_raw, lemma_mul_raw_bound};
use crate::vec::V3;

verus! {

/// Largest coordinate magnitude the orbit rotation accepts.
pub const LIGHT_LIM: i64 = 1_000_000_000_000;

/// The orbit rate of the active light, in fixed-point degrees per second.
pub const ORBIT_DEG_PER_SEC: i64 = 60_000_000;

/// Default attenuation of a point light: constant one.
pub const ATTENUATION_CONSTANT: i64 = 1_000_000;

/// Default attenuation of a point light: linear term 0.09.
pub const ATTENUATION_LINEAR: i64 = 90_000;

/// Default attenuation of a point light: quadratic term 0.032.
pub const ATTENUATION_QUADRATIC: i64 = 32_000;

/// What distinguishes the light variants; color and intensity are shared.
#[derive(Clone, Copy, PartialEq, Eq, Structural, Debug)]
pub enum LightKind {
    Point { position: V3, constant: Fx, linear: Fx, quadratic: Fx },
    Directional { direction: V3 },
    Spot { position: V3, direction: V3, cut_off: Fx, outer_cut_off: Fx },
}

#[derive(Clone, Copy, PartialEq, Eq, Structural, Debug)]
pub struct Light {
    pub color: V3,
    pub intensity: Fx,
    pub kind: LightKind,
}

/// The first component of a vector rotated about the world vertical by an
/// angle with sine `s` and cosine `c`.
pub open spec fn rot_y_x(s: Fx, c: Fx, v: V3) -> int {
    mul_raw(c.v(), v.x.v()) + mul_raw(s.v(), v.z.v())
}

/// The third component of the same rotation; the vertical component is
/// untouched.
pub open spec fn rot_y_z(s: Fx, c: Fx, v: V3) -> int {
    mul_raw(c.v(), v.z.v()) - mul_raw(s.v(), v.x.v())
}

/// Rotate a vector about the world vertical axis.
pub fn rotate_y(v: V3, s: Fx, c: Fx) -> (r: V3)
    requires
        -(SCALE as int) <= s.v() <= SCALE as int,
        -(SCALE as int) <= c.v() <= SCALE as int,
        v.abs_le(LIGHT_LIM as int),
    ensures
        r.x.v() == rot_y_x(s, c, v),
        r.y == v.y,
        r.z.v() == rot_y_z(s, c, v),
{
    proof {
        lemma_mul_raw_bound(c.v(), v.x.v(), SCALE as int, LIGHT_LIM as int);
        lemma_mul_raw_bound(s.v(), v.z.v(), SCALE as int, LIGHT_LIM as int);
        lemma_mul_raw_bound(c.v(), v.z.v(), SCALE as int, LIGHT_LIM as int);
        lemma_mul_raw_bound(s.v(), v.x.v(), SCALE as int, LIGHT_LIM as int);
    }
    V3 { x: c.mul(v.x).add(s.mul(v.z)), y: v.y, z: c.mul(v.z).sub(s.mul(v.x)) }
}

/// The algebra behind the orbit: rotating about the vertical scales the
/// squared horizontal norm by exactly `s*s + c*c` and leaves the vertical
/// component alone. For an exact unit sine/cosine pair the squared length is
/// preserved; the executable rotation only adds the rounding of each
/// component to the millionth grid.
proof fn lemma_square_of_sum(a: int, b: int)
    ensures
        (a + b) * (a + b) == a * a + 2 * (a * b) + b * b,
{
    assert((a + b) * (a + b) == a * a + 2 * (a * b) + b * b) by (nonlinear_arith);
}

proof fn lemma_square_of_difference(a: int, b: int)
    ensures
        (a - b) * (a - b) == a * a - 2 * (a * b) + b * b,
{
    assert((a - b) * (a - b) == a * a - 2 * (a * b) + b * b) by (nonlinear_arith);
}

proof fn lemma_product_regroup(p: int, q: int, r: int, t: int)
    ensures
        (p * q) * (r * t) == (p * r) * (q * t),
{
    assert((p * q) * (r * t) == (p * r) * (q * t)) by (nonlinear_arith);
}

proof fn lemma_distribute_pair(p: int, q: int, r: int, t: int)
    ensures
        (p + q) * (r + t) == p * r + p * t + q * r + q * t,
{
    assert((p + q) * (r + t) == p * r + p * t + q * r + q * t) by (nonlinear_arith);
}

/// Each computed component of the rotation sits within two raw steps of the
/// exact product sum the identity above speaks of: one frame of the orbit
/// perturbs the vector by no more than the grid rounding.
pub proof fn lemma_rot_y_rounding(s: Fx, c: Fx, v: V3)
    ensures
        -2 * (SCALE as int) < rot_y_x(s, c, v) * (SCALE as int) - (c.v() * v.x.v() + s.v()
            * v.z.v()) < 2 * (SCALE as int),
        -2 * (SCALE as int) < rot_y_z(s, c, v) * (SCALE as int) - (c.v() * v.z.v() - s.v()
            * v.x.v()) < 2 * (SCALE as int),
{
    crate::fixed::lemma_mul_raw_rounding(c.v(), v.x.v());
    crate::fixed::lemma_mul_raw_rounding(s.v(), v.z.v());
    crate::fixed::lemma_mul_raw_rounding(c.v(), v.z.v());
    crate::fixed::lemma_mul_raw_rounding(s.v(), v.x.v());
}

pub proof fn lemma_orbit_preserves_square_norm(s: int, c: int, x: int, z: int)
    ensures
        (c * x + s * z) * (c * x + s * z) + (c * z - s * x) * (c * z - s * x) == (s * s + c * c) * (
        x * x + z * z),
{
    lemma_square_of_sum(c * x, s * z);
    lemma_square_of_difference(c * z, s * x);
    lemma_product_regroup(c, x, c, x);
    lemma_product_regroup(s, z, s, z);
    lemma_product_regroup(c, z, c, z);
    lemma_product_regroup(s, x, s, x);
    lemma_product_regroup(c, x, s, z);
    lemma_product_regroup(c, z, s, x);
    lemma_distribute_pair(s * s, c * c, x * x, z * z);
}

impl Light {
    /// A point light with the default attenuation constants.
    pub fn new_point(position: V3, color: V3, intensity: Fx) -> (r: Light)
        ensures
            r == (Light {
                color,
                intensity,
                kind: LightKind::Point {
                    position,
                    constant: Fx { raw: ATTENUATION_CONSTANT },
                    linear: Fx { raw: ATTENUATION_LINEAR },
                    quadratic: Fx { raw: ATTENUATION_QUADRATIC },
                },
            }),
    {
        Light {
            color,
            intensity,
            kind: LightKind::Point {
                position,
                constant: Fx { raw: ATTENUATION_CONSTANT },
                linear: Fx { raw: ATTENUATION_LINEAR },
                quadratic: Fx { raw: ATTENUATION_QUADRATIC },
            },
        }
    }

    pub fn new_directional(direction: V3, color: V3, intensity: Fx) -> (r: Light)
        ensures
            r == (Light { color, intensity, kind: LightKind::Directional { direction } }),
    {
        Light { color, intensity, kind: LightKind::Directional { direction } }
    }

    /// A spot light; the cone bounds are the cosines of the inner and outer
    /// half-angles, evaluated by the caller.
    pub fn new_spot(
        position: V3,
        direction: V3,
        color: V3,
        intensity: Fx,
        cut_off: Fx,
        outer_cut_off: Fx,
    ) -> (r: Light)
        ensures
            r == (Light {
                color,
                intensity,
                kind: LightKind::Spot { position, direction, cut_off, outer_cut_off },
            }),
    {
        Light { color, intensity, kind: LightKind::Spot { position, direction, cut_off, outer_cut_off } }
    }

    /// The vector the orbit turns: the direction of a spot or directional
    /// light, the position of a point light.
    pub open spec fn orbit_vector(self) -> V3 {
        match self.kind {
            LightKind::Point { position, .. } => position,
            LightKind::Directional { direction } => direction,
            LightKind::Spot { direction, .. } => direction,
        }
    }

    /// One frame of the orbit: rotate the variant's orientation vector about
    /// the world vertical by the angle whose sine and cosine are supplied
    /// (the orbit rate times the frame time). Everything else is unchanged.
    pub fn orbit_y(&mut self, s: Fx, c: Fx)
        requires
            -(SCALE as int) <= s.v() <= SCALE as int,
            -(SCALE as int) <= c.v() <= SCALE as int,
            old(self).orbit_vector().abs_le(LIGHT_LIM as int),
        ensures
            final(self).color == old(self).color,
            final(self).intensity == old(self).intensity,
            final(self).orbit_vector().x.v() == rot_y_x(s, c, old(self).orbit_vector()),
            final(self).orbit_vector().y == old(self).orbit_vector().y,
            final(self).orbit_vector().z.v() == rot_y_z(s, c, old(self).orbit_vector()),
            (match (old(self).kind, final(self).kind) {
                (
                    LightKind::Point { constant: c0, linear: l0, quadratic: q0, .. },
                    LightKind::Point { constant: c1, linear: l1, quadratic: q1, .. },
                ) => c0 == c1 && l0 == l1 && q0 == q1,
                (
                    LightKind::Directional { .. },
                    LightKind::Directional { .. },
                ) => true,
                (
                    LightKind::Spot { position: p0, cut_off: i0, outer_cut_off: o0, .. },
                    LightKind::Spot { position: p1, cut_off: i1, outer_cut_off: o1, .. },
                ) => p0 == p1 && i0 == i1 && o0 == o1,
                _ => false,
            }),
    {
        match self.kind {
            LightKind::Point { position, constant, linear, quadratic } => {
                self.kind = LightKind::Point {
                    position: rotate_y(position, s, c),
                    constant,
                    linear,
                    quadratic,
                };
            },
            LightKind::Directional { direction } => {
                self.kind = LightKind::Directional { direction: rotate_y(direction, s, c) };
            },
            LightKind::Spot { position, direction, cut_off, outer_cut_off } => {
                self.kind = LightKind::Spot {
                    position,
                    direction: rotate_y(direction, s, c),
                    cut_off,
                    outer_cut_off,
                };
            },
        }
    }

    /// Serialize to the shader-facing blob: a fixed sequence of scalars per
    /// variant, padded to a sixteen-byte-aligned layout (four-scalar rows).
    pub fn to_blob(&self) -> (blob: Vec<Fx>)
        ensures
            (match self.kind {
                LightKind::Point { position, constant, linear, quadratic } => blob@ =~= seq![
                    position.x,
                    position.y,
                    position.z,
                    self.intensity,
                    self.color.x,
                    self.color.y,
                    self.color.z,
                    constant,
                    linear,
                    quadratic,
                    (Fx { raw: 0 }),
                    (Fx { raw: 0 }),
                ],
                LightKind::Directional { direction } => blob@ =~= seq![
                    direction.x,
                    direction.y,
                    direction.z,
                    self.intensity,
                    self.color.x,
                    self.color.y,
                    self.color.z,
                    (Fx { raw: 0 }),
                ],
                LightKind::Spot { position, direction, cut_off, outer_cut_off } => blob@ =~= seq![
                    position.x,
                    position.y,
                    position.z,
                    cut_off,
                    direction.x,
                    direction.y,
                    direction.z,
                    self.intensity,
                    self.color.x,
                    self.color.y,
                    self.color.z,
                    outer_cut_off,
                ],
            }),
    {
        let mut blob: Vec<Fx> = Vec::new();
        match self.kind {
            LightKind::Point { position, constant, linear, quadratic } => {
                blob.push(position.x);
                blob.push(position.y);
                blob.push(position.z);
                blob.push(self.intensity);
                blob.push(self.color.x);
                blob.push(self.color.y);
                blob.push(self.color.z);
                blob.push(constant);
                blob.push(linear);
                blob.push(quadratic);
                blob.push(Fx { raw: 0 });
                blob.push(Fx { raw: 0 });
            },
            LightKind::Directional { direction } => {
                blob.push(direction.x);
                blob.push(direction.y);
                blob.push(direction.z);
                blob.push(self.intensity);
                blob.push(self.color.x);
                blob.push(self.color.y);
                blob.push(self.color.z);
                blob.push(Fx { raw: 0 });
            },
            LightKind::Spot { position, direction, cut_off, outer_cut_off } => {
                blob.push(position.x);
                blob.push(position.y);
                blob.push(position.z);
                blob.push(cut_off);
                blob.push(direction.x);
                blob.push(direction.y);
                blob.push(direction.z);
                blob.push(self.intensity);
                blob.push(self.color.x);
                blob.push(self.color.y);
                blob.push(self.color.z);
                blob.push(outer_cut_off);
            },
        }
        blob
    }
}

} // verus!
