//! Three-component vectors of fixed-point scalars, with exact componentwise
//! contracts.

use vstd::prelude::*;
use crate::fixed::{Fx, mul_raw, fits_i64};

verus! {

#[derive(Clone, Copy, PartialEq, Eq, Structural, Debug)]
pub struct V3 {
    pub x: Fx,
    pub y: Fx,
    pub z: Fx,
}

/// The dot product of two vectors, as a raw count: the sum of the rounded
/// componentwise products.
pub open spec fn dot_raw(a: V3, b: V3) -> int {
    mul_raw(a.x.v(), b.x.v()) + mul_raw(a.y.v(), b.y.v()) + mul_raw(a.z.v(), b.z.v())
}

/// All the intermediate values of a dot product stay representable.
pub open spec fn dot_fits(a: V3, b: V3) -> bool {
    let px = mul_raw(a.x.v(), b.x.v());
    let py = mul_raw(a.y.v(), b.y.v());
    let pz = mul_raw(a.z.v(), b.z.v());
    fits_i64(px) && fits_i64(py) && fits_i64(pz) && fits_i64(px + py) && fits_i64(
        px + py + pz,
    )
}

impl V3 {
    pub open spec fn all_v(self) -> (int, int, int) {
        (self.x.v(), self.y.v(), self.z.v())
    }

    /// Every component within the given magnitude.
    pub open spec fn abs_le(self, b: int) -> bool {
        &&& -b <= self.x.v() <= b
        &&& -b <= self.y.v() <= b
        &&& -b <= self.z.v() <= b
    }

    pub open spec fn is_zero(self) -> bool {
        self.x.v() == 0 && self.y.v() == 0 && self.z.v() == 0
    }

    pub fn new(x: Fx, y: Fx, z: Fx) -> (r: V3)
        ensures
            r == (V3 { x, y, z }),
    {
        V3 { x, y, z }
    }

    pub fn zero() -> (r: V3)
        ensures
            r.is_zero(),
    {
        V3 { x: Fx { raw: 0 }, y: Fx { raw: 0 }, z: Fx { raw: 0 } }
    }

    pub fn add(self, o: V3) -> (r: V3)
        requires
            fits_i64(self.x.v() + o.x.v()),
            fits_i64(self.y.v() + o.y.v()),
            fits_i64(self.z.v() + o.z.v()),
        ensures
            r.x.v() == self.x.v() + o.x.v(),
            r.y.v() == self.y.v() + o.y.v(),
            r.z.v() == self.z.v() + o.z.v(),
    {
        V3 { x: self.x.add(o.x), y: self.y.add(o.y), z: self.z.add(o.z) }
    }

    pub fn sub(self, o: V3) -> (r: V3)
        requires
            fits_i64(self.x.v() - o.x.v()),
            fits_i64(self.y.v() - o.y.v()),
            fits_i64(self.z.v() - o.z.v()),
        ensures
            r.x.v() == self.x.v() - o.x.v(),
            r.y.v() == self.y.v() - o.y.v(),
            r.z.v() == self.z.v() - o.z.v(),
    {
        V3 { x: self.x.sub(o.x), y: self.y.sub(o.y), z: self.z.sub(o.z) }
    }

    pub fn neg(self) -> (r: V3)
        requires
            self.x.ok(),
            self.y.ok(),
            self.z.ok(),
        ensures
            r.x.v() == -self.x.v(),
            r.y.v() == -self.y.v(),
            r.z.v() == -self.z.v(),
    {
        V3 { x: self.x.neg(), y: self.y.neg(), z: self.z.neg() }
    }

    /// Scale each component by `s`, with the product rounding.
    pub fn scale(self, s: Fx) -> (r: V3)
        requires
            fits_i64(mul_raw(self.x.v(), s.v())),
            fits_i64(mul_raw(self.y.v(), s.v())),
            fits_i64(mul_raw(self.z.v(), s.v())),
        ensures
            r.x.v() == mul_raw(self.x.v(), s.v()),
            r.y.v() == mul_raw(self.y.v(), s.v()),
            r.z.v() == mul_raw(self.z.v(), s.v()),
    {
        V3 { x: self.x.mul(s), y: self.y.mul(s), z: self.z.mul(s) }
    }

    pub fn dot(self, o: V3) -> (r: Fx)
        requires
            dot_fits(self, o),
        ensures
            r.v() == dot_raw(self, o),
    {
        self.x.mul(o.x).add(self.y.mul(o.y)).add(self.z.mul(o.z))
    }

    /// Cross product, each component a difference of rounded products.
    pub fn cross(self, o: V3) -> (r: V3)
        requires
            fits_i64(mul_raw(self.y.v(), o.z.v())),
            fits_i64(mul_raw(self.z.v(), o.y.v())),
            fits_i64(mul_raw(self.z.v(), o.x.v())),
            fits_i64(mul_raw(self.x.v(), o.z.v())),
            fits_i64(mul_raw(self.x.v(), o.y.v())),
            fits_i64(mul_raw(self.y.v(), o.x.v())),
            fits_i64(mul_raw(self.y.v(), o.z.v()) - mul_raw(self.z.v(), o.y.v())),
            fits_i64(mul_raw(self.z.v(), o.x.v()) - mul_raw(self.x.v(), o.z.v())),
            fits_i64(mul_raw(self.x.v(), o.y.v()) - mul_raw(self.y.v(), o.x.v())),
        ensures
            r.x.v() == mul_raw(self.y.v(), o.z.v()) - mul_raw(self.z.v(), o.y.v()),
            r.y.v() == mul_raw(self.z.v(), o.x.v()) - mul_raw(self.x.v(), o.z.v()),
            r.z.v() == mul_raw(self.x.v(), o.y.v()) - mul_raw(self.y.v(), o.x.v()),
    {
        V3 {
            x: self.y.mul(o.z).sub(self.z.mul(o.y)),
            y: self.z.mul(o.x).sub(self.x.mul(o.z)),
            z: self.x.mul(o.y).sub(self.y.mul(o.x)),
        }
    }
}

} // verus!
