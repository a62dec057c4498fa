//! The instance grid: one mesh drawn many times on a square grid centred on
//! the origin, each instance rotated a fixed angle about an axis derived
//! from its own position.

use vstd::prelude::*;
use crate::fixed::{Fx, SCALE, mul_raw, lemma_mul_raw_bound};
use crate::vec::V3;

verus! {

/// Side length of the default grid.
pub const GRID_SIDE: u32 = 10;

/// Default spacing between neighbouring instances, in raw steps (three
/// units).
pub const GRID_SPACING: i64 = 3_000_000;

/// The fixed rotation applied to every instance, in fixed-point degrees.
pub const INSTANCE_ROT_DEG: i64 = 45_000_000;

/// Largest grid side `make_grid` accepts.
pub const GRID_SIDE_LIM: u32 = 1_000;

/// Largest spacing magnitude `make_grid` accepts.
pub const SPACING_LIM: i64 = 1_000_000_000;

/// One repetition of the mesh: its displacement and the axis it is rotated
/// about. The axis is left unnormalized: it is the position itself, or the
/// world depth axis for the instance sitting exactly on the origin, so it is
/// never the zero vector and normalizing it is always defined.
#[derive(Clone, Copy, PartialEq, Eq, Structural, Debug)]
pub struct Instance {
    pub position: V3,
    pub axis: V3,
}

/// The grid coordinate of row or column `i` out of `n`: the index is
/// displaced by half the side, then scaled by the spacing.
pub open spec fn grid_coord(i: int, n: u32, spacing: Fx) -> int {
    mul_raw(spacing.v(), i * (SCALE as int) - ((n as int) * (SCALE as int)) / 2)
}

/// The instance at flat index `k` of an `n` by `n` grid: row `k / n`, column
/// `k % n`.
pub open spec fn grid_instance_ok(inst: Instance, k: int, n: u32, spacing: Fx) -> bool {
    &&& inst.position.x.v() == grid_coord(k % (n as int), n, spacing)
    &&& inst.position.y.v() == 0
    &&& inst.position.z.v() == grid_coord(k / (n as int), n, spacing)
    &&& (inst.position.is_zero() ==> inst.axis == (V3 {
        x: Fx { raw: 0 },
        y: Fx { raw: 0 },
        z: Fx { raw: SCALE },
    }))
    &&& (!inst.position.is_zero() ==> inst.axis == inst.position)
    &&& !inst.axis.is_zero()
}

/// Generate the `n` by `n` instance grid: exactly `n * n` instances, the
/// instance at flat index `k` standing at the grid coordinates of row
/// `k / n` and column `k % n`, its rotation axis its own position except on
/// the origin, where the fixed fallback axis keeps the axis nonzero.
pub fn make_grid(n: u32, spacing: Fx) -> (out: Vec<Instance>)
    requires
        1 <= n <= GRID_SIDE_LIM,
        -(SPACING_LIM as int) <= spacing.v() <= SPACING_LIM as int,
    ensures
        out@.len() == n * n,
        forall|k: int| 0 <= k < n * n ==> grid_instance_ok(#[trigger] out@[k], k, n, spacing),
{
    proof {
        assert((n as int) * (n as int) <= 1_000_000) by (nonlinear_arith)
            requires
                1 <= n <= 1_000,
        ;
    }
    let total: u32 = n * n;
    let half: i64 = (n as i64) * SCALE / 2;
    let mut out: Vec<Instance> = Vec::new();
    let mut k: u32 = 0;
    while k < total
        invariant
            total == n * n,
            1 <= n <= GRID_SIDE_LIM,
            -(SPACING_LIM as int) <= spacing.v() <= SPACING_LIM as int,
            half == ((n as int) * (SCALE as int)) / 2,
            0 <= k <= total,
            out@.len() == k,
            forall|j: int| 0 <= j < k ==> grid_instance_ok(#[trigger] out@[j], j, n, spacing),
        decreases total - k,
    {
        let ix: u32 = k % n;
        let iz: u32 = k / n;
        proof {
            assert(ix < n && iz < n) by (nonlinear_arith)
                requires
                    n >= 1,
                    k < n * n,
                    ix == (k as int) % (n as int),
                    iz == (k as int) / (n as int),
            ;
            assert((ix as int) * (SCALE as int) <= 1_000_000_000) by (nonlinear_arith)
                requires
                    0 <= ix < 1_000,
            ;
            assert((iz as int) * (SCALE as int) <= 1_000_000_000) by (nonlinear_arith)
                requires
                    0 <= iz < 1_000,
            ;
            lemma_mul_raw_bound(
                spacing.v(),
                (ix as int) * (SCALE as int) - half as int,
                SPACING_LIM as int,
                2_000_000_000,
            );
            lemma_mul_raw_bound(
                spacing.v(),
                (iz as int) * (SCALE as int) - half as int,
                SPACING_LIM as int,
                2_000_000_000,
            );
        }
        let px = spacing.mul(Fx { raw: (ix as i64) * SCALE - half });
        let pz = spacing.mul(Fx { raw: (iz as i64) * SCALE - half });
        let position = V3 { x: px, y: Fx { raw: 0 }, z: pz };
        let axis = if px.raw == 0 && pz.raw == 0 {
            V3 { x: Fx { raw: 0 }, y: Fx { raw: 0 }, z: Fx { raw: SCALE } }
        } else {
            position
        };
        out.push(Instance { position, axis });
        k = k + 1;
    }
    out
}

} // verus!
