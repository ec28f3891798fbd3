//! Positions on the plane and the toroidal wrap that keeps them in range.
use vstd::prelude::*;
use crate::fixed::{floor_mod, DIV_LIMIT};

verus! {

/// A point in fixed-point units (see `SCALE`).
#[derive(Clone, Copy, Debug, PartialEq, Eq, Structural)]
pub struct Point2D {
    pub x: i64,
    pub y: i64,
}

/// Largest wrap bound a configuration may hold; keeps every wrapped
/// coordinate, and twice the bound, inside `i64`.
pub const MAX_WRAP_BOUND: i64 = 0x4000_0000_0000_0000;

/// `v` folded into `[-pad, pad)` by adding or removing whole multiples of
/// `2 * pad`.
pub open spec fn wrap(v: int, pad: int) -> int {
    (v + pad) % (2 * pad) - pad
}

/// The wrap lands in `[-pad, pad)` and differs from its argument by a whole
/// number of turns of the torus: values are folded back, never clamped.
pub proof fn lemma_wrap_in_range(v: int, pad: int)
    requires
        pad > 0,
    ensures
        -pad <= wrap(v, pad) < pad,
        (v - wrap(v, pad)) % (2 * pad) == 0,
{
    vstd::arithmetic::div_mod::lemma_fundamental_div_mod(v + pad, 2 * pad);
    vstd::arithmetic::div_mod::lemma_mod_bound(v + pad, 2 * pad);
    let k = (v + pad) / (2 * pad);
    assert(v - wrap(v, pad) == k * (2 * pad)) by (nonlinear_arith)
        requires
            v + pad == (2 * pad) * k + (v + pad) % (2 * pad),
            wrap(v, pad) == (v + pad) % (2 * pad) - pad,
    ;
    vstd::arithmetic::div_mod::lemma_mod_multiples_basic(k, 2 * pad);
}

/// Folds `v` into `[-pad, pad)` on the torus of circumference `2 * pad`.
pub fn wrap_coord(v: i128, pad: i64) -> (r: i64)
    requires
        0 < pad <= MAX_WRAP_BOUND,
        -DIV_LIMIT / 2 <= v <= DIV_LIMIT / 2,
    ensures
        r as int == wrap(v as int, pad as int),
        -pad <= r < pad,
        (v - r) % (2 * pad as int) == 0,
{
    let p: i128 = pad as i128;
    let m: i128 = floor_mod(v + p, 2 * p);
    let r: i128 = m - p;
    proof {
        vstd::arithmetic::div_mod::lemma_mod_bound(v + p, 2 * p as int);
        lemma_wrap_in_range(v as int, p as int);
    }
    r as i64
}

} // verus!
