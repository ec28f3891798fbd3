//! Fixed-point conventions and the integer division that rounds toward
//! negative infinity, which the simulation uses for every product of scaled
//! quantities.
use vstd::prelude::*;
use vstd::arithmetic::div_mod::lemma_fundamental_div_mod_converse;

verus! {

/// One unit of length, of time (a second) or of an axis reading is this many
/// steps of the integer that stores it.
pub const SCALE: i128 = 1_000_000;

/// Largest magnitude that the division helpers accept, far above any product
/// of three 64-bit-or-smaller factors that the simulation forms.
pub const DIV_LIMIT: i128 = 0x4000_0000_0000_0000_0000_0000_0000_0000;

/// The floor of `a / b` for a positive `b` (spec `/` is Euclidean, which is the
/// floor when the divisor is positive).
pub fn floor_div(a: i128, b: i128) -> (q: i128)
    requires
        b > 0,
        -DIV_LIMIT <= a <= DIV_LIMIT,
    ensures
        q == a / b,
{
    if a >= 0 {
        a / b
    } else {
        let n: i128 = -a - 1;
        let t: i128 = n / b;
        proof {
            let r = n % b;
            vstd::arithmetic::div_mod::lemma_fundamental_div_mod(n as int, b as int);
            vstd::arithmetic::div_mod::lemma_mod_pos_bound(n as int, b as int);
            assert(n == t * b + r) by (nonlinear_arith)
                requires
                    n == b * (n / b) + n % b,
                    t == n / b,
                    r == n % b,
            ;
            assert(a == (-t - 1) * b + (b - r - 1)) by (nonlinear_arith)
                requires
                    n == t * b + r,
                    a == -n - 1,
            ;
            lemma_fundamental_div_mod_converse(a as int, b as int, -t - 1, b - r - 1);
        }
        -t - 1
    }
}

/// The remainder of `a` by a positive `b`, in `0 .. b` (spec `%` is Euclidean).
pub fn floor_mod(a: i128, b: i128) -> (r: i128)
    requires
        b > 0,
        -DIV_LIMIT <= a <= DIV_LIMIT,
        b <= DIV_LIMIT,
    ensures
        r == a % b,
        0 <= r < b,
{
    let q: i128 = floor_div(a, b);
    proof {
        vstd::arithmetic::div_mod::lemma_fundamental_div_mod(a as int, b as int);
        vstd::arithmetic::div_mod::lemma_mod_bound(a as int, b as int);
    }
    assert(q * b == a - a % b);
    a - q * b
}

} // verus!
