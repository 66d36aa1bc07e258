//! Signed fixed-point arithmetic with four decimal places.

use vstd::arithmetic::div_mod::{
    lemma_div_is_ordered, lemma_div_nonincreasing, lemma_div_pos_is_pos,
};
use vstd::prelude::*;

verus! {

/// The fixed-point unit: the representation of 1.0.
pub const FP_ONE: i64 = 10000;

/// Round-toward-zero division, the way Rust's `/` divides machine integers
/// (spec-level `/` alone is Euclidean and differs on negative numerators).
pub open spec fn div_trunc(a: int, b: int) -> int {
    if a >= 0 {
        a / b
    } else {
        -((-a) / b)
    }
}

/// The product of two fixed-point values, truncated toward zero.
pub open spec fn fp_mul_spec(a: int, b: int) -> int {
    div_trunc(a * b, FP_ONE as int)
}

/// A bound on the numerator gives the same bound, shrunk by the divisor, on
/// the truncated quotient.
pub proof fn lemma_div_trunc_bound(a: int, b: int, m: int)
    requires
        0 < b,
        0 <= m,
        -m <= a <= m,
    ensures
        -(m / b) <= div_trunc(a, b) <= m / b,
{
    lemma_div_pos_is_pos(m, b);
    if a >= 0 {
        lemma_div_pos_is_pos(a, b);
        lemma_div_is_ordered(a, m, b);
    } else {
        lemma_div_pos_is_pos(-a, b);
        lemma_div_is_ordered(-a, m, b);
    }
}

/// Bounds on both factors bound their fixed-point product.
pub proof fn lemma_fp_mul_bound(a: int, b: int, ma: int, mb: int)
    requires
        0 <= ma,
        0 <= mb,
        -ma <= a <= ma,
        -mb <= b <= mb,
    ensures
        -((ma * mb) / (FP_ONE as int)) <= fp_mul_spec(a, b) <= (ma * mb) / (FP_ONE as int),
{
    assert(-(ma * mb) <= a * b <= ma * mb) by (nonlinear_arith)
        requires
            0 <= ma,
            0 <= mb,
            -ma <= a <= ma,
            -mb <= b <= mb,
    ;
    assert(0 <= ma * mb) by (nonlinear_arith)
        requires
            0 <= ma,
            0 <= mb,
    ;
    lemma_div_trunc_bound(a * b, FP_ONE as int, ma * mb);
}

/// Fixed-point multiplication. The asymmetric input bounds keep the machine
/// product inside `i64` while admitting one large factor.
pub fn fp_mul(a: i64, b: i64) -> (r: i64)
    requires
        -30_000_000_000 <= a <= 30_000_000_000,
        -300_000_000 <= b <= 300_000_000,
    ensures
        r == fp_mul_spec(a as int, b as int),
{
    proof {
        assert(-9_000_000_000_000_000_000 <= (a as int) * (b as int)
            <= 9_000_000_000_000_000_000) by (nonlinear_arith)
            requires
                -30_000_000_000 <= a <= 30_000_000_000,
                -300_000_000 <= b <= 300_000_000,
        ;
    }
    let p: i64 = a * b;
    if p >= 0 {
        proof {
            lemma_div_pos_is_pos(p as int, FP_ONE as int);
            lemma_div_nonincreasing(p as int, FP_ONE as int);
        }
        let q: u64 = (p as u64) / (FP_ONE as u64);
        q as i64
    } else {
        let n: i64 = -p;
        proof {
            lemma_div_pos_is_pos(n as int, FP_ONE as int);
            lemma_div_nonincreasing(n as int, FP_ONE as int);
        }
        let q: u64 = (n as u64) / (FP_ONE as u64);
        -(q as i64)
    }
}

/// Division of a non-negative value by a positive one; here truncating and
/// Euclidean division agree.
pub fn fp_div_pos(a: i64, b: i64) -> (r: i64)
    requires
        0 <= a,
        0 < b,
    ensures
        r == (a as int) / (b as int),
        0 <= r <= a,
{
    proof {
        lemma_div_pos_is_pos(a as int, b as int);
        lemma_div_nonincreasing(a as int, b as int);
    }
    ((a as u64) / (b as u64)) as i64
}

} // verus!
