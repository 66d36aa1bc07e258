//! The two rotation phases that animate the scene, advanced by fixed
//! increments once per driver tick.

use crate::geom::{A_STEP_FP, B_STEP_FP};
use vstd::prelude::*;

verus! {

/// One tick of advancement on a pair of phases, at the spec level.
pub open spec fn advance_once(a: int, b: int) -> (int, int) {
    (a + A_STEP_FP, b + B_STEP_FP)
}

/// `n` ticks of advancement on a pair of phases.
pub open spec fn advance_n(a: int, b: int, n: nat) -> (int, int)
    decreases n,
{
    if n == 0 {
        (a, b)
    } else {
        let prev = advance_n(a, b, (n - 1) as nat);
        advance_once(prev.0, prev.1)
    }
}

/// After `n` ticks each phase has grown by exactly `n` fixed increments.
pub proof fn lemma_advance_growth(a: int, b: int, n: nat)
    ensures
        advance_n(a, b, n) == (a + n * (A_STEP_FP as int), b + n * (B_STEP_FP as int)),
    decreases n,
{
    if n > 0 {
        lemma_advance_growth(a, b, (n - 1) as nat);
        assert((n - 1) * (A_STEP_FP as int) + A_STEP_FP == n * (A_STEP_FP as int))
            by (nonlinear_arith);
        assert((n - 1) * (B_STEP_FP as int) + B_STEP_FP == n * (B_STEP_FP as int))
            by (nonlinear_arith);
    }
}

/// Advancement is purely additive: ticking `n` times and then `m` times lands
/// on the same phases as ticking `n + m` times. Rendering takes the phases
/// immutably and cannot enter into it: a frame drawn between two ticks sees
/// exactly the phases these sums give.
pub proof fn lemma_advance_additive(a: int, b: int, n: nat, m: nat)
    ensures
        advance_n(a, b, n + m) == ({
            let mid = advance_n(a, b, n);
            advance_n(mid.0, mid.1, m)
        }),
{
    let mid = advance_n(a, b, n);
    lemma_advance_growth(a, b, n);
    lemma_advance_growth(mid.0, mid.1, m);
    lemma_advance_growth(a, b, n + m);
    assert(n * (A_STEP_FP as int) + m * (A_STEP_FP as int) == (n + m) * (A_STEP_FP as int))
        by (nonlinear_arith);
    assert(n * (B_STEP_FP as int) + m * (B_STEP_FP as int) == (n + m) * (B_STEP_FP as int))
        by (nonlinear_arith);
}

/// The rotation phase pair, fixed-point radians. Owned by the driver loop,
/// which is their sole writer; they grow without wraparound.
#[derive(Clone, Copy, PartialEq, Eq, Structural, Debug)]
pub struct Angles {
    pub a: i64,
    pub b: i64,
}

impl Angles {
    /// The phases at program start.
    pub fn start() -> (s: Angles)
        ensures
            s == (Angles { a: 0i64, b: 0i64 }),
    {
        Angles { a: 0, b: 0 }
    }

    /// Advance both phases by one tick's fixed increments.
    pub fn tick(&mut self)
        requires
            old(self).a + A_STEP_FP <= i64::MAX,
            old(self).b + B_STEP_FP <= i64::MAX,
        ensures
            (final(self).a as int, final(self).b as int) == advance_once(
                old(self).a as int,
                old(self).b as int,
            ),
    {
        self.a = self.a + A_STEP_FP;
        self.b = self.b + B_STEP_FP;
    }
}

} // verus!
