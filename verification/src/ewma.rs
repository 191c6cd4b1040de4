//! A fixed-point exponential moving average over 0/1 readiness samples.
//!
//! The estimate and the urgency both live in `[0, EWMA_SCALE]`, standing
//! for reals in `[0, 1]` in millionths. A saturated observation is the
//! sample 1, a ready observation the sample 0; each step computes
//! `alpha * sample + (1 - alpha) * estimate`, rounding down.

use vstd::prelude::*;

verus! {

/// The fixed-point unit: this many counts stand for the real value one.
pub const EWMA_SCALE: u64 = 1_000_000;

/// One exponential-moving-average step, rounding down.
pub open spec fn ewma_step_spec(ewma: int, alpha: int, saturated: bool) -> int {
    if saturated {
        (alpha * EWMA_SCALE + (EWMA_SCALE - alpha) * ewma) / (EWMA_SCALE as int)
    } else {
        ((EWMA_SCALE - alpha) * ewma) / (EWMA_SCALE as int)
    }
}

/// A step keeps the estimate within `[0, EWMA_SCALE]`.
pub proof fn lemma_ewma_step_bounds(ewma: int, alpha: int, saturated: bool)
    requires
        0 <= ewma <= EWMA_SCALE,
        0 <= alpha <= EWMA_SCALE,
    ensures
        0 <= ewma_step_spec(ewma, alpha, saturated) <= EWMA_SCALE,
{
    let s = EWMA_SCALE as int;
    assert(0 <= (s - alpha) * ewma <= (s - alpha) * s) by (nonlinear_arith)
        requires
            0 <= ewma <= s,
            0 <= s - alpha,
    ;
    assert((s - alpha) * s + alpha * s == s * s) by (nonlinear_arith);
    assert(0 <= alpha * s) by (nonlinear_arith)
        requires
            0 <= alpha,
            0 <= s,
    ;
}

/// The estimate after a whole run of samples, oldest sample first.
pub open spec fn ewma_run_spec(init: int, alpha: int, samples: Seq<bool>) -> int
    decreases samples.len(),
{
    if samples.len() == 0 {
        init
    } else {
        ewma_run_spec(ewma_step_spec(init, alpha, samples[0]), alpha, samples.drop_first())
    }
}

/// For every sequence of 0/1 samples the estimate stays within
/// `[0, EWMA_SCALE]`: the fixed-point image of the real interval `[0, 1]`.
pub proof fn lemma_ewma_run_bounds(init: int, alpha: int, samples: Seq<bool>)
    requires
        0 <= init <= EWMA_SCALE,
        0 <= alpha <= EWMA_SCALE,
    ensures
        0 <= ewma_run_spec(init, alpha, samples) <= EWMA_SCALE,
    decreases samples.len(),
{
    if samples.len() > 0 {
        lemma_ewma_step_bounds(init, alpha, samples[0]);
        lemma_ewma_run_bounds(ewma_step_spec(init, alpha, samples[0]), alpha, samples.drop_first());
    }
}

/// One exponential-moving-average step, following [`ewma_step_spec`]
/// exactly and staying within `[0, EWMA_SCALE]`.
pub fn ewma_step(ewma: u64, alpha: u64, saturated: bool) -> (r: u64)
    requires
        ewma <= EWMA_SCALE,
        alpha <= EWMA_SCALE,
    ensures
        r == ewma_step_spec(ewma as int, alpha as int, saturated),
        r <= EWMA_SCALE,
{
    proof {
        lemma_ewma_step_bounds(ewma as int, alpha as int, saturated);
    }
    if saturated {
        (((alpha as u128) * (EWMA_SCALE as u128) + ((EWMA_SCALE - alpha) as u128) * (
        ewma as u128)) / (EWMA_SCALE as u128)) as u64
    } else {
        ((((EWMA_SCALE - alpha) as u128) * (ewma as u128)) / (EWMA_SCALE as u128)) as u64
    }
}

} // verus!
