//! Adjusts a loaded block of policies: strategy split, demographic tilts,
//! benefit-base bonus, and rescaling of every premium to a target total.
//!
//! The base block carries a quarter of the premium in the Fixed strategy and
//! a 30% benefit-base bonus; the adjustment rescales relative to that.

use vstd::prelude::*;

use crate::fixed::{lemma_rmul_nonneg, lemma_u64_mul_fits, rmul, MICROS_PER_DOLLAR, RATE_ONE};
use crate::generator::{lemma_premium_sum_push, lemma_scale_step, spec_premium_sum,
    MAX_TARGET_PREMIUM};
use crate::policy::{CreditingStrategy, Gender, Policy, QualStatus};
use crate::projection::ProjectionError;

verus! {

/// Largest multiplier an adjustment parameter may carry: ten, at the
/// fixed-point scale.
pub const MAX_ADJUST_MULT: u64 = 100_000_000_000;

/// Largest per-policy amount the adjuster accepts, micro-dollars.
pub const MAX_ADJUST_AMOUNT: u64 = 1_000_000_000_000_000;

/// The Fixed-strategy share baked into the base block.
pub const BASE_FIXED_PCT: u64 = 2_500_000_000;

/// The benefit-base bonus baked into the base block.
pub const BASE_BB_BONUS: u64 = 3_000_000_000;

/// Parameters for adjusting the inforce.
#[derive(Clone, Copy, Debug)]
pub struct AdjustmentParams {
    /// Target share of premium in the Fixed strategy.
    pub fixed_pct: u64,
    pub male_mult: u64,
    pub female_mult: u64,
    pub qual_mult: u64,
    pub nonqual_mult: u64,
    /// Target benefit-base bonus; the base block carries 30%.
    pub bb_bonus: u64,
    /// Target total premium, micro-dollars.
    pub target_premium: u64,
}

impl AdjustmentParams {
    pub open spec fn wf(self) -> bool {
        &&& self.fixed_pct <= RATE_ONE
        &&& self.male_mult <= MAX_ADJUST_MULT
        &&& self.female_mult <= MAX_ADJUST_MULT
        &&& self.qual_mult <= MAX_ADJUST_MULT
        &&& self.nonqual_mult <= MAX_ADJUST_MULT
        &&& self.bb_bonus <= RATE_ONE
        &&& self.target_premium <= MAX_TARGET_PREMIUM
    }

    /// The defaults leave the base block unchanged.
    pub fn default() -> (r: Self)
        ensures
            r.fixed_pct == BASE_FIXED_PCT,
            r.male_mult == RATE_ONE,
            r.female_mult == RATE_ONE,
            r.qual_mult == RATE_ONE,
            r.nonqual_mult == RATE_ONE,
            r.bb_bonus == BASE_BB_BONUS,
            r.target_premium == 100_000_000_000_000u64,
            r.wf(),
    {
        Self {
            fixed_pct: BASE_FIXED_PCT,
            male_mult: RATE_ONE,
            female_mult: RATE_ONE,
            qual_mult: RATE_ONE,
            nonqual_mult: RATE_ONE,
            bb_bonus: BASE_BB_BONUS,
            target_premium: 100_000_000_000_000,
        }
    }
}

/// Whether the parameters are the defaults, to within one tenth of a
/// nanounit on each rate and one dollar on the target.
pub open spec fn spec_is_default_params(p: AdjustmentParams) -> bool {
    &&& -10 < p.fixed_pct - BASE_FIXED_PCT < 10
    &&& -10 < p.male_mult - RATE_ONE < 10
    &&& -10 < p.female_mult - RATE_ONE < 10
    &&& -10 < p.qual_mult - RATE_ONE < 10
    &&& -10 < p.nonqual_mult - RATE_ONE < 10
    &&& -10 < p.bb_bonus - BASE_BB_BONUS < 10
    &&& -(MICROS_PER_DOLLAR as int) < p.target_premium - 100_000_000_000_000i64
        < MICROS_PER_DOLLAR
}

/// Checks whether the parameters leave the base block unchanged.
pub fn is_default_params(params: &AdjustmentParams) -> (r: bool)
    ensures
        r == spec_is_default_params(*params),
{
    let near = |a: u64, b: u64, tol: u64| -> (rr: bool)
        ensures
            rr == (-(tol as int) < a - b < tol as int),
        { if a >= b { a - b < tol } else { b - a < tol } };
    near(params.fixed_pct, BASE_FIXED_PCT, 10) && near(params.male_mult, RATE_ONE, 10) && near(
        params.female_mult,
        RATE_ONE,
        10,
    ) && near(params.qual_mult, RATE_ONE, 10) && near(params.nonqual_mult, RATE_ONE, 10) && near(
        params.bb_bonus,
        BASE_BB_BONUS,
        10,
    ) && near(params.target_premium, 100_000_000_000_000, MICROS_PER_DOLLAR)
}

/// The strategy rescaling factor of a policy: its strategy's target share
/// over the base share.
pub open spec fn spec_strategy_scale(strategy: CreditingStrategy, fixed_pct: int) -> int {
    match strategy {
        CreditingStrategy::Fixed => fixed_pct * RATE_ONE / (BASE_FIXED_PCT as int),
        CreditingStrategy::Indexed => (RATE_ONE - fixed_pct) * RATE_ONE / (RATE_ONE
            - BASE_FIXED_PCT),
    }
}

/// The combined rescaling weight of one policy under the parameters.
pub open spec fn spec_policy_weight(pol: Policy, p: AdjustmentParams) -> int {
    let g = match pol.gender {
        Gender::Male => p.male_mult,
        Gender::Female => p.female_mult,
    };
    let q = match pol.qual_status {
        QualStatus::Q => p.qual_mult,
        QualStatus::N => p.nonqual_mult,
    };
    rmul(rmul(spec_strategy_scale(pol.crediting_strategy, p.fixed_pct as int), g as int), q as int)
}

/// The weighted premium of one policy.
pub open spec fn spec_weighted_premium(pol: Policy, p: AdjustmentParams) -> int {
    rmul(pol.initial_premium as int, spec_policy_weight(pol, p))
}

/// Sum of weighted premiums from index `i`.
pub open spec fn spec_weighted_suffix(ps: Seq<Policy>, p: AdjustmentParams, i: int) -> int
    decreases ps.len() - i,
{
    if i < 0 || i >= ps.len() {
        0
    } else {
        spec_weighted_premium(ps[i], p) + spec_weighted_suffix(ps, p, i + 1)
    }
}

/// The policy weight is nonnegative and bounded.
pub proof fn lemma_policy_weight_bounds(pol: Policy, p: AdjustmentParams)
    requires
        p.wf(),
    ensures
        0 <= spec_policy_weight(pol, p) <= 4_000_000_000_000int,
{
    let ss = spec_strategy_scale(pol.crediting_strategy, p.fixed_pct as int);
    assert(0 <= ss <= 4 * RATE_ONE) by (nonlinear_arith)
        requires
            0 <= p.fixed_pct <= RATE_ONE,
            ss == spec_strategy_scale(pol.crediting_strategy, p.fixed_pct as int),
    ;
    let g = match pol.gender {
        Gender::Male => p.male_mult,
        Gender::Female => p.female_mult,
    };
    let q = match pol.qual_status {
        QualStatus::Q => p.qual_mult,
        QualStatus::N => p.nonqual_mult,
    };
    lemma_rmul_nonneg(ss, g as int);
    lemma_rmul_nonneg(rmul(ss, g as int), q as int);
    assert(ss * g <= (4 * RATE_ONE as int) * (MAX_ADJUST_MULT as int)) by (nonlinear_arith)
        requires
            0 <= ss <= 4 * RATE_ONE as int,
            0 <= g as int <= MAX_ADJUST_MULT as int,
    ;
    assert((4 * RATE_ONE as int) * (MAX_ADJUST_MULT as int) == 400_000_000_000int * (
    RATE_ONE as int)) by (nonlinear_arith);
    vstd::arithmetic::div_mod::lemma_div_is_ordered(
        ss * g,
        400_000_000_000int * (RATE_ONE as int),
        RATE_ONE as int,
    );
    vstd::arithmetic::div_mod::lemma_div_by_multiple(400_000_000_000int, RATE_ONE as int);
    let m1 = rmul(ss, g as int);
    assert(m1 * q <= 400_000_000_000int * (MAX_ADJUST_MULT as int)) by (nonlinear_arith)
        requires
            0 <= m1 <= 400_000_000_000int,
            0 <= q as int <= MAX_ADJUST_MULT as int,
    ;
    assert(400_000_000_000int * (MAX_ADJUST_MULT as int) == 4_000_000_000_000int * (
    RATE_ONE as int)) by (nonlinear_arith);
    vstd::arithmetic::div_mod::lemma_div_is_ordered(
        m1 * q,
        4_000_000_000_000int * (RATE_ONE as int),
        RATE_ONE as int,
    );
    vstd::arithmetic::div_mod::lemma_div_by_multiple(4_000_000_000_000int, RATE_ONE as int);
}

/// The weighted premium of a well-bounded policy is nonnegative and bounded.
pub proof fn lemma_weighted_premium_bounds(pol: Policy, p: AdjustmentParams)
    requires
        p.wf(),
        pol.initial_premium <= MAX_ADJUST_AMOUNT,
    ensures
        0 <= spec_weighted_premium(pol, p) <= 400_000_000_000_000_000int,
{
    lemma_policy_weight_bounds(pol, p);
    lemma_rmul_nonneg(pol.initial_premium as int, spec_policy_weight(pol, p));
    assert((pol.initial_premium as int) * spec_policy_weight(pol, p) <= (MAX_ADJUST_AMOUNT as int)
        * 4_000_000_000_000int) by (nonlinear_arith)
        requires
            0 <= pol.initial_premium as int <= MAX_ADJUST_AMOUNT as int,
            0 <= spec_policy_weight(pol, p) <= 4_000_000_000_000int,
    ;
    vstd::arithmetic::div_mod::lemma_div_is_ordered(
        (pol.initial_premium as int) * spec_policy_weight(pol, p),
        (MAX_ADJUST_AMOUNT as int) * 4_000_000_000_000int,
        RATE_ONE as int,
    );
}

/// A weighted suffix is nonnegative.
pub proof fn lemma_weighted_suffix_nonneg(ps: Seq<Policy>, p: AdjustmentParams, i: int)
    requires
        p.wf(),
        forall|k: int| 0 <= k < ps.len() ==> (#[trigger] ps[k]).initial_premium
            <= MAX_ADJUST_AMOUNT,
    ensures
        0 <= spec_weighted_suffix(ps, p, i),
    decreases ps.len() - i,
{
    if i < 0 || i >= ps.len() {
    } else {
        lemma_weighted_premium_bounds(ps[i], p);
        lemma_weighted_suffix_nonneg(ps, p, i + 1);
    }
}

/// Under the default split and unit multipliers, every policy's rescaling
/// weight is exactly one.
pub proof fn lemma_policy_weight_at_defaults(pol: Policy, p: AdjustmentParams)
    requires
        p.fixed_pct == BASE_FIXED_PCT,
        p.male_mult == RATE_ONE,
        p.female_mult == RATE_ONE,
        p.qual_mult == RATE_ONE,
        p.nonqual_mult == RATE_ONE,
    ensures
        spec_policy_weight(pol, p) == RATE_ONE,
{
    let ss = spec_strategy_scale(pol.crediting_strategy, p.fixed_pct as int);
    assert((BASE_FIXED_PCT as int) * (RATE_ONE as int) / (BASE_FIXED_PCT as int)
        == RATE_ONE as int) by (nonlinear_arith);
    assert((RATE_ONE - BASE_FIXED_PCT as int) * (RATE_ONE as int) / (RATE_ONE
        - BASE_FIXED_PCT as int) == RATE_ONE as int) by (nonlinear_arith);
    assert(ss == RATE_ONE as int);
    assert((RATE_ONE as int) * (RATE_ONE as int) / (RATE_ONE as int) == RATE_ONE as int)
        by (nonlinear_arith);
    assert(rmul(RATE_ONE as int, RATE_ONE as int) == RATE_ONE as int);
}

/// The weighted total dominates any single policy's weighted premium.
pub proof fn lemma_weighted_suffix_lower(ps: Seq<Policy>, p: AdjustmentParams, i: int)
    requires
        p.wf(),
        forall|k: int| 0 <= k < ps.len() ==> (#[trigger] ps[k]).initial_premium
            <= MAX_ADJUST_AMOUNT,
        0 <= i < ps.len(),
    ensures
        spec_weighted_suffix(ps, p, 0) >= spec_weighted_premium(ps[i], p),
{
    lemma_weighted_suffix_lower_from(ps, p, 0, i);
}

proof fn lemma_weighted_suffix_lower_from(ps: Seq<Policy>, p: AdjustmentParams, j: int, i: int)
    requires
        p.wf(),
        forall|k: int| 0 <= k < ps.len() ==> (#[trigger] ps[k]).initial_premium
            <= MAX_ADJUST_AMOUNT,
        0 <= j <= i < ps.len(),
    ensures
        spec_weighted_suffix(ps, p, j) >= spec_weighted_premium(ps[i], p),
    decreases i - j,
{
    lemma_weighted_premium_bounds(ps[j], p);
    if j == i {
        lemma_weighted_suffix_nonneg(ps, p, j + 1);
    } else {
        lemma_weighted_suffix_lower_from(ps, p, j + 1, i);
    }
}

/// A block holding any policy with a positive premium carries positive
/// weighted total under the default split and unit multipliers.
pub proof fn lemma_adjusted_weight_positive(ps: Seq<Policy>, p: AdjustmentParams, i: int)
    requires
        p.wf(),
        p.fixed_pct == BASE_FIXED_PCT,
        p.male_mult == RATE_ONE,
        p.female_mult == RATE_ONE,
        p.qual_mult == RATE_ONE,
        p.nonqual_mult == RATE_ONE,
        forall|k: int| 0 <= k < ps.len() ==> (#[trigger] ps[k]).initial_premium
            <= MAX_ADJUST_AMOUNT,
        0 <= i < ps.len(),
        ps[i].initial_premium >= 1,
    ensures
        spec_weighted_suffix(ps, p, 0) >= 1,
{
    lemma_policy_weight_at_defaults(ps[i], p);
    crate::fixed::lemma_rmul_one(ps[i].initial_premium as int);
    lemma_weighted_suffix_lower(ps, p, i);
}

/// Computes the rescaling weight of one policy.
fn policy_weight(pol: &Policy, p: &AdjustmentParams) -> (r: u64)
    requires
        p.wf(),
    ensures
        r == spec_policy_weight(*pol, *p),
        r <= 4_000_000_000_000u64,
{
    proof {
        lemma_policy_weight_bounds(*pol, *p);
        let ssi = spec_strategy_scale(pol.crediting_strategy, p.fixed_pct as int);
        assert(0 <= ssi <= 4 * RATE_ONE) by (nonlinear_arith)
            requires
                0 <= p.fixed_pct <= RATE_ONE,
                ssi == spec_strategy_scale(pol.crediting_strategy, p.fixed_pct as int),
        ;
    }
    let ss: u64 = match pol.crediting_strategy {
        CreditingStrategy::Fixed => ((p.fixed_pct as u128) * (RATE_ONE as u128) / (
        BASE_FIXED_PCT as u128)) as u64,
        CreditingStrategy::Indexed => (((RATE_ONE - p.fixed_pct) as u128) * (RATE_ONE as u128) / ((
        RATE_ONE - BASE_FIXED_PCT) as u128)) as u64,
    };
    let g: u64 = match pol.gender {
        Gender::Male => p.male_mult,
        Gender::Female => p.female_mult,
    };
    let q: u64 = match pol.qual_status {
        QualStatus::Q => p.qual_mult,
        QualStatus::N => p.nonqual_mult,
    };
    proof {
        lemma_u64_mul_fits(ss as int, g as int);
        assert((ss as int) * (g as int) <= (4 * RATE_ONE as int) * (MAX_ADJUST_MULT as int))
            by (nonlinear_arith)
            requires
                0 <= ss as int <= 4 * RATE_ONE as int,
                0 <= g as int <= MAX_ADJUST_MULT as int,
        ;
        assert((4 * RATE_ONE as int) * (MAX_ADJUST_MULT as int) == 400_000_000_000int * (
        RATE_ONE as int)) by (nonlinear_arith);
        vstd::arithmetic::div_mod::lemma_div_is_ordered(
            (ss as int) * (g as int),
            400_000_000_000int * (RATE_ONE as int),
            RATE_ONE as int,
        );
        vstd::arithmetic::div_mod::lemma_div_by_multiple(400_000_000_000int, RATE_ONE as int);
        lemma_rmul_nonneg(ss as int, g as int);
    }
    let m1: u64 = ((ss as u128) * (g as u128) / (RATE_ONE as u128)) as u64;
    proof {
        lemma_u64_mul_fits(m1 as int, q as int);
        assert((m1 as int) * (q as int) <= 400_000_000_000int * (MAX_ADJUST_MULT as int))
            by (nonlinear_arith)
            requires
                0 <= m1 as int <= 400_000_000_000int,
                0 <= q as int <= MAX_ADJUST_MULT as int,
        ;
        assert(400_000_000_000int * (MAX_ADJUST_MULT as int) == 4_000_000_000_000int * (
        RATE_ONE as int)) by (nonlinear_arith);
        vstd::arithmetic::div_mod::lemma_div_is_ordered(
            (m1 as int) * (q as int),
            4_000_000_000_000int * (RATE_ONE as int),
            RATE_ONE as int,
        );
        vstd::arithmetic::div_mod::lemma_div_by_multiple(4_000_000_000_000int, RATE_ONE as int);
        lemma_rmul_nonneg(m1 as int, q as int);
    }
    ((m1 as u128) * (q as u128) / (RATE_ONE as u128)) as u64
}

/// The weighted premium of one policy.
fn weighted_premium(pol: &Policy, p: &AdjustmentParams) -> (r: u64)
    requires
        p.wf(),
        pol.initial_premium <= MAX_ADJUST_AMOUNT,
    ensures
        r == spec_weighted_premium(*pol, *p),
        r <= 400_000_000_000_000_000u64,
{
    proof {
        lemma_weighted_premium_bounds(*pol, *p);
    }
    let w = policy_weight(pol, p);
    proof {
        lemma_u64_mul_fits(pol.initial_premium as int, w as int);
    }
    ((pol.initial_premium as u128) * (w as u128) / (RATE_ONE as u128)) as u64
}

/// Rescales one amount through the realized premium ratio, flagging a value
/// that leaves the range.
fn scale_by_ratio(amount: u64, new_premium: u64, old_premium: u64) -> (r: Option<u64>)
    ensures
        old_premium > 0 ==> match r {
            Some(v) => v == amount as int * new_premium as int / old_premium as int,
            None => amount as int * new_premium as int / old_premium as int > u64::MAX,
        },
        old_premium == 0 ==> r == Some(amount),
{
    if old_premium == 0 {
        return Some(amount);
    }
    proof {
        lemma_u64_mul_fits(amount as int, new_premium as int);
    }
    let v: u128 = (amount as u128) * (new_premium as u128) / (old_premium as u128);
    if v <= u64::MAX as u128 {
        Some(v as u64)
    } else {
        None
    }
}

/// Rescales a block of policies: premiums are reweighted by strategy and
/// demographics and rescaled so that the block total provably lands within
/// one micro-dollar per policy of the target; fractional lives and benefit
/// bases follow each policy's own premium ratio, and the benefit base is
/// further rescaled from the base bonus to the requested one. A value that
/// leaves the fixed-point range reports a numeric error.
pub fn adjust_policies(policies: Vec<Policy>, params: &AdjustmentParams) -> (r: Result<
    Vec<Policy>,
    ProjectionError,
>)
    requires
        params.wf(),
        forall|i: int| 0 <= i < policies@.len() ==> (#[trigger] policies@[i]).initial_premium
            <= MAX_ADJUST_AMOUNT,
        policies@.len() <= 1_000_000,
    ensures
        match r {
            Ok(out) => {
                &&& out@.len() == policies@.len()
                &&& spec_weighted_suffix(policies@, *params, 0) > 0 ==> {
                    &&& spec_premium_sum(out@, 0) <= params.target_premium
                    &&& params.target_premium <= spec_premium_sum(out@, 0) + out@.len()
                }
                &&& forall|i: int|
                    0 <= i < out@.len() ==> spec_adjusted_ok(
                        policies@[i],
                        #[trigger] out@[i],
                        *params,
                        spec_weighted_suffix(policies@, *params, 0),
                    )
            },
            Err(e) => {
                &&& e is Numeric
                &&& exists|i: int|
                    0 <= i < policies@.len() && !spec_adjust_fits(
                        #[trigger] policies@[i],
                        *params,
                        spec_weighted_suffix(policies@, *params, 0),
                    )
            },
        },
{
    // First pass: the total weighted premium.
    let mut total: u128 = 0;
    let mut i: usize = 0;
    while i < policies.len()
        invariant
            params.wf(),
            forall|k: int| 0 <= k < policies@.len() ==> (#[trigger] policies@[k]).initial_premium
                <= MAX_ADJUST_AMOUNT,
            policies@.len() <= 1_000_000,
            0 <= i <= policies@.len(),
            total as int + spec_weighted_suffix(policies@, *params, i as int)
                == spec_weighted_suffix(policies@, *params, 0),
            total <= (i as int) * 400_000_000_000_000_000int,
        decreases policies@.len() - i,
    {
        let w = weighted_premium(&policies[i], params);
        total = total + w as u128;
        i += 1;
    }
    proof {
        assert(spec_weighted_suffix(policies@, *params, policies@.len() as int) == 0);
    }

    // Second pass: rebuild each policy at its rescaled size.
    let mut out: Vec<Policy> = Vec::new();
    let ghost mut wsum: int = 0;
    let mut i: usize = 0;
    while i < policies.len()
        invariant
            params.wf(),
            forall|k: int| 0 <= k < policies@.len() ==> (#[trigger] policies@[k]).initial_premium
                <= MAX_ADJUST_AMOUNT,
            policies@.len() <= 1_000_000,
            0 <= i <= policies@.len(),
            total == spec_weighted_suffix(policies@, *params, 0),
            wsum + spec_weighted_suffix(policies@, *params, i as int) == spec_weighted_suffix(
                policies@,
                *params,
                0,
            ),
            0 <= wsum,
            out@.len() == i,
            total > 0 ==> total * spec_premium_sum(out@, 0) <= wsum * params.target_premium,
            total > 0 ==> wsum * params.target_premium <= total * (spec_premium_sum(out@, 0)
                + out@.len()),
            forall|k: int|
                0 <= k < out@.len() ==> spec_adjusted_ok(
                    policies@[k],
                    #[trigger] out@[k],
                    *params,
                    total as int,
                ),
        decreases policies@.len() - i,
    {
        let pol = &policies[i];
        proof {
            assert(spec_weighted_suffix(policies@, *params, i as int) == spec_weighted_premium(
                policies@[i as int],
                *params,
            ) + spec_weighted_suffix(policies@, *params, i as int + 1));
            lemma_weighted_premium_bounds(policies@[i as int], *params);
            lemma_weighted_suffix_nonneg(policies@, *params, i as int + 1);
        }
        let w = weighted_premium(pol, params);
        let new_premium: u64 = if total > 0 {
            proof {
                lemma_u64_mul_fits(w as int, params.target_premium as int);
                assert((w as int) * (params.target_premium as int) <= (total as int) * (
                params.target_premium as int)) by (nonlinear_arith)
                    requires
                        0 <= w as int <= total as int,
                        0 <= params.target_premium as int,
                ;
                vstd::arithmetic::div_mod::lemma_div_is_ordered(
                    (w as int) * (params.target_premium as int),
                    (total as int) * (params.target_premium as int),
                    total as int,
                );
                vstd::arithmetic::div_mod::lemma_div_by_multiple(
                    params.target_premium as int,
                    total as int,
                );
                assert((total as int) * (params.target_premium as int) == (
                params.target_premium as int) * (total as int)) by (nonlinear_arith);
            }
            ((w as u128) * (params.target_premium as u128) / total) as u64
        } else {
            0
        };
        let new_pols: u64 = match scale_by_ratio(pol.initial_pols, new_premium, pol.initial_premium) {
            Some(v) => v,
            None => {
                proof {
                    assert(!spec_adjust_fits(policies@[i as int], *params, total as int));
                }
                return Err(ProjectionError::Numeric);
            },
        };
        let bb_scaled: u64 = match scale_by_ratio(
            pol.initial_benefit_base,
            new_premium,
            pol.initial_premium,
        ) {
            Some(v) => v,
            None => {
                proof {
                    assert(!spec_adjust_fits(policies@[i as int], *params, total as int));
                }
                return Err(ProjectionError::Numeric);
            },
        };
        // Rescale the benefit base from the base bonus to the requested one.
        proof {
            lemma_u64_mul_fits(bb_scaled as int, (RATE_ONE + params.bb_bonus) as int);
        }
        let bb_num: u128 = (bb_scaled as u128) * ((RATE_ONE + params.bb_bonus) as u128) / ((
        RATE_ONE + BASE_BB_BONUS) as u128);
        if bb_num > u64::MAX as u128 {
            proof {
                assert(!spec_adjust_fits(policies@[i as int], *params, total as int));
            }
            return Err(ProjectionError::Numeric);
        }
        let new_bb: u64 = bb_num as u64;
        let weight = policy_weight(pol, params);
        proof {
            lemma_u64_mul_fits(pol.percentage as int, weight as int);
        }
        let pct_num: u128 = (pol.percentage as u128) * (weight as u128) / (RATE_ONE as u128);
        if pct_num > u64::MAX as u128 {
            proof {
                assert(!spec_adjust_fits(policies@[i as int], *params, total as int));
            }
            return Err(ProjectionError::Numeric);
        }
        let new_bonus: u64 = if is_default_params_bonus(params) {
            pol.bonus
        } else {
            params.bb_bonus
        };
        let adjusted = Policy {
            policy_id: pol.policy_id,
            qual_status: pol.qual_status,
            issue_age: pol.issue_age,
            gender: pol.gender,
            initial_benefit_base: new_bb,
            initial_pols: new_pols,
            initial_premium: new_premium,
            benefit_base_bucket: pol.benefit_base_bucket,
            percentage: pct_num as u64,
            crediting_strategy: pol.crediting_strategy,
            sc_period: pol.sc_period,
            val_rate: pol.val_rate,
            mgir: pol.mgir,
            bonus: new_bonus,
            rollup_type: pol.rollup_type,
            duration_months: pol.duration_months,
            income_activated: pol.income_activated,
            glwb_start_year: pol.glwb_start_year,
            current_av: pol.current_av,
            current_benefit_base: pol.current_benefit_base,
        };
        proof {
            if total > 0 {
                lemma_scale_step(
                    total as int,
                    params.target_premium as int,
                    spec_premium_sum(out@, 0),
                    wsum,
                    out@.len() as int,
                    w as int,
                    new_premium as int,
                );
            }
        }
        let ghost old_out = out@;
        out.push(adjusted);
        proof {
            lemma_premium_sum_push(old_out, adjusted, 0);
            wsum = wsum + w as int;
        }
        i += 1;
    }
    proof {
        if total > 0 {
            let psum = spec_premium_sum(out@, 0);
            let cnt = out@.len() as int;
            let tp = params.target_premium as int;
            assert(psum <= tp) by (nonlinear_arith)
                requires
                    total as int > 0,
                    (total as int) * psum <= (total as int) * tp,
            ;
            assert(tp <= psum + cnt) by (nonlinear_arith)
                requires
                    total as int > 0,
                    (total as int) * tp <= (total as int) * (psum + cnt),
            ;
        }
    }
    Ok(out)
}

/// Whether the requested benefit-base bonus is the base one, to within one
/// tenth of a nanounit.
fn is_default_params_bonus(params: &AdjustmentParams) -> (r: bool)
    ensures
        r == (-10 < params.bb_bonus - BASE_BB_BONUS < 10),
{
    if params.bb_bonus >= BASE_BB_BONUS {
        params.bb_bonus - BASE_BB_BONUS < 10
    } else {
        BASE_BB_BONUS - params.bb_bonus < 10
    }
}

/// The rescaled premium of one policy: its weighted share of the target.
pub open spec fn spec_new_premium(pol: Policy, p: AdjustmentParams, total: int) -> int {
    if total > 0 {
        spec_weighted_premium(pol, p) * p.target_premium / total
    } else {
        0
    }
}

/// The rescaled benefit base of one policy: the base follows the premium
/// ratio, then moves from the base bonus to the requested one.
pub open spec fn spec_new_benefit_base(pol: Policy, p: AdjustmentParams, total: int) -> int {
    let np = spec_new_premium(pol, p, total);
    let bb1 = if pol.initial_premium > 0 {
        pol.initial_benefit_base * np / pol.initial_premium as int
    } else {
        pol.initial_benefit_base as int
    };
    bb1 * (RATE_ONE + p.bb_bonus) / (RATE_ONE + BASE_BB_BONUS)
}

/// The rescaled lives of one policy: they follow the premium ratio.
pub open spec fn spec_new_pols(pol: Policy, p: AdjustmentParams, total: int) -> int {
    let np = spec_new_premium(pol, p, total);
    if pol.initial_premium > 0 {
        pol.initial_pols * np / pol.initial_premium as int
    } else {
        pol.initial_pols as int
    }
}

/// Whether every rescaled value of one policy stays in the fixed-point
/// range.
pub open spec fn spec_adjust_fits(pol: Policy, p: AdjustmentParams, total: int) -> bool {
    let np = spec_new_premium(pol, p, total);
    let bb1 = if pol.initial_premium > 0 {
        pol.initial_benefit_base * np / pol.initial_premium as int
    } else {
        pol.initial_benefit_base as int
    };
    &&& spec_new_pols(pol, p, total) <= u64::MAX
    &&& bb1 <= u64::MAX
    &&& spec_new_benefit_base(pol, p, total) <= u64::MAX
    &&& rmul(pol.percentage as int, spec_policy_weight(pol, p)) <= u64::MAX
}

/// How an adjusted policy relates to its original: identity and product
/// fields are untouched, the premium is the policy's weighted share of the
/// target, lives and benefit base follow the premium ratio, and the benefit
/// base moves from the base bonus to the requested one.
pub open spec fn spec_adjusted_ok(old: Policy, new: Policy, p: AdjustmentParams, total: int) -> bool {
    &&& new.policy_id == old.policy_id
    &&& new.qual_status == old.qual_status
    &&& new.issue_age == old.issue_age
    &&& new.gender == old.gender
    &&& new.benefit_base_bucket == old.benefit_base_bucket
    &&& new.crediting_strategy == old.crediting_strategy
    &&& new.sc_period == old.sc_period
    &&& new.glwb_start_year == old.glwb_start_year
    &&& new.duration_months == old.duration_months
    &&& new.income_activated == old.income_activated
    &&& new.val_rate == old.val_rate
    &&& new.mgir == old.mgir
    &&& new.rollup_type == old.rollup_type
    &&& new.current_av == old.current_av
    &&& new.current_benefit_base == old.current_benefit_base
    &&& new.initial_premium <= p.target_premium
    &&& new.initial_premium == spec_new_premium(old, p, total)
    &&& new.initial_pols == spec_new_pols(old, p, total)
    &&& new.initial_benefit_base == spec_new_benefit_base(old, p, total)
    &&& new.percentage == rmul(old.percentage as int, spec_policy_weight(old, p))
    &&& new.bonus == (if -10 < p.bb_bonus - BASE_BB_BONUS < 10 {
        old.bonus
    } else {
        p.bb_bonus
    })
}

} // verus!