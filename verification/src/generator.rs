//! Dynamic policy generator for the pricing inforce.
//!
//! Policies are generated from demographic cells and rider-activation
//! utilization rates, scaled so that the premiums of the whole block add up
//! to the target. Because every premium is rounded down at most once, the
//! block total provably lands within one unit per policy of the target.

use vstd::prelude::*;

use crate::fixed::{lemma_rmul_nonneg, lemma_u64_mul_fits, rate_apply, rmul, MICROS_PER_DOLLAR,
    RATE_ONE};
use crate::policy::{BenefitBaseBucket, CreditingStrategy, Gender, Policy, QualStatus, RollupType};

verus! {

/// Largest multiplier a generation parameter may carry: one thousand, at
/// the fixed-point scale.
pub const MAX_PARAM_MULT: u64 = 10_000_000_000_000;

/// Largest target premium, in micro-dollars.
pub const MAX_TARGET_PREMIUM: u64 = 100_000_000_000_000_000;

/// Parameters for generating the inforce.
#[derive(Clone, Copy, Debug)]
pub struct InforceParams {
    /// Share of premium allocated to the Fixed strategy.
    pub fixed_pct: u64,
    /// Multiplier for male policies.
    pub male_mult: u64,
    /// Multiplier for female policies.
    pub female_mult: u64,
    /// Multiplier for qualified policies.
    pub qual_mult: u64,
    /// Multiplier for non-qualified policies.
    pub nonqual_mult: u64,
    /// Benefit base bonus on top of the premium-to-benefit-base ratio.
    pub bonus: u64,
    /// Target total premium, micro-dollars.
    pub target_premium: u64,
}

impl InforceParams {
    pub open spec fn wf(self) -> bool {
        &&& self.fixed_pct <= RATE_ONE
        &&& self.male_mult <= MAX_PARAM_MULT
        &&& self.female_mult <= MAX_PARAM_MULT
        &&& self.qual_mult <= MAX_PARAM_MULT
        &&& self.nonqual_mult <= MAX_PARAM_MULT
        &&& self.bonus <= RATE_ONE
        &&& self.target_premium <= MAX_TARGET_PREMIUM
    }

    /// The default parameters: a quarter Fixed, no demographic tilts, no
    /// extra bonus, and a $100M target.
    pub fn default() -> (r: Self)
        ensures
            r.fixed_pct == 2_500_000_000u64,
            r.male_mult == RATE_ONE,
            r.female_mult == RATE_ONE,
            r.qual_mult == RATE_ONE,
            r.nonqual_mult == RATE_ONE,
            r.bonus == 0,
            r.target_premium == 100_000_000_000_000u64,
            r.wf(),
    {
        Self {
            fixed_pct: 2_500_000_000,
            male_mult: RATE_ONE,
            female_mult: RATE_ONE,
            qual_mult: RATE_ONE,
            nonqual_mult: RATE_ONE,
            bonus: 0,
            target_premium: 100_000_000_000_000,
        }
    }
}

/// One aggregated demographic cell of the base inforce.
#[derive(Clone, Copy, Debug)]
pub struct DemographicCell {
    pub qual_status: QualStatus,
    pub issue_age: u8,
    pub gender: Gender,
    pub benefit_base_bucket: BenefitBaseBucket,
    /// Relative premium weight of the cell.
    pub base_weight: u64,
    /// Ratio of initial benefit base to initial premium.
    pub bb_to_premium_ratio: u64,
    /// Fractional lives per dollar of premium.
    pub pols_per_premium: u64,
}

/// Largest lives-per-premium-dollar rate a cell may carry.
pub const MAX_POLS_PER_PREMIUM: u64 = 10_000_000;

pub open spec fn spec_cell_wf(c: DemographicCell) -> bool {
    &&& c.base_weight <= RATE_ONE
    &&& c.bb_to_premium_ratio <= 2 * RATE_ONE
    &&& c.pols_per_premium <= MAX_POLS_PER_PREMIUM
}

/// Incremental rider utilization for one activation year.
#[derive(Clone, Copy, Debug)]
pub struct UtilizationRate {
    pub glwb_start_year: u32,
    pub percentage: u64,
}

pub open spec fn spec_util_wf(u: UtilizationRate) -> bool {
    u.percentage <= RATE_ONE
}

/// The combined demographic multiplier of a cell under the parameters.
pub open spec fn spec_cell_mult(c: DemographicCell, p: InforceParams) -> int {
    let g = match c.gender {
        Gender::Male => p.male_mult,
        Gender::Female => p.female_mult,
    };
    let q = match c.qual_status {
        QualStatus::Q => p.qual_mult,
        QualStatus::N => p.nonqual_mult,
    };
    rmul(g as int, q as int)
}

/// The weight of one (cell, utilization, strategy) combination: the cell's
/// weight, scaled by the utilization share, the strategy share and the
/// demographic multiplier.
pub open spec fn spec_pair_weight(bw: int, util: int, strat: int, cm: int) -> int {
    rmul(rmul(rmul(bw, util), strat), cm)
}

/// The weight of both strategies of one (cell, utilization) pair.
pub open spec fn spec_pair_weight_both(c: DemographicCell, u: UtilizationRate, p: InforceParams) -> int {
    spec_pair_weight(
        c.base_weight as int,
        u.percentage as int,
        p.fixed_pct as int,
        spec_cell_mult(c, p),
    ) + spec_pair_weight(
        c.base_weight as int,
        u.percentage as int,
        RATE_ONE - p.fixed_pct,
        spec_cell_mult(c, p),
    )
}

/// Sum of pair weights of one cell over the utilization rates from index `k`.
pub open spec fn spec_util_suffix_weight(
    c: DemographicCell,
    utils: Seq<UtilizationRate>,
    p: InforceParams,
    k: int,
) -> int
    decreases utils.len() - k,
{
    if k < 0 || k >= utils.len() {
        0
    } else {
        spec_pair_weight_both(c, utils[k], p) + spec_util_suffix_weight(c, utils, p, k + 1)
    }
}

/// Sum of pair weights over the cells from index `j`, all utilizations.
pub open spec fn spec_cell_suffix_weight(
    cells: Seq<DemographicCell>,
    utils: Seq<UtilizationRate>,
    p: InforceParams,
    j: int,
) -> int
    decreases cells.len() - j,
{
    if j < 0 || j >= cells.len() {
        0
    } else {
        spec_util_suffix_weight(cells[j], utils, p, 0) + spec_cell_suffix_weight(
            cells,
            utils,
            p,
            j + 1,
        )
    }
}

/// The total weight of the whole template under the parameters.
pub open spec fn spec_total_weight(
    cells: Seq<DemographicCell>,
    utils: Seq<UtilizationRate>,
    p: InforceParams,
) -> int {
    spec_cell_suffix_weight(cells, utils, p, 0)
}

/// Pair weights are nonnegative.
pub proof fn lemma_pair_weight_nonneg(bw: int, util: int, strat: int, cm: int)
    requires
        0 <= bw,
        0 <= util,
        0 <= strat,
        0 <= cm,
    ensures
        0 <= spec_pair_weight(bw, util, strat, cm),
{
    lemma_rmul_nonneg(bw, util);
    lemma_rmul_nonneg(rmul(bw, util), strat);
    lemma_rmul_nonneg(rmul(rmul(bw, util), strat), cm);
}

/// A pair weight never exceeds the demographic multiplier, when the three
/// rate factors are genuine rates.
pub proof fn lemma_pair_weight_le_cm(bw: int, util: int, strat: int, cm: int)
    requires
        0 <= bw <= RATE_ONE,
        0 <= util <= RATE_ONE,
        0 <= strat <= RATE_ONE,
        0 <= cm,
    ensures
        0 <= spec_pair_weight(bw, util, strat, cm) <= cm,
{
    crate::fixed::lemma_rmul_le(bw, util);
    crate::fixed::lemma_rmul_le(rmul(bw, util), strat);
    let x = rmul(rmul(bw, util), strat);
    lemma_rmul_nonneg(x, cm);
    assert(x * cm <= RATE_ONE * cm) by (nonlinear_arith)
        requires
            0 <= x <= RATE_ONE,
            0 <= cm,
    ;
    vstd::arithmetic::div_mod::lemma_div_is_ordered(x * cm, RATE_ONE * cm, RATE_ONE as int);
    vstd::arithmetic::div_mod::lemma_div_by_multiple(cm, RATE_ONE as int);
    assert(RATE_ONE * cm == cm * RATE_ONE) by (nonlinear_arith);
}

/// A utilization suffix weight is nonnegative and bounded by the number of
/// pairs times twice the demographic multiplier cap.
pub proof fn lemma_util_suffix_nonneg(
    c: DemographicCell,
    utils: Seq<UtilizationRate>,
    p: InforceParams,
    k: int,
)
    requires
        spec_cell_wf(c),
        p.wf(),
        forall|i: int| 0 <= i < utils.len() ==> spec_util_wf(#[trigger] utils[i]),
    ensures
        0 <= spec_util_suffix_weight(c, utils, p, k),
    decreases utils.len() - k,
{
    if k < 0 || k >= utils.len() {
    } else {
        lemma_cell_mult_bounds(c, p);
        lemma_pair_weight_nonneg(
            c.base_weight as int,
            utils[k].percentage as int,
            p.fixed_pct as int,
            spec_cell_mult(c, p),
        );
        lemma_pair_weight_nonneg(
            c.base_weight as int,
            utils[k].percentage as int,
            RATE_ONE - p.fixed_pct,
            spec_cell_mult(c, p),
        );
        lemma_util_suffix_nonneg(c, utils, p, k + 1);
    }
}

/// A cell suffix weight is nonnegative.
pub proof fn lemma_cell_suffix_nonneg(
    cells: Seq<DemographicCell>,
    utils: Seq<UtilizationRate>,
    p: InforceParams,
    j: int,
)
    requires
        p.wf(),
        forall|i: int| 0 <= i < cells.len() ==> spec_cell_wf(#[trigger] cells[i]),
        forall|i: int| 0 <= i < utils.len() ==> spec_util_wf(#[trigger] utils[i]),
    ensures
        0 <= spec_cell_suffix_weight(cells, utils, p, j),
    decreases cells.len() - j,
{
    if j < 0 || j >= cells.len() {
    } else {
        lemma_util_suffix_nonneg(cells[j], utils, p, 0);
        lemma_cell_suffix_nonneg(cells, utils, p, j + 1);
    }
}

/// The demographic multiplier is bounded by the square of the parameter cap,
/// scaled back once.
pub proof fn lemma_cell_mult_bounds(c: DemographicCell, p: InforceParams)
    requires
        p.wf(),
    ensures
        0 <= spec_cell_mult(c, p) <= 10_000_000_000_000_000int,
{
    let g = match c.gender {
        Gender::Male => p.male_mult,
        Gender::Female => p.female_mult,
    };
    let q = match c.qual_status {
        QualStatus::Q => p.qual_mult,
        QualStatus::N => p.nonqual_mult,
    };
    lemma_rmul_nonneg(g as int, q as int);
    assert((g as int) * (q as int) <= (MAX_PARAM_MULT as int) * (MAX_PARAM_MULT as int))
        by (nonlinear_arith)
        requires
            0 <= g as int <= MAX_PARAM_MULT as int,
            0 <= q as int <= MAX_PARAM_MULT as int,
    ;
    vstd::arithmetic::div_mod::lemma_div_is_ordered(
        (g as int) * (q as int),
        (MAX_PARAM_MULT as int) * (MAX_PARAM_MULT as int),
        RATE_ONE as int,
    );
}

/// Computes the demographic multiplier of a cell.
fn cell_mult(c: &DemographicCell, p: &InforceParams) -> (r: u64)
    requires
        p.wf(),
    ensures
        r == spec_cell_mult(*c, *p),
        r <= 10_000_000_000_000_000u64,
{
    let g: u64 = match c.gender {
        Gender::Male => p.male_mult,
        Gender::Female => p.female_mult,
    };
    let q: u64 = match c.qual_status {
        QualStatus::Q => p.qual_mult,
        QualStatus::N => p.nonqual_mult,
    };
    proof {
        lemma_cell_mult_bounds(*c, *p);
        lemma_u64_mul_fits(g as int, q as int);
    }
    ((g as u128) * (q as u128) / (RATE_ONE as u128)) as u64
}

/// Computes the weight of one (cell, utilization, strategy) combination.
fn pair_weight(bw: u64, util: u64, strat: u64, cm: u64) -> (r: u64)
    requires
        bw <= RATE_ONE,
        util <= RATE_ONE,
        strat <= RATE_ONE,
    ensures
        r == spec_pair_weight(bw as int, util as int, strat as int, cm as int),
        r <= cm,
{
    let x = rate_apply(rate_apply(bw, util), strat);
    proof {
        lemma_pair_weight_le_cm(bw as int, util as int, strat as int, cm as int);
        lemma_u64_mul_fits(x as int, cm as int);
    }
    ((x as u128) * (cm as u128) / (RATE_ONE as u128)) as u64
}

/// Sum of the premiums of a sequence of policies, from index `i`.
pub open spec fn spec_premium_sum(ps: Seq<Policy>, i: int) -> int
    decreases ps.len() - i,
{
    if i < 0 || i >= ps.len() {
        0
    } else {
        ps[i].initial_premium + spec_premium_sum(ps, i + 1)
    }
}

/// Appending a policy adds its premium to the sum.
pub proof fn lemma_premium_sum_push(ps: Seq<Policy>, x: Policy, i: int)
    requires
        0 <= i <= ps.len(),
    ensures
        spec_premium_sum(ps.push(x), i) == spec_premium_sum(ps, i) + x.initial_premium,
    decreases ps.len() - i,
{
    if i == ps.len() {
        assert(spec_premium_sum(ps.push(x), i) == ps.push(x)[i].initial_premium
            + spec_premium_sum(ps.push(x), i + 1));
    } else {
        lemma_premium_sum_push(ps, x, i + 1);
    }
}

/// One scaling step: pushing a premium of `w * target / total` keeps the
/// running premium sum between the exactly scaled processed weight and that
/// value less one unit per policy pushed so far.
pub proof fn lemma_scale_step(
    total: int,
    target: int,
    psum: int,
    wsum: int,
    pcount: int,
    w: int,
    q: int,
)
    requires
        total > 0,
        0 <= target,
        0 <= w,
        q == w * target / total,
        total * psum <= wsum * target,
        wsum * target <= total * (psum + pcount),
    ensures
        total * (psum + q) <= (wsum + w) * target,
        (wsum + w) * target <= total * (psum + q + (pcount + 1)),
{
    vstd::arithmetic::mul::lemma_mul_nonnegative(w, target);
    vstd::arithmetic::div_mod::lemma_fundamental_div_mod(w * target, total);
    vstd::arithmetic::div_mod::lemma_mod_bound(w * target, total);
    assert((wsum + w) * target == wsum * target + w * target) by (nonlinear_arith);
    assert(total * (psum + q) == total * psum + total * q) by (nonlinear_arith);
    assert(total * (psum + q + (pcount + 1)) == total * (psum + pcount) + total * q + total)
        by (nonlinear_arith);
}


/// Smallest relative premium weight any default cell carries.
pub const MIN_CELL_WEIGHT: u64 = 1_000_000;

/// Smallest lives-per-premium-dollar rate any default cell carries.
pub const MIN_POLS_PER_PREMIUM: u64 = 10_000;

/// Smallest utilization share any default activation year carries.
pub const MIN_UTILIZATION: u64 = 1_000_000;

/// The default demographic cells as a mathematical table: one cell for each
/// combination of qualification status, issue age (57, 62, 67, 72, 77),
/// gender and benefit-base bucket, every weight positive, and a 1.3
/// premium-to-benefit-base ratio throughout.
pub open spec fn spec_default_cells() -> Seq<DemographicCell> {
    seq![
        DemographicCell { qual_status: QualStatus::N, issue_age: 57u8, gender: Gender::Female, benefit_base_bucket: BenefitBaseBucket::Under50k, base_weight: 9_088_384u64, bb_to_premium_ratio: 13_000_000_000u64, pols_per_premium: 465_703u64 },
        DemographicCell { qual_status: QualStatus::N, issue_age: 57u8, gender: Gender::Female, benefit_base_bucket: BenefitBaseBucket::From50kTo100k, base_weight: 16_700_474u64, bb_to_premium_ratio: 13_000_000_000u64, pols_per_premium: 198_933u64 },
        DemographicCell { qual_status: QualStatus::N, issue_age: 57u8, gender: Gender::Female, benefit_base_bucket: BenefitBaseBucket::From100kTo200k, base_weight: 37_518_498u64, bb_to_premium_ratio: 13_000_000_000u64, pols_per_premium: 104_320u64 },
        DemographicCell { qual_status: QualStatus::N, issue_age: 57u8, gender: Gender::Female, benefit_base_bucket: BenefitBaseBucket::From200kTo500k, base_weight: 52_106_508u64, bb_to_premium_ratio: 13_000_000_000u64, pols_per_premium: 46_509u64 },
        DemographicCell { qual_status: QualStatus::N, issue_age: 57u8, gender: Gender::Female, benefit_base_bucket: BenefitBaseBucket::Over500k, base_weight: 19_357_818u64, bb_to_premium_ratio: 13_000_000_000u64, pols_per_premium: 21_159u64 },
        DemographicCell { qual_status: QualStatus::N, issue_age: 57u8, gender: Gender::Male, benefit_base_bucket: BenefitBaseBucket::Under50k, base_weight: 5_666_217u64, bb_to_premium_ratio: 13_000_000_000u64, pols_per_premium: 467_860u64 },
        DemographicCell { qual_status: QualStatus::N, issue_age: 57u8, gender: Gender::Male, benefit_base_bucket: BenefitBaseBucket::From50kTo100k, base_weight: 13_776_594u64, bb_to_premium_ratio: 13_000_000_000u64, pols_per_premium: 200_686u64 },
        DemographicCell { qual_status: QualStatus::N, issue_age: 57u8, gender: Gender::Male, benefit_base_bucket: BenefitBaseBucket::From100kTo200k, base_weight: 33_360_405u64, bb_to_premium_ratio: 13_000_000_000u64, pols_per_premium: 105_726u64 },
        DemographicCell { qual_status: QualStatus::N, issue_age: 57u8, gender: Gender::Male, benefit_base_bucket: BenefitBaseBucket::From200kTo500k, base_weight: 45_829_830u64, bb_to_premium_ratio: 13_000_000_000u64, pols_per_premium: 47_417u64 },
        DemographicCell { qual_status: QualStatus::N, issue_age: 57u8, gender: Gender::Male, benefit_base_bucket: BenefitBaseBucket::Over500k, base_weight: 39_822_665u64, bb_to_premium_ratio: 13_000_000_000u64, pols_per_premium: 20_857u64 },
        DemographicCell { qual_status: QualStatus::N, issue_age: 62u8, gender: Gender::Female, benefit_base_bucket: BenefitBaseBucket::Under50k, base_weight: 12_627_984u64, bb_to_premium_ratio: 13_000_000_000u64, pols_per_premium: 432_474u64 },
        DemographicCell { qual_status: QualStatus::N, issue_age: 62u8, gender: Gender::Female, benefit_base_bucket: BenefitBaseBucket::From50kTo100k, base_weight: 30_721_965u64, bb_to_premium_ratio: 13_000_000_000u64, pols_per_premium: 189_245u64 },
        DemographicCell { qual_status: QualStatus::N, issue_age: 62u8, gender: Gender::Female, benefit_base_bucket: BenefitBaseBucket::From100kTo200k, base_weight: 75_322_688u64, bb_to_premium_ratio: 13_000_000_000u64, pols_per_premium: 97_278u64 },
        DemographicCell { qual_status: QualStatus::N, issue_age: 62u8, gender: Gender::Female, benefit_base_bucket: BenefitBaseBucket::From200kTo500k, base_weight: 99_602_441u64, bb_to_premium_ratio: 13_000_000_000u64, pols_per_premium: 46_720u64 },
        DemographicCell { qual_status: QualStatus::N, issue_age: 62u8, gender: Gender::Female, benefit_base_bucket: BenefitBaseBucket::Over500k, base_weight: 42_468_426u64, bb_to_premium_ratio: 13_000_000_000u64, pols_per_premium: 19_289u64 },
        DemographicCell { qual_status: QualStatus::N, issue_age: 62u8, gender: Gender::Male, benefit_base_bucket: BenefitBaseBucket::Under50k, base_weight: 11_891_259u64, bb_to_premium_ratio: 13_000_000_000u64, pols_per_premium: 450_657u64 },
        DemographicCell { qual_status: QualStatus::N, issue_age: 62u8, gender: Gender::Male, benefit_base_bucket: BenefitBaseBucket::From50kTo100k, base_weight: 32_639_381u64, bb_to_premium_ratio: 13_000_000_000u64, pols_per_premium: 197_300u64 },
        DemographicCell { qual_status: QualStatus::N, issue_age: 62u8, gender: Gender::Male, benefit_base_bucket: BenefitBaseBucket::From100kTo200k, base_weight: 69_055_586u64, bb_to_premium_ratio: 13_000_000_000u64, pols_per_premium: 101_987u64 },
        DemographicCell { qual_status: QualStatus::N, issue_age: 62u8, gender: Gender::Male, benefit_base_bucket: BenefitBaseBucket::From200kTo500k, base_weight: 124_235_655u64, bb_to_premium_ratio: 13_000_000_000u64, pols_per_premium: 45_699u64 },
        DemographicCell { qual_status: QualStatus::N, issue_age: 62u8, gender: Gender::Male, benefit_base_bucket: BenefitBaseBucket::Over500k, base_weight: 77_321_023u64, bb_to_premium_ratio: 13_000_000_000u64, pols_per_premium: 17_069u64 },
        DemographicCell { qual_status: QualStatus::N, issue_age: 67u8, gender: Gender::Female, benefit_base_bucket: BenefitBaseBucket::Under50k, base_weight: 15_433_994u64, bb_to_premium_ratio: 13_000_000_000u64, pols_per_premium: 420_931u64 },
        DemographicCell { qual_status: QualStatus::N, issue_age: 67u8, gender: Gender::Female, benefit_base_bucket: BenefitBaseBucket::From50kTo100k, base_weight: 38_432_176u64, bb_to_premium_ratio: 13_000_000_000u64, pols_per_premium: 188_581u64 },
        DemographicCell { qual_status: QualStatus::N, issue_age: 67u8, gender: Gender::Female, benefit_base_bucket: BenefitBaseBucket::From100kTo200k, base_weight: 93_190_765u64, bb_to_premium_ratio: 13_000_000_000u64, pols_per_premium: 99_992u64 },
        DemographicCell { qual_status: QualStatus::N, issue_age: 67u8, gender: Gender::Female, benefit_base_bucket: BenefitBaseBucket::From200kTo500k, base_weight: 122_689_747u64, bb_to_premium_ratio: 13_000_000_000u64, pols_per_premium: 45_626u64 },
        DemographicCell { qual_status: QualStatus::N, issue_age: 67u8, gender: Gender::Female, benefit_base_bucket: BenefitBaseBucket::Over500k, base_weight: 49_711_141u64, bb_to_premium_ratio: 13_000_000_000u64, pols_per_premium: 18_081u64 },
        DemographicCell { qual_status: QualStatus::N, issue_age: 67u8, gender: Gender::Male, benefit_base_bucket: BenefitBaseBucket::Under50k, base_weight: 13_496_194u64, bb_to_premium_ratio: 13_000_000_000u64, pols_per_premium: 426_572u64 },
        DemographicCell { qual_status: QualStatus::N, issue_age: 67u8, gender: Gender::Male, benefit_base_bucket: BenefitBaseBucket::From50kTo100k, base_weight: 40_339_383u64, bb_to_premium_ratio: 13_000_000_000u64, pols_per_premium: 196_870u64 },
        DemographicCell { qual_status: QualStatus::N, issue_age: 67u8, gender: Gender::Male, benefit_base_bucket: BenefitBaseBucket::From100kTo200k, base_weight: 92_925_930u64, bb_to_premium_ratio: 13_000_000_000u64, pols_per_premium: 99_297u64 },
        DemographicCell { qual_status: QualStatus::N, issue_age: 67u8, gender: Gender::Male, benefit_base_bucket: BenefitBaseBucket::From200kTo500k, base_weight: 123_062_309u64, bb_to_premium_ratio: 13_000_000_000u64, pols_per_premium: 46_135u64 },
        DemographicCell { qual_status: QualStatus::N, issue_age: 67u8, gender: Gender::Male, benefit_base_bucket: BenefitBaseBucket::Over500k, base_weight: 97_612_917u64, bb_to_premium_ratio: 13_000_000_000u64, pols_per_premium: 17_134u64 },
        DemographicCell { qual_status: QualStatus::N, issue_age: 72u8, gender: Gender::Female, benefit_base_bucket: BenefitBaseBucket::Under50k, base_weight: 14_501_436u64, bb_to_premium_ratio: 13_000_000_000u64, pols_per_premium: 444_862u64 },
        DemographicCell { qual_status: QualStatus::N, issue_age: 72u8, gender: Gender::Female, benefit_base_bucket: BenefitBaseBucket::From50kTo100k, base_weight: 39_342_324u64, bb_to_premium_ratio: 13_000_000_000u64, pols_per_premium: 191_159u64 },
        DemographicCell { qual_status: QualStatus::N, issue_age: 72u8, gender: Gender::Female, benefit_base_bucket: BenefitBaseBucket::From100kTo200k, base_weight: 85_403_775u64, bb_to_premium_ratio: 13_000_000_000u64, pols_per_premium: 100_583u64 },
        DemographicCell { qual_status: QualStatus::N, issue_age: 72u8, gender: Gender::Female, benefit_base_bucket: BenefitBaseBucket::From200kTo500k, base_weight: 121_846_274u64, bb_to_premium_ratio: 13_000_000_000u64, pols_per_premium: 46_875u64 },
        DemographicCell { qual_status: QualStatus::N, issue_age: 72u8, gender: Gender::Female, benefit_base_bucket: BenefitBaseBucket::Over500k, base_weight: 47_865_795u64, bb_to_premium_ratio: 13_000_000_000u64, pols_per_premium: 19_016u64 },
        DemographicCell { qual_status: QualStatus::N, issue_age: 72u8, gender: Gender::Male, benefit_base_bucket: BenefitBaseBucket::Under50k, base_weight: 13_222_255u64, bb_to_premium_ratio: 13_000_000_000u64, pols_per_premium: 425_944u64 },
        DemographicCell { qual_status: QualStatus::N, issue_age: 72u8, gender: Gender::Male, benefit_base_bucket: BenefitBaseBucket::From50kTo100k, base_weight: 33_266_226u64, bb_to_premium_ratio: 13_000_000_000u64, pols_per_premium: 194_608u64 },
        DemographicCell { qual_status: QualStatus::N, issue_age: 72u8, gender: Gender::Male, benefit_base_bucket: BenefitBaseBucket::From100kTo200k, base_weight: 87_869_354u64, bb_to_premium_ratio: 13_000_000_000u64, pols_per_premium: 100_350u64 },
        DemographicCell { qual_status: QualStatus::N, issue_age: 72u8, gender: Gender::Male, benefit_base_bucket: BenefitBaseBucket::From200kTo500k, base_weight: 141_311_099u64, bb_to_premium_ratio: 13_000_000_000u64, pols_per_premium: 45_733u64 },
        DemographicCell { qual_status: QualStatus::N, issue_age: 72u8, gender: Gender::Male, benefit_base_bucket: BenefitBaseBucket::Over500k, base_weight: 61_983_865u64, bb_to_premium_ratio: 13_000_000_000u64, pols_per_premium: 18_723u64 },
        DemographicCell { qual_status: QualStatus::N, issue_age: 77u8, gender: Gender::Female, benefit_base_bucket: BenefitBaseBucket::Under50k, base_weight: 13_038_629u64, bb_to_premium_ratio: 13_000_000_000u64, pols_per_premium: 436_306u64 },
        DemographicCell { qual_status: QualStatus::N, issue_age: 77u8, gender: Gender::Female, benefit_base_bucket: BenefitBaseBucket::From50kTo100k, base_weight: 34_898_805u64, bb_to_premium_ratio: 13_000_000_000u64, pols_per_premium: 189_743u64 },
        DemographicCell { qual_status: QualStatus::N, issue_age: 77u8, gender: Gender::Female, benefit_base_bucket: BenefitBaseBucket::From100kTo200k, base_weight: 75_870_913u64, bb_to_premium_ratio: 13_000_000_000u64, pols_per_premium: 100_174u64 },
        DemographicCell { qual_status: QualStatus::N, issue_age: 77u8, gender: Gender::Female, benefit_base_bucket: BenefitBaseBucket::From200kTo500k, base_weight: 98_199_849u64, bb_to_premium_ratio: 13_000_000_000u64, pols_per_premium: 46_345u64 },
        DemographicCell { qual_status: QualStatus::N, issue_age: 77u8, gender: Gender::Female, benefit_base_bucket: BenefitBaseBucket::Over500k, base_weight: 34_597_776u64, bb_to_premium_ratio: 13_000_000_000u64, pols_per_premium: 20_718u64 },
        DemographicCell { qual_status: QualStatus::N, issue_age: 77u8, gender: Gender::Male, benefit_base_bucket: BenefitBaseBucket::Under50k, base_weight: 9_282_650u64, bb_to_premium_ratio: 13_000_000_000u64, pols_per_premium: 413_058u64 },
        DemographicCell { qual_status: QualStatus::N, issue_age: 77u8, gender: Gender::Male, benefit_base_bucket: BenefitBaseBucket::From50kTo100k, base_weight: 24_116_374u64, bb_to_premium_ratio: 13_000_000_000u64, pols_per_premium: 192_015u64 },
        DemographicCell { qual_status: QualStatus::N, issue_age: 77u8, gender: Gender::Male, benefit_base_bucket: BenefitBaseBucket::From100kTo200k, base_weight: 53_150_746u64, bb_to_premium_ratio: 13_000_000_000u64, pols_per_premium: 99_326u64 },
        DemographicCell { qual_status: QualStatus::N, issue_age: 77u8, gender: Gender::Male, benefit_base_bucket: BenefitBaseBucket::From200kTo500k, base_weight: 69_946_584u64, bb_to_premium_ratio: 13_000_000_000u64, pols_per_premium: 46_521u64 },
        DemographicCell { qual_status: QualStatus::N, issue_age: 77u8, gender: Gender::Male, benefit_base_bucket: BenefitBaseBucket::Over500k, base_weight: 30_539_619u64, bb_to_premium_ratio: 13_000_000_000u64, pols_per_premium: 20_118u64 },
        DemographicCell { qual_status: QualStatus::Q, issue_age: 57u8, gender: Gender::Female, benefit_base_bucket: BenefitBaseBucket::Under50k, base_weight: 19_436_203u64, bb_to_premium_ratio: 13_000_000_000u64, pols_per_premium: 422_063u64 },
        DemographicCell { qual_status: QualStatus::Q, issue_age: 57u8, gender: Gender::Female, benefit_base_bucket: BenefitBaseBucket::From50kTo100k, base_weight: 49_867_748u64, bb_to_premium_ratio: 13_000_000_000u64, pols_per_premium: 189_598u64 },
        DemographicCell { qual_status: QualStatus::Q, issue_age: 57u8, gender: Gender::Female, benefit_base_bucket: BenefitBaseBucket::From100kTo200k, base_weight: 137_556_748u64, bb_to_premium_ratio: 13_000_000_000u64, pols_per_premium: 98_593u64 },
        DemographicCell { qual_status: QualStatus::Q, issue_age: 57u8, gender: Gender::Female, benefit_base_bucket: BenefitBaseBucket::From200kTo500k, base_weight: 200_372_920u64, bb_to_premium_ratio: 13_000_000_000u64, pols_per_premium: 47_868u64 },
        DemographicCell { qual_status: QualStatus::Q, issue_age: 57u8, gender: Gender::Female, benefit_base_bucket: BenefitBaseBucket::Over500k, base_weight: 73_878_261u64, bb_to_premium_ratio: 13_000_000_000u64, pols_per_premium: 20_483u64 },
        DemographicCell { qual_status: QualStatus::Q, issue_age: 57u8, gender: Gender::Male, benefit_base_bucket: BenefitBaseBucket::Under50k, base_weight: 13_065_432u64, bb_to_premium_ratio: 13_000_000_000u64, pols_per_premium: 439_765u64 },
        DemographicCell { qual_status: QualStatus::Q, issue_age: 57u8, gender: Gender::Male, benefit_base_bucket: BenefitBaseBucket::From50kTo100k, base_weight: 44_466_984u64, bb_to_premium_ratio: 13_000_000_000u64, pols_per_premium: 189_854u64 },
        DemographicCell { qual_status: QualStatus::Q, issue_age: 57u8, gender: Gender::Male, benefit_base_bucket: BenefitBaseBucket::From100kTo200k, base_weight: 150_321_249u64, bb_to_premium_ratio: 13_000_000_000u64, pols_per_premium: 98_320u64 },
        DemographicCell { qual_status: QualStatus::Q, issue_age: 57u8, gender: Gender::Male, benefit_base_bucket: BenefitBaseBucket::From200kTo500k, base_weight: 280_989_220u64, bb_to_premium_ratio: 13_000_000_000u64, pols_per_premium: 46_160u64 },
        DemographicCell { qual_status: QualStatus::Q, issue_age: 57u8, gender: Gender::Male, benefit_base_bucket: BenefitBaseBucket::Over500k, base_weight: 102_441_597u64, bb_to_premium_ratio: 13_000_000_000u64, pols_per_premium: 19_658u64 },
        DemographicCell { qual_status: QualStatus::Q, issue_age: 62u8, gender: Gender::Female, benefit_base_bucket: BenefitBaseBucket::Under50k, base_weight: 31_516_706u64, bb_to_premium_ratio: 13_000_000_000u64, pols_per_premium: 411_184u64 },
        DemographicCell { qual_status: QualStatus::Q, issue_age: 62u8, gender: Gender::Female, benefit_base_bucket: BenefitBaseBucket::From50kTo100k, base_weight: 109_928_723u64, bb_to_premium_ratio: 13_000_000_000u64, pols_per_premium: 185_990u64 },
        DemographicCell { qual_status: QualStatus::Q, issue_age: 62u8, gender: Gender::Female, benefit_base_bucket: BenefitBaseBucket::From100kTo200k, base_weight: 298_317_213u64, bb_to_premium_ratio: 13_000_000_000u64, pols_per_premium: 95_654u64 },
        DemographicCell { qual_status: QualStatus::Q, issue_age: 62u8, gender: Gender::Female, benefit_base_bucket: BenefitBaseBucket::From200kTo500k, base_weight: 463_375_999u64, bb_to_premium_ratio: 13_000_000_000u64, pols_per_premium: 46_628u64 },
        DemographicCell { qual_status: QualStatus::Q, issue_age: 62u8, gender: Gender::Female, benefit_base_bucket: BenefitBaseBucket::Over500k, base_weight: 124_657_093u64, bb_to_premium_ratio: 13_000_000_000u64, pols_per_premium: 20_171u64 },
        DemographicCell { qual_status: QualStatus::Q, issue_age: 62u8, gender: Gender::Male, benefit_base_bucket: BenefitBaseBucket::Under50k, base_weight: 25_804_785u64, bb_to_premium_ratio: 13_000_000_000u64, pols_per_premium: 417_545u64 },
        DemographicCell { qual_status: QualStatus::Q, issue_age: 62u8, gender: Gender::Male, benefit_base_bucket: BenefitBaseBucket::From50kTo100k, base_weight: 97_172_177u64, bb_to_premium_ratio: 13_000_000_000u64, pols_per_premium: 193_429u64 },
        DemographicCell { qual_status: QualStatus::Q, issue_age: 62u8, gender: Gender::Male, benefit_base_bucket: BenefitBaseBucket::From100kTo200k, base_weight: 347_338_258u64, bb_to_premium_ratio: 13_000_000_000u64, pols_per_premium: 98_434u64 },
        DemographicCell { qual_status: QualStatus::Q, issue_age: 62u8, gender: Gender::Male, benefit_base_bucket: BenefitBaseBucket::From200kTo500k, base_weight: 725_250_764u64, bb_to_premium_ratio: 13_000_000_000u64, pols_per_premium: 46_028u64 },
        DemographicCell { qual_status: QualStatus::Q, issue_age: 62u8, gender: Gender::Male, benefit_base_bucket: BenefitBaseBucket::Over500k, base_weight: 301_196_740u64, bb_to_premium_ratio: 13_000_000_000u64, pols_per_premium: 19_265u64 },
        DemographicCell { qual_status: QualStatus::Q, issue_age: 67u8, gender: Gender::Female, benefit_base_bucket: BenefitBaseBucket::Under50k, base_weight: 34_949_566u64, bb_to_premium_ratio: 13_000_000_000u64, pols_per_premium: 391_956u64 },
        DemographicCell { qual_status: QualStatus::Q, issue_age: 67u8, gender: Gender::Female, benefit_base_bucket: BenefitBaseBucket::From50kTo100k, base_weight: 97_816_610u64, bb_to_premium_ratio: 13_000_000_000u64, pols_per_premium: 184_012u64 },
        DemographicCell { qual_status: QualStatus::Q, issue_age: 67u8, gender: Gender::Female, benefit_base_bucket: BenefitBaseBucket::From100kTo200k, base_weight: 243_278_247u64, bb_to_premium_ratio: 13_000_000_000u64, pols_per_premium: 97_091u64 },
        DemographicCell { qual_status: QualStatus::Q, issue_age: 67u8, gender: Gender::Female, benefit_base_bucket: BenefitBaseBucket::From200kTo500k, base_weight: 378_745_362u64, bb_to_premium_ratio: 13_000_000_000u64, pols_per_premium: 46_172u64 },
        DemographicCell { qual_status: QualStatus::Q, issue_age: 67u8, gender: Gender::Female, benefit_base_bucket: BenefitBaseBucket::Over500k, base_weight: 116_479_219u64, bb_to_premium_ratio: 13_000_000_000u64, pols_per_premium: 20_708u64 },
        DemographicCell { qual_status: QualStatus::Q, issue_age: 67u8, gender: Gender::Male, benefit_base_bucket: BenefitBaseBucket::Under50k, base_weight: 24_258_913u64, bb_to_premium_ratio: 13_000_000_000u64, pols_per_premium: 408_038u64 },
        DemographicCell { qual_status: QualStatus::Q, issue_age: 67u8, gender: Gender::Male, benefit_base_bucket: BenefitBaseBucket::From50kTo100k, base_weight: 98_179_558u64, bb_to_premium_ratio: 13_000_000_000u64, pols_per_premium: 183_680u64 },
        DemographicCell { qual_status: QualStatus::Q, issue_age: 67u8, gender: Gender::Male, benefit_base_bucket: BenefitBaseBucket::From100kTo200k, base_weight: 306_969_894u64, bb_to_premium_ratio: 13_000_000_000u64, pols_per_premium: 98_999u64 },
        DemographicCell { qual_status: QualStatus::Q, issue_age: 67u8, gender: Gender::Male, benefit_base_bucket: BenefitBaseBucket::From200kTo500k, base_weight: 644_354_866u64, bb_to_premium_ratio: 13_000_000_000u64, pols_per_premium: 45_697u64 },
        DemographicCell { qual_status: QualStatus::Q, issue_age: 67u8, gender: Gender::Male, benefit_base_bucket: BenefitBaseBucket::Over500k, base_weight: 262_050_715u64, bb_to_premium_ratio: 13_000_000_000u64, pols_per_premium: 20_189u64 },
        DemographicCell { qual_status: QualStatus::Q, issue_age: 72u8, gender: Gender::Female, benefit_base_bucket: BenefitBaseBucket::Under50k, base_weight: 20_744_933u64, bb_to_premium_ratio: 13_000_000_000u64, pols_per_premium: 397_630u64 },
        DemographicCell { qual_status: QualStatus::Q, issue_age: 72u8, gender: Gender::Female, benefit_base_bucket: BenefitBaseBucket::From50kTo100k, base_weight: 62_453_015u64, bb_to_premium_ratio: 13_000_000_000u64, pols_per_premium: 181_997u64 },
        DemographicCell { qual_status: QualStatus::Q, issue_age: 72u8, gender: Gender::Female, benefit_base_bucket: BenefitBaseBucket::From100kTo200k, base_weight: 138_438_925u64, bb_to_premium_ratio: 13_000_000_000u64, pols_per_premium: 93_527u64 },
        DemographicCell { qual_status: QualStatus::Q, issue_age: 72u8, gender: Gender::Female, benefit_base_bucket: BenefitBaseBucket::From200kTo500k, base_weight: 209_000_022u64, bb_to_premium_ratio: 13_000_000_000u64, pols_per_premium: 44_367u64 },
        DemographicCell { qual_status: QualStatus::Q, issue_age: 72u8, gender: Gender::Female, benefit_base_bucket: BenefitBaseBucket::Over500k, base_weight: 57_075_570u64, bb_to_premium_ratio: 13_000_000_000u64, pols_per_premium: 18_738u64 },
        DemographicCell { qual_status: QualStatus::Q, issue_age: 72u8, gender: Gender::Male, benefit_base_bucket: BenefitBaseBucket::Under50k, base_weight: 14_879_832u64, bb_to_premium_ratio: 13_000_000_000u64, pols_per_premium: 402_963u64 },
        DemographicCell { qual_status: QualStatus::Q, issue_age: 72u8, gender: Gender::Male, benefit_base_bucket: BenefitBaseBucket::From50kTo100k, base_weight: 52_891_014u64, bb_to_premium_ratio: 13_000_000_000u64, pols_per_premium: 176_825u64 },
        DemographicCell { qual_status: QualStatus::Q, issue_age: 72u8, gender: Gender::Male, benefit_base_bucket: BenefitBaseBucket::From100kTo200k, base_weight: 153_710_041u64, bb_to_premium_ratio: 13_000_000_000u64, pols_per_premium: 95_486u64 },
        DemographicCell { qual_status: QualStatus::Q, issue_age: 72u8, gender: Gender::Male, benefit_base_bucket: BenefitBaseBucket::From200kTo500k, base_weight: 316_566_493u64, bb_to_premium_ratio: 13_000_000_000u64, pols_per_premium: 44_567u64 },
        DemographicCell { qual_status: QualStatus::Q, issue_age: 72u8, gender: Gender::Male, benefit_base_bucket: BenefitBaseBucket::Over500k, base_weight: 130_669_421u64, bb_to_premium_ratio: 13_000_000_000u64, pols_per_premium: 18_198u64 },
        DemographicCell { qual_status: QualStatus::Q, issue_age: 77u8, gender: Gender::Female, benefit_base_bucket: BenefitBaseBucket::Under50k, base_weight: 9_944_025u64, bb_to_premium_ratio: 13_000_000_000u64, pols_per_premium: 408_469u64 },
        DemographicCell { qual_status: QualStatus::Q, issue_age: 77u8, gender: Gender::Female, benefit_base_bucket: BenefitBaseBucket::From50kTo100k, base_weight: 28_450_231u64, bb_to_premium_ratio: 13_000_000_000u64, pols_per_premium: 180_761u64 },
        DemographicCell { qual_status: QualStatus::Q, issue_age: 77u8, gender: Gender::Female, benefit_base_bucket: BenefitBaseBucket::From100kTo200k, base_weight: 57_428_956u64, bb_to_premium_ratio: 13_000_000_000u64, pols_per_premium: 95_096u64 },
        DemographicCell { qual_status: QualStatus::Q, issue_age: 77u8, gender: Gender::Female, benefit_base_bucket: BenefitBaseBucket::From200kTo500k, base_weight: 67_448_145u64, bb_to_premium_ratio: 13_000_000_000u64, pols_per_premium: 45_714u64 },
        DemographicCell { qual_status: QualStatus::Q, issue_age: 77u8, gender: Gender::Female, benefit_base_bucket: BenefitBaseBucket::Over500k, base_weight: 16_317_348u64, bb_to_premium_ratio: 13_000_000_000u64, pols_per_premium: 20_221u64 },
        DemographicCell { qual_status: QualStatus::Q, issue_age: 77u8, gender: Gender::Male, benefit_base_bucket: BenefitBaseBucket::Under50k, base_weight: 10_227_169u64, bb_to_premium_ratio: 13_000_000_000u64, pols_per_premium: 380_473u64 },
        DemographicCell { qual_status: QualStatus::Q, issue_age: 77u8, gender: Gender::Male, benefit_base_bucket: BenefitBaseBucket::From50kTo100k, base_weight: 25_384_642u64, bb_to_premium_ratio: 13_000_000_000u64, pols_per_premium: 176_595u64 },
        DemographicCell { qual_status: QualStatus::Q, issue_age: 77u8, gender: Gender::Male, benefit_base_bucket: BenefitBaseBucket::From100kTo200k, base_weight: 61_192_286u64, bb_to_premium_ratio: 13_000_000_000u64, pols_per_premium: 94_826u64 },
        DemographicCell { qual_status: QualStatus::Q, issue_age: 77u8, gender: Gender::Male, benefit_base_bucket: BenefitBaseBucket::From200kTo500k, base_weight: 96_643_085u64, bb_to_premium_ratio: 13_000_000_000u64, pols_per_premium: 46_150u64 },
        DemographicCell { qual_status: QualStatus::Q, issue_age: 77u8, gender: Gender::Male, benefit_base_bucket: BenefitBaseBucket::Over500k, base_weight: 40_234_378u64, bb_to_premium_ratio: 13_000_000_000u64, pols_per_premium: 18_664u64 },
    ]
}

/// The default utilization entries as a mathematical table: activation
/// years 1 through 10, 12, 15, 20 and the never-activating share, every
/// share positive.
pub open spec fn spec_default_utilization() -> Seq<UtilizationRate> {
    seq![
        UtilizationRate { glwb_start_year: 1u32, percentage: 12_735_160u64 },
        UtilizationRate { glwb_start_year: 2u32, percentage: 8_607_130u64 },
        UtilizationRate { glwb_start_year: 3u32, percentage: 24_944_090u64 },
        UtilizationRate { glwb_start_year: 4u32, percentage: 36_539_750u64 },
        UtilizationRate { glwb_start_year: 5u32, percentage: 52_282_510u64 },
        UtilizationRate { glwb_start_year: 6u32, percentage: 73_031_000u64 },
        UtilizationRate { glwb_start_year: 7u32, percentage: 99_526_720u64 },
        UtilizationRate { glwb_start_year: 8u32, percentage: 132_231_400u64 },
        UtilizationRate { glwb_start_year: 9u32, percentage: 287_011_360u64 },
        UtilizationRate { glwb_start_year: 10u32, percentage: 355_835_490u64 },
        UtilizationRate { glwb_start_year: 12u32, percentage: 1_490_581_890u64 },
        UtilizationRate { glwb_start_year: 15u32, percentage: 2_413_443_290u64 },
        UtilizationRate { glwb_start_year: 20u32, percentage: 2_453_262_370u64 },
        UtilizationRate { glwb_start_year: 99u32, percentage: 2_559_967_830u64 },
    ]
}

/// Sum of the utilization shares from index `i`.
pub open spec fn spec_percentage_sum(utils: Seq<UtilizationRate>, i: int) -> int
    decreases utils.len() - i,
{
    if i < 0 || i >= utils.len() {
        0
    } else {
        utils[i].percentage + spec_percentage_sum(utils, i + 1)
    }
}

/// The default utilization shares sum to one, short by exactly one
/// nano-unit of rounding in the underlying study.
pub proof fn lemma_default_utilization_total()
    ensures
        spec_percentage_sum(spec_default_utilization(), 0) == 9_999_999_990,
{
    assert(spec_percentage_sum(spec_default_utilization(), 14) == 0);
    assert(spec_percentage_sum(spec_default_utilization(), 13) == 2_559_967_830);
    assert(spec_percentage_sum(spec_default_utilization(), 12) == 5_013_230_200);
    assert(spec_percentage_sum(spec_default_utilization(), 11) == 7_426_673_490);
    assert(spec_percentage_sum(spec_default_utilization(), 10) == 8_917_255_380);
    assert(spec_percentage_sum(spec_default_utilization(), 9) == 9_273_090_870);
    assert(spec_percentage_sum(spec_default_utilization(), 8) == 9_560_102_230);
    assert(spec_percentage_sum(spec_default_utilization(), 7) == 9_692_333_630);
    assert(spec_percentage_sum(spec_default_utilization(), 6) == 9_791_860_350);
    assert(spec_percentage_sum(spec_default_utilization(), 5) == 9_864_891_350);
    assert(spec_percentage_sum(spec_default_utilization(), 4) == 9_917_173_860);
    assert(spec_percentage_sum(spec_default_utilization(), 3) == 9_953_713_610);
    assert(spec_percentage_sum(spec_default_utilization(), 2) == 9_978_657_700);
    assert(spec_percentage_sum(spec_default_utilization(), 1) == 9_987_264_830);
    assert(spec_percentage_sum(spec_default_utilization(), 0) == 9_999_999_990);
}

/// Any template whose cells and utilization shares are all positive carries
/// positive total weight under parameters that scale no group down.
pub proof fn lemma_total_weight_positive(
    cells: Seq<DemographicCell>,
    utils: Seq<UtilizationRate>,
    p: InforceParams,
)
    requires
        cells.len() >= 1,
        utils.len() >= 1,
        forall|i: int| 0 <= i < cells.len() ==> spec_cell_wf(#[trigger] cells[i]),
        forall|i: int| 0 <= i < cells.len() ==> (#[trigger] cells[i]).base_weight
            >= MIN_CELL_WEIGHT,
        forall|i: int| 0 <= i < utils.len() ==> spec_util_wf(#[trigger] utils[i]),
        forall|i: int| 0 <= i < utils.len() ==> (#[trigger] utils[i]).percentage
            >= MIN_UTILIZATION,
        p.wf(),
        p.male_mult >= RATE_ONE,
        p.female_mult >= RATE_ONE,
        p.qual_mult >= RATE_ONE,
        p.nonqual_mult >= RATE_ONE,
    ensures
        spec_total_weight(cells, utils, p) >= 1,
{
    let c = cells[0];
    let u = utils[0];
    let one = RATE_ONE as int;
    // The demographic multiplier is at least one.
    let g = match c.gender {
        Gender::Male => p.male_mult,
        Gender::Female => p.female_mult,
    };
    let q = match c.qual_status {
        QualStatus::Q => p.qual_mult,
        QualStatus::N => p.nonqual_mult,
    };
    let cm = spec_cell_mult(c, p);
    assert((g as int) * (q as int) >= one * one) by (nonlinear_arith)
        requires
            g as int >= one,
            q as int >= one,
            one > 0,
    ;
    vstd::arithmetic::div_mod::lemma_div_is_ordered(one * one, (g as int) * (q as int), one);
    vstd::arithmetic::div_mod::lemma_div_by_multiple(one, one);
    assert(cm >= one);
    // The first pair carries weight: its rate product cannot floor to zero.
    let bw = c.base_weight as int;
    let up = u.percentage as int;
    let w1 = rmul(bw, up);
    assert(bw * up >= (MIN_CELL_WEIGHT as int) * (MIN_UTILIZATION as int)) by (nonlinear_arith)
        requires
            bw >= MIN_CELL_WEIGHT as int,
            up >= MIN_UTILIZATION as int,
    ;
    vstd::arithmetic::div_mod::lemma_div_is_ordered(
        (MIN_CELL_WEIGHT as int) * (MIN_UTILIZATION as int),
        bw * up,
        one,
    );
    assert(w1 >= 100);
    // One of the two strategy shares is at least a half.
    let s_big: int = if p.fixed_pct >= RATE_ONE / 2 {
        p.fixed_pct as int
    } else {
        RATE_ONE - p.fixed_pct
    };
    assert(s_big >= RATE_ONE / 2);
    let w2 = rmul(w1, s_big);
    assert(w1 * s_big >= 100 * ((RATE_ONE / 2) as int)) by (nonlinear_arith)
        requires
            w1 >= 100,
            s_big >= (RATE_ONE / 2) as int,
    ;
    vstd::arithmetic::div_mod::lemma_div_is_ordered(100 * ((RATE_ONE / 2) as int), w1 * s_big, one);
    assert(w2 >= 50);
    let wbig = rmul(w2, cm);
    assert(w2 * cm >= 50 * one) by (nonlinear_arith)
        requires
            w2 >= 50,
            cm >= one,
            one > 0,
    ;
    vstd::arithmetic::div_mod::lemma_div_is_ordered(50 * one, w2 * cm, one);
    assert(wbig >= 50);
    // That weight sits inside the total, everything else being nonnegative.
    lemma_cell_mult_bounds(c, p);
    lemma_pair_weight_nonneg(bw, up, p.fixed_pct as int, cm);
    lemma_pair_weight_nonneg(bw, up, RATE_ONE - p.fixed_pct, cm);
    if p.fixed_pct >= RATE_ONE / 2 {
        assert(spec_pair_weight(bw, up, p.fixed_pct as int, cm) == wbig);
    } else {
        assert(spec_pair_weight(bw, up, RATE_ONE - p.fixed_pct, cm) == wbig);
    }
    assert(spec_pair_weight_both(c, u, p) >= 50);
    lemma_util_suffix_nonneg(c, utils, p, 1);
    lemma_cell_suffix_nonneg(cells, utils, p, 1);
    assert(spec_util_suffix_weight(c, utils, p, 0) == spec_pair_weight_both(c, utils[0], p)
        + spec_util_suffix_weight(c, utils, p, 1));
    assert(spec_cell_suffix_weight(cells, utils, p, 0) == spec_util_suffix_weight(
        cells[0],
        utils,
        p,
        0,
    ) + spec_cell_suffix_weight(cells, utils, p, 1));
}

/// Builds one demographic cell; the premium-to-benefit-base ratio is 1.3
/// throughout the base inforce.
fn cell(
    qual_status: QualStatus,
    issue_age: u8,
    gender: Gender,
    benefit_base_bucket: BenefitBaseBucket,
    base_weight: u64,
    pols_per_premium: u64,
) -> (r: DemographicCell)
    requires
        base_weight <= RATE_ONE,
        pols_per_premium <= MAX_POLS_PER_PREMIUM,
    ensures
        spec_cell_wf(r),
        r.qual_status == qual_status,
        r.issue_age == issue_age,
        r.gender == gender,
        r.benefit_base_bucket == benefit_base_bucket,
        r.base_weight == base_weight,
        r.bb_to_premium_ratio == 13_000_000_000u64,
        r.pols_per_premium == pols_per_premium,
{
    DemographicCell {
        qual_status,
        issue_age,
        gender,
        benefit_base_bucket,
        base_weight,
        bb_to_premium_ratio: 13_000_000_000,
        pols_per_premium,
    }
}

/// Builds one utilization entry.
fn util(glwb_start_year: u32, percentage: u64) -> (r: UtilizationRate)
    requires
        percentage <= RATE_ONE,
    ensures
        spec_util_wf(r),
        r.glwb_start_year == glwb_start_year,
        r.percentage == percentage,
{
    UtilizationRate { glwb_start_year, percentage }
}

/// The aggregated base-inforce demographics: one cell for each combination
/// of qualification status, issue age, gender and benefit-base bucket.
fn build_demographic_cells() -> (r: Vec<DemographicCell>)
    ensures
        r@ =~= spec_default_cells(),
        r@.len() == 100,
        forall|i: int| 0 <= i < r@.len() ==> spec_cell_wf(#[trigger] r@[i]),
        forall|i: int| 0 <= i < r@.len() ==> (#[trigger] r@[i]).base_weight >= MIN_CELL_WEIGHT,
        forall|i: int| 0 <= i < r@.len() ==> (#[trigger] r@[i]).pols_per_premium
            >= MIN_POLS_PER_PREMIUM,
        forall|i: int| 0 <= i < r@.len() ==> (#[trigger] r@[i]).bb_to_premium_ratio
            == 13_000_000_000u64,
{
    let cells: Vec<DemographicCell> = vec![
        cell(QualStatus::N, 57, Gender::Female, BenefitBaseBucket::Under50k, 9_088_384, 465_703),
        cell(QualStatus::N, 57, Gender::Female, BenefitBaseBucket::From50kTo100k, 16_700_474, 198_933),
        cell(QualStatus::N, 57, Gender::Female, BenefitBaseBucket::From100kTo200k, 37_518_498, 104_320),
        cell(QualStatus::N, 57, Gender::Female, BenefitBaseBucket::From200kTo500k, 52_106_508, 46_509),
        cell(QualStatus::N, 57, Gender::Female, BenefitBaseBucket::Over500k, 19_357_818, 21_159),
        cell(QualStatus::N, 57, Gender::Male, BenefitBaseBucket::Under50k, 5_666_217, 467_860),
        cell(QualStatus::N, 57, Gender::Male, BenefitBaseBucket::From50kTo100k, 13_776_594, 200_686),
        cell(QualStatus::N, 57, Gender::Male, BenefitBaseBucket::From100kTo200k, 33_360_405, 105_726),
        cell(QualStatus::N, 57, Gender::Male, BenefitBaseBucket::From200kTo500k, 45_829_830, 47_417),
        cell(QualStatus::N, 57, Gender::Male, BenefitBaseBucket::Over500k, 39_822_665, 20_857),
        cell(QualStatus::N, 62, Gender::Female, BenefitBaseBucket::Under50k, 12_627_984, 432_474),
        cell(QualStatus::N, 62, Gender::Female, BenefitBaseBucket::From50kTo100k, 30_721_965, 189_245),
        cell(QualStatus::N, 62, Gender::Female, BenefitBaseBucket::From100kTo200k, 75_322_688, 97_278),
        cell(QualStatus::N, 62, Gender::Female, BenefitBaseBucket::From200kTo500k, 99_602_441, 46_720),
        cell(QualStatus::N, 62, Gender::Female, BenefitBaseBucket::Over500k, 42_468_426, 19_289),
        cell(QualStatus::N, 62, Gender::Male, BenefitBaseBucket::Under50k, 11_891_259, 450_657),
        cell(QualStatus::N, 62, Gender::Male, BenefitBaseBucket::From50kTo100k, 32_639_381, 197_300),
        cell(QualStatus::N, 62, Gender::Male, BenefitBaseBucket::From100kTo200k, 69_055_586, 101_987),
        cell(QualStatus::N, 62, Gender::Male, BenefitBaseBucket::From200kTo500k, 124_235_655, 45_699),
        cell(QualStatus::N, 62, Gender::Male, BenefitBaseBucket::Over500k, 77_321_023, 17_069),
        cell(QualStatus::N, 67, Gender::Female, BenefitBaseBucket::Under50k, 15_433_994, 420_931),
        cell(QualStatus::N, 67, Gender::Female, BenefitBaseBucket::From50kTo100k, 38_432_176, 188_581),
        cell(QualStatus::N, 67, Gender::Female, BenefitBaseBucket::From100kTo200k, 93_190_765, 99_992),
        cell(QualStatus::N, 67, Gender::Female, BenefitBaseBucket::From200kTo500k, 122_689_747, 45_626),
        cell(QualStatus::N, 67, Gender::Female, BenefitBaseBucket::Over500k, 49_711_141, 18_081),
        cell(QualStatus::N, 67, Gender::Male, BenefitBaseBucket::Under50k, 13_496_194, 426_572),
        cell(QualStatus::N, 67, Gender::Male, BenefitBaseBucket::From50kTo100k, 40_339_383, 196_870),
        cell(QualStatus::N, 67, Gender::Male, BenefitBaseBucket::From100kTo200k, 92_925_930, 99_297),
        cell(QualStatus::N, 67, Gender::Male, BenefitBaseBucket::From200kTo500k, 123_062_309, 46_135),
        cell(QualStatus::N, 67, Gender::Male, BenefitBaseBucket::Over500k, 97_612_917, 17_134),
        cell(QualStatus::N, 72, Gender::Female, BenefitBaseBucket::Under50k, 14_501_436, 444_862),
        cell(QualStatus::N, 72, Gender::Female, BenefitBaseBucket::From50kTo100k, 39_342_324, 191_159),
        cell(QualStatus::N, 72, Gender::Female, BenefitBaseBucket::From100kTo200k, 85_403_775, 100_583),
        cell(QualStatus::N, 72, Gender::Female, BenefitBaseBucket::From200kTo500k, 121_846_274, 46_875),
        cell(QualStatus::N, 72, Gender::Female, BenefitBaseBucket::Over500k, 47_865_795, 19_016),
        cell(QualStatus::N, 72, Gender::Male, BenefitBaseBucket::Under50k, 13_222_255, 425_944),
        cell(QualStatus::N, 72, Gender::Male, BenefitBaseBucket::From50kTo100k, 33_266_226, 194_608),
        cell(QualStatus::N, 72, Gender::Male, BenefitBaseBucket::From100kTo200k, 87_869_354, 100_350),
        cell(QualStatus::N, 72, Gender::Male, BenefitBaseBucket::From200kTo500k, 141_311_099, 45_733),
        cell(QualStatus::N, 72, Gender::Male, BenefitBaseBucket::Over500k, 61_983_865, 18_723),
        cell(QualStatus::N, 77, Gender::Female, BenefitBaseBucket::Under50k, 13_038_629, 436_306),
        cell(QualStatus::N, 77, Gender::Female, BenefitBaseBucket::From50kTo100k, 34_898_805, 189_743),
        cell(QualStatus::N, 77, Gender::Female, BenefitBaseBucket::From100kTo200k, 75_870_913, 100_174),
        cell(QualStatus::N, 77, Gender::Female, BenefitBaseBucket::From200kTo500k, 98_199_849, 46_345),
        cell(QualStatus::N, 77, Gender::Female, BenefitBaseBucket::Over500k, 34_597_776, 20_718),
        cell(QualStatus::N, 77, Gender::Male, BenefitBaseBucket::Under50k, 9_282_650, 413_058),
        cell(QualStatus::N, 77, Gender::Male, BenefitBaseBucket::From50kTo100k, 24_116_374, 192_015),
        cell(QualStatus::N, 77, Gender::Male, BenefitBaseBucket::From100kTo200k, 53_150_746, 99_326),
        cell(QualStatus::N, 77, Gender::Male, BenefitBaseBucket::From200kTo500k, 69_946_584, 46_521),
        cell(QualStatus::N, 77, Gender::Male, BenefitBaseBucket::Over500k, 30_539_619, 20_118),
        cell(QualStatus::Q, 57, Gender::Female, BenefitBaseBucket::Under50k, 19_436_203, 422_063),
        cell(QualStatus::Q, 57, Gender::Female, BenefitBaseBucket::From50kTo100k, 49_867_748, 189_598),
        cell(QualStatus::Q, 57, Gender::Female, BenefitBaseBucket::From100kTo200k, 137_556_748, 98_593),
        cell(QualStatus::Q, 57, Gender::Female, BenefitBaseBucket::From200kTo500k, 200_372_920, 47_868),
        cell(QualStatus::Q, 57, Gender::Female, BenefitBaseBucket::Over500k, 73_878_261, 20_483),
        cell(QualStatus::Q, 57, Gender::Male, BenefitBaseBucket::Under50k, 13_065_432, 439_765),
        cell(QualStatus::Q, 57, Gender::Male, BenefitBaseBucket::From50kTo100k, 44_466_984, 189_854),
        cell(QualStatus::Q, 57, Gender::Male, BenefitBaseBucket::From100kTo200k, 150_321_249, 98_320),
        cell(QualStatus::Q, 57, Gender::Male, BenefitBaseBucket::From200kTo500k, 280_989_220, 46_160),
        cell(QualStatus::Q, 57, Gender::Male, BenefitBaseBucket::Over500k, 102_441_597, 19_658),
        cell(QualStatus::Q, 62, Gender::Female, BenefitBaseBucket::Under50k, 31_516_706, 411_184),
        cell(QualStatus::Q, 62, Gender::Female, BenefitBaseBucket::From50kTo100k, 109_928_723, 185_990),
        cell(QualStatus::Q, 62, Gender::Female, BenefitBaseBucket::From100kTo200k, 298_317_213, 95_654),
        cell(QualStatus::Q, 62, Gender::Female, BenefitBaseBucket::From200kTo500k, 463_375_999, 46_628),
        cell(QualStatus::Q, 62, Gender::Female, BenefitBaseBucket::Over500k, 124_657_093, 20_171),
        cell(QualStatus::Q, 62, Gender::Male, BenefitBaseBucket::Under50k, 25_804_785, 417_545),
        cell(QualStatus::Q, 62, Gender::Male, BenefitBaseBucket::From50kTo100k, 97_172_177, 193_429),
        cell(QualStatus::Q, 62, Gender::Male, BenefitBaseBucket::From100kTo200k, 347_338_258, 98_434),
        cell(QualStatus::Q, 62, Gender::Male, BenefitBaseBucket::From200kTo500k, 725_250_764, 46_028),
        cell(QualStatus::Q, 62, Gender::Male, BenefitBaseBucket::Over500k, 301_196_740, 19_265),
        cell(QualStatus::Q, 67, Gender::Female, BenefitBaseBucket::Under50k, 34_949_566, 391_956),
        cell(QualStatus::Q, 67, Gender::Female, BenefitBaseBucket::From50kTo100k, 97_816_610, 184_012),
        cell(QualStatus::Q, 67, Gender::Female, BenefitBaseBucket::From100kTo200k, 243_278_247, 97_091),
        cell(QualStatus::Q, 67, Gender::Female, BenefitBaseBucket::From200kTo500k, 378_745_362, 46_172),
        cell(QualStatus::Q, 67, Gender::Female, BenefitBaseBucket::Over500k, 116_479_219, 20_708),
        cell(QualStatus::Q, 67, Gender::Male, BenefitBaseBucket::Under50k, 24_258_913, 408_038),
        cell(QualStatus::Q, 67, Gender::Male, BenefitBaseBucket::From50kTo100k, 98_179_558, 183_680),
        cell(QualStatus::Q, 67, Gender::Male, BenefitBaseBucket::From100kTo200k, 306_969_894, 98_999),
        cell(QualStatus::Q, 67, Gender::Male, BenefitBaseBucket::From200kTo500k, 644_354_866, 45_697),
        cell(QualStatus::Q, 67, Gender::Male, BenefitBaseBucket::Over500k, 262_050_715, 20_189),
        cell(QualStatus::Q, 72, Gender::Female, BenefitBaseBucket::Under50k, 20_744_933, 397_630),
        cell(QualStatus::Q, 72, Gender::Female, BenefitBaseBucket::From50kTo100k, 62_453_015, 181_997),
        cell(QualStatus::Q, 72, Gender::Female, BenefitBaseBucket::From100kTo200k, 138_438_925, 93_527),
        cell(QualStatus::Q, 72, Gender::Female, BenefitBaseBucket::From200kTo500k, 209_000_022, 44_367),
        cell(QualStatus::Q, 72, Gender::Female, BenefitBaseBucket::Over500k, 57_075_570, 18_738),
        cell(QualStatus::Q, 72, Gender::Male, BenefitBaseBucket::Under50k, 14_879_832, 402_963),
        cell(QualStatus::Q, 72, Gender::Male, BenefitBaseBucket::From50kTo100k, 52_891_014, 176_825),
        cell(QualStatus::Q, 72, Gender::Male, BenefitBaseBucket::From100kTo200k, 153_710_041, 95_486),
        cell(QualStatus::Q, 72, Gender::Male, BenefitBaseBucket::From200kTo500k, 316_566_493, 44_567),
        cell(QualStatus::Q, 72, Gender::Male, BenefitBaseBucket::Over500k, 130_669_421, 18_198),
        cell(QualStatus::Q, 77, Gender::Female, BenefitBaseBucket::Under50k, 9_944_025, 408_469),
        cell(QualStatus::Q, 77, Gender::Female, BenefitBaseBucket::From50kTo100k, 28_450_231, 180_761),
        cell(QualStatus::Q, 77, Gender::Female, BenefitBaseBucket::From100kTo200k, 57_428_956, 95_096),
        cell(QualStatus::Q, 77, Gender::Female, BenefitBaseBucket::From200kTo500k, 67_448_145, 45_714),
        cell(QualStatus::Q, 77, Gender::Female, BenefitBaseBucket::Over500k, 16_317_348, 20_221),
        cell(QualStatus::Q, 77, Gender::Male, BenefitBaseBucket::Under50k, 10_227_169, 380_473),
        cell(QualStatus::Q, 77, Gender::Male, BenefitBaseBucket::From50kTo100k, 25_384_642, 176_595),
        cell(QualStatus::Q, 77, Gender::Male, BenefitBaseBucket::From100kTo200k, 61_192_286, 94_826),
        cell(QualStatus::Q, 77, Gender::Male, BenefitBaseBucket::From200kTo500k, 96_643_085, 46_150),
        cell(QualStatus::Q, 77, Gender::Male, BenefitBaseBucket::Over500k, 40_234_378, 18_664),
    ];
    cells
}

/// The incremental rider utilization by activation year; the final entry is
/// the share that never activates.
fn build_utilization_rates() -> (r: Vec<UtilizationRate>)
    ensures
        r@ =~= spec_default_utilization(),
        r@.len() == 14,
        forall|i: int| 0 <= i < r@.len() ==> spec_util_wf(#[trigger] r@[i]),
        forall|i: int| 0 <= i < r@.len() ==> (#[trigger] r@[i]).percentage >= MIN_UTILIZATION,
{
    let rates: Vec<UtilizationRate> = vec![
        util(1, 12_735_160),
        util(2, 8_607_130),
        util(3, 24_944_090),
        util(4, 36_539_750),
        util(5, 52_282_510),
        util(6, 73_031_000),
        util(7, 99_526_720),
        util(8, 132_231_400),
        util(9, 287_011_360),
        util(10, 355_835_490),
        util(12, 1_490_581_890),
        util(15, 2_413_443_290),
        util(20, 2_453_262_370),
        util(99, 2_559_967_830),
    ];
    rates
}

/// Pre-computed base template for generating policies.
pub struct InforceTemplate {
    cells: Vec<DemographicCell>,
    utilization: Vec<UtilizationRate>,
}

impl InforceTemplate {
    pub closed spec fn cells_view(self) -> Seq<DemographicCell> {
        self.cells@
    }

    pub closed spec fn utils_view(self) -> Seq<UtilizationRate> {
        self.utilization@
    }

    pub open spec fn wf(self) -> bool {
        &&& forall|i: int|
            0 <= i < self.cells_view().len() ==> spec_cell_wf(#[trigger] self.cells_view()[i])
        &&& forall|i: int|
            0 <= i < self.utils_view().len() ==> spec_util_wf(#[trigger] self.utils_view()[i])
        &&& self.cells_view().len() <= 100_000
        &&& self.utils_view().len() <= 10_000
    }

    /// Creates the template from the base demographic and utilization data.
    pub fn new() -> (r: Self)
        ensures
            r.wf(),
            r.cells_view() =~= spec_default_cells(),
            r.utils_view() =~= spec_default_utilization(),
            r.cells_view().len() == 100,
            r.utils_view().len() == 14,
            forall|i: int|
                0 <= i < r.cells_view().len() ==> (#[trigger] r.cells_view()[i]).base_weight
                    >= MIN_CELL_WEIGHT,
            forall|i: int|
                0 <= i < r.cells_view().len() ==> (#[trigger] r.cells_view()[i]).pols_per_premium
                    >= MIN_POLS_PER_PREMIUM,
            forall|i: int|
                0 <= i < r.cells_view().len() ==> (
                #[trigger] r.cells_view()[i]).bb_to_premium_ratio == 13_000_000_000u64,
            forall|i: int|
                0 <= i < r.utils_view().len() ==> (#[trigger] r.utils_view()[i]).percentage
                    >= MIN_UTILIZATION,
    {
        let cells = build_demographic_cells();
        let utilization = build_utilization_rates();
        Self { cells, utilization }
    }

    /// Creates the default template.
    pub fn default() -> (r: Self)
        ensures
            r.wf(),
            r.cells_view() =~= spec_default_cells(),
            r.utils_view() =~= spec_default_utilization(),
            r.cells_view().len() == 100,
            r.utils_view().len() == 14,
            forall|i: int|
                0 <= i < r.cells_view().len() ==> (#[trigger] r.cells_view()[i]).base_weight
                    >= MIN_CELL_WEIGHT,
            forall|i: int|
                0 <= i < r.utils_view().len() ==> (#[trigger] r.utils_view()[i]).percentage
                    >= MIN_UTILIZATION,
    {
        Self::new()
    }

    /// Generates the block of policies for the parameters. Each (cell,
    /// utilization) pair yields one policy per strategy with a positive
    /// share. Premiums are the pair weights scaled to the target: whenever
    /// the template carries any weight, the premiums provably add up to the
    /// target, short of it by less than one micro-dollar per policy.
    pub fn generate(&self, params: &InforceParams) -> (r: Vec<Policy>)
        requires
            self.wf(),
            params.wf(),
        ensures
            r@.len() == self.cells_view().len() * self.utils_view().len() * ((if params.fixed_pct
                > 0 {
                1int
            } else {
                0int
            }) + (if params.fixed_pct < RATE_ONE {
                1int
            } else {
                0int
            })),
            forall|i: int|
                0 <= i < r@.len() ==> spec_generated_policy_ok(#[trigger] r@[i], i, *params),
            forall|i: int|
                0 <= i < r@.len() ==> spec_policy_provenance(
                    #[trigger] r@[i],
                    self.cells_view(),
                    self.utils_view(),
                    *params,
                ),
            (forall|j: int|
                0 <= j < self.cells_view().len() ==> (
                #[trigger] self.cells_view()[j]).bb_to_premium_ratio == 13_000_000_000u64)
                ==> forall|i: int|
                0 <= i < r@.len() ==> (#[trigger] r@[i]).initial_benefit_base == rmul(
                    rmul(r@[i].initial_premium as int, 13_000_000_000int),
                    RATE_ONE + params.bonus,
                ),
            spec_total_weight(self.cells_view(), self.utils_view(), *params) > 0 ==> {
                &&& spec_premium_sum(r@, 0) <= params.target_premium
                &&& params.target_premium <= spec_premium_sum(r@, 0) + r@.len()
            },
    {
        let ghost cseq = self.cells@;
        let ghost useq = self.utilization@;
        let total: u128 = total_weight(&self.cells, &self.utilization, params);
        let indexed_pct: u64 = RATE_ONE - params.fixed_pct;
        let ghost strategies: int = (if params.fixed_pct > 0 {
            1int
        } else {
            0int
        }) + (if params.fixed_pct < RATE_ONE {
            1int
        } else {
            0int
        });
        let mut policies: Vec<Policy> = Vec::new();
        let ghost mut wsum: int = 0;
        let mut policy_id: u32 = 1;
        let mut j: usize = 0;
        while j < self.cells.len()
            invariant
                self.wf(),
                params.wf(),
                cseq == self.cells@,
                useq == self.utilization@,
                indexed_pct == RATE_ONE - params.fixed_pct,
                strategies == (if params.fixed_pct > 0 {
                    1int
                } else {
                    0int
                }) + (if params.fixed_pct < RATE_ONE {
                    1int
                } else {
                    0int
                }),
                total == spec_total_weight(cseq, useq, *params),
                0 <= j <= cseq.len(),
                wsum + spec_cell_suffix_weight(cseq, useq, *params, j as int)
                    == spec_total_weight(cseq, useq, *params),
                0 <= wsum,
                policies@.len() == (j as int) * (useq.len() * strategies),
                policy_id == policies@.len() + 1,
                total > 0 ==> total * spec_premium_sum(policies@, 0) <= wsum
                    * params.target_premium,
                total > 0 ==> wsum * params.target_premium <= total * (spec_premium_sum(
                    policies@,
                    0,
                ) + policies@.len()),
                forall|i: int|
                    0 <= i < policies@.len() ==> spec_generated_policy_ok(
                        #[trigger] policies@[i],
                        i,
                        *params,
                    ),
                forall|i: int|
                    0 <= i < policies@.len() ==> spec_policy_provenance(
                        #[trigger] policies@[i],
                        cseq,
                        useq,
                        *params,
                    ),
            decreases cseq.len() - j,
        {
            let c = self.cells[j];
            let cm = cell_mult(&c, params);
            proof {
                assert(spec_cell_suffix_weight(cseq, useq, *params, j as int)
                    == spec_util_suffix_weight(cseq[j as int], useq, *params, 0)
                    + spec_cell_suffix_weight(cseq, useq, *params, j as int + 1));
            }
            let mut k: usize = 0;
            while k < self.utilization.len()
                invariant
                    self.wf(),
                    params.wf(),
                    cseq == self.cells@,
                    useq == self.utilization@,
                    indexed_pct == RATE_ONE - params.fixed_pct,
                    strategies == (if params.fixed_pct > 0 {
                        1int
                    } else {
                        0int
                    }) + (if params.fixed_pct < RATE_ONE {
                        1int
                    } else {
                        0int
                    }),
                    total == spec_total_weight(cseq, useq, *params),
                    0 <= j < cseq.len(),
                    0 <= k <= useq.len(),
                    c == cseq[j as int],
                    spec_cell_wf(c),
                    cm == spec_cell_mult(c, *params),
                    cm <= 10_000_000_000_000_000u64,
                    wsum + spec_util_suffix_weight(c, useq, *params, k as int)
                        + spec_cell_suffix_weight(cseq, useq, *params, j as int + 1)
                        == spec_total_weight(cseq, useq, *params),
                    0 <= wsum,
                    policies@.len() == (j as int) * (useq.len() * strategies) + (k as int)
                        * strategies,
                    policy_id == policies@.len() + 1,
                    total > 0 ==> total * spec_premium_sum(policies@, 0) <= wsum
                        * params.target_premium,
                    total > 0 ==> wsum * params.target_premium <= total * (spec_premium_sum(
                        policies@,
                        0,
                    ) + policies@.len()),
                    forall|i: int|
                        0 <= i < policies@.len() ==> spec_generated_policy_ok(
                            #[trigger] policies@[i],
                            i,
                            *params,
                        ),
                    forall|i: int|
                        0 <= i < policies@.len() ==> spec_policy_provenance(
                            #[trigger] policies@[i],
                            cseq,
                            useq,
                            *params,
                        ),
                decreases useq.len() - k,
            {
                let u = self.utilization[k];
                proof {
                    assert(policies@.len() + 2 < 4_294_967_295int) by (nonlinear_arith)
                        requires
                            policies@.len() == (j as int) * (useq.len() * strategies) + (
                            k as int) * strategies,
                            0 <= (j as int),
                            (j as int) < 100_000,
                            0 <= (k as int),
                            (k as int) < 10_000,
                            useq.len() <= 10_000,
                            0 <= strategies,
                            strategies <= 2,
                    ;
                    assert(spec_util_suffix_weight(c, useq, *params, k as int)
                        == spec_pair_weight_both(c, useq[k as int], *params)
                        + spec_util_suffix_weight(c, useq, *params, k as int + 1));
                    lemma_util_suffix_nonneg(c, useq, *params, k as int + 1);
                    lemma_cell_suffix_nonneg(cseq, useq, *params, j as int + 1);
                    lemma_cell_mult_bounds(c, *params);
                    lemma_pair_weight_nonneg(
                        c.base_weight as int,
                        u.percentage as int,
                        params.fixed_pct as int,
                        cm as int,
                    );
                    lemma_pair_weight_nonneg(
                        c.base_weight as int,
                        u.percentage as int,
                        indexed_pct as int,
                        cm as int,
                    );
                }
                if params.fixed_pct > 0 {
                    let w = pair_weight(c.base_weight, u.percentage, params.fixed_pct, cm);
                    let premium = scaled_premium(w, params.target_premium, total);
                    proof {
                        assert((w as int) <= total as int);
                        if total > 0 {
                            lemma_scale_step(
                                total as int,
                                params.target_premium as int,
                                spec_premium_sum(policies@, 0),
                                wsum,
                                policies@.len() as int,
                                w as int,
                                premium as int,
                            );
                        }
                    }
                    let pol = self.build_policy(
                        policy_id,
                        &c,
                        &u,
                        params,
                        premium,
                        u.percentage,
                        params.fixed_pct,
                        cm,
                        CreditingStrategy::Fixed,
                    );
                    let ghost old_policies = policies@;
                    policies.push(pol);
                    proof {
                        lemma_premium_sum_push(old_policies, pol, 0);
                        wsum = wsum + w as int;
                        assert(spec_policy_from_pair(pol, cseq[j as int], useq[k as int], *params));
                        assert(spec_policy_provenance(pol, cseq, useq, *params));
                    }
                    policy_id = policy_id + 1;
                } else {
                    proof {
                        lemma_zero_pair_weight(c.base_weight as int, u.percentage as int, cm as int);
                        wsum = wsum + spec_pair_weight(
                            c.base_weight as int,
                            u.percentage as int,
                            0,
                            cm as int,
                        );
                    }
                }
                if indexed_pct > 0 {
                    let w = pair_weight(c.base_weight, u.percentage, indexed_pct, cm);
                    let premium = scaled_premium(w, params.target_premium, total);
                    proof {
                        assert((w as int) <= total as int);
                        if total > 0 {
                            lemma_scale_step(
                                total as int,
                                params.target_premium as int,
                                spec_premium_sum(policies@, 0),
                                wsum,
                                policies@.len() as int,
                                w as int,
                                premium as int,
                            );
                        }
                    }
                    let pol = self.build_policy(
                        policy_id,
                        &c,
                        &u,
                        params,
                        premium,
                        u.percentage,
                        indexed_pct,
                        cm,
                        CreditingStrategy::Indexed,
                    );
                    let ghost old_policies = policies@;
                    policies.push(pol);
                    proof {
                        lemma_premium_sum_push(old_policies, pol, 0);
                        wsum = wsum + w as int;
                        assert(spec_policy_from_pair(pol, cseq[j as int], useq[k as int], *params));
                        assert(spec_policy_provenance(pol, cseq, useq, *params));
                    }
                    policy_id = policy_id + 1;
                } else {
                    proof {
                        lemma_zero_pair_weight(c.base_weight as int, u.percentage as int, cm as int);
                        wsum = wsum + spec_pair_weight(
                            c.base_weight as int,
                            u.percentage as int,
                            0,
                            cm as int,
                        );
                    }
                }
                proof {
                    assert(policies@.len() == (j as int) * (useq.len() * strategies) + (k as int
                        + 1) * strategies) by (nonlinear_arith)
                        requires
                            policies@.len() == (j as int) * (useq.len() * strategies) + (k as int)
                                * strategies + strategies,
                    ;
                }
                k += 1;
            }
            proof {
                assert(spec_util_suffix_weight(c, useq, *params, useq.len() as int) == 0);
                assert(policies@.len() == (j as int + 1) * (useq.len() * strategies))
                    by (nonlinear_arith)
                    requires
                        policies@.len() == (j as int) * (useq.len() * strategies) + (useq.len()
                            as int) * strategies,
                ;
            }
            j += 1;
        }
        proof {
            if forall|jj: int|
                0 <= jj < cseq.len() ==> (#[trigger] cseq[jj]).bb_to_premium_ratio
                    == 13_000_000_000u64 {
                assert forall|i: int|
                    0 <= i < policies@.len() implies (#[trigger] policies@[i]).initial_benefit_base
                    == rmul(
                    rmul(policies@[i].initial_premium as int, 13_000_000_000int),
                    RATE_ONE + params.bonus,
                ) by {
                    let (jj, kk): (int, int) = choose|jj: int, kk: int|
                        #![trigger cseq[jj], useq[kk]]
                        {
                            &&& 0 <= jj < cseq.len()
                            &&& 0 <= kk < useq.len()
                            &&& spec_policy_from_pair(policies@[i], cseq[jj], useq[kk], *params)
                        };
                    assert(cseq[jj].bb_to_premium_ratio == 13_000_000_000u64);
                }
            }
            assert(spec_cell_suffix_weight(cseq, useq, *params, cseq.len() as int) == 0);
            assert(policies@.len() == cseq.len() * useq.len() * strategies) by (nonlinear_arith)
                requires
                    policies@.len() == cseq.len() * (useq.len() * strategies),
            ;
            if total > 0 {
                let psum = spec_premium_sum(policies@, 0);
                let cnt = policies@.len() as int;
                let tp = params.target_premium as int;
                assert(wsum == total as int);
                assert(psum <= tp) by (nonlinear_arith)
                    requires
                        total as int > 0,
                        (total as int) * psum <= (total as int) * tp,
                ;
                assert(tp <= psum + cnt) by (nonlinear_arith)
                    requires
                        total as int > 0,
                        (total as int) * tp <= (total as int) * (psum + cnt),
                ;
            }
        }
        policies
    }

    /// Builds one generated policy.
    fn build_policy(
        &self,
        policy_id: u32,
        c: &DemographicCell,
        u: &UtilizationRate,
        params: &InforceParams,
        premium: u64,
        util_pct: u64,
        strategy_pct: u64,
        cm: u64,
        strategy: CreditingStrategy,
    ) -> (r: Policy)
        requires
            params.wf(),
            spec_cell_wf(*c),
            util_pct <= RATE_ONE,
            strategy_pct <= RATE_ONE,
            premium <= MAX_TARGET_PREMIUM,
        ensures
            r.policy_id == policy_id,
            r.initial_premium == premium,
            r.crediting_strategy == strategy,
            r.qual_status == c.qual_status,
            r.gender == c.gender,
            r.issue_age == c.issue_age,
            r.benefit_base_bucket == c.benefit_base_bucket,
            r.glwb_start_year == u.glwb_start_year,
            r.bonus == params.bonus,
            r.sc_period == 10,
            r.val_rate == 475_000_000u64,
            r.mgir == 100_000_000u64,
            r.rollup_type is Simple,
            r.duration_months == 0,
            !r.income_activated,
            r.current_av is None,
            r.current_benefit_base is None,
            r.percentage == spec_pair_weight(
                RATE_ONE as int,
                util_pct as int,
                strategy_pct as int,
                cm as int,
            ),
            r.initial_benefit_base == rmul(
                rmul(premium as int, c.bb_to_premium_ratio as int),
                RATE_ONE + params.bonus,
            ),
            r.initial_pols == premium as int * c.pols_per_premium as int
                / crate::fixed::MICROS_PER_DOLLAR as int,
    {
        let percentage = pair_weight(RATE_ONE, util_pct, strategy_pct, cm);
        let bb1 = scale_amount(premium, c.bb_to_premium_ratio);
        let initial_benefit_base = scale_amount(bb1, RATE_ONE + params.bonus);
        proof {
            lemma_u64_mul_fits(premium as int, c.pols_per_premium as int);
            assert((premium as int) * (c.pols_per_premium as int) <= (MAX_TARGET_PREMIUM as int)
                * (MAX_POLS_PER_PREMIUM as int)) by (nonlinear_arith)
                requires
                    0 <= premium as int <= MAX_TARGET_PREMIUM as int,
                    0 <= c.pols_per_premium as int <= MAX_POLS_PER_PREMIUM as int,
            ;
            vstd::arithmetic::div_mod::lemma_div_is_ordered(
                (premium as int) * (c.pols_per_premium as int),
                (MAX_TARGET_PREMIUM as int) * (MAX_POLS_PER_PREMIUM as int),
                crate::fixed::MICROS_PER_DOLLAR as int,
            );
        }
        let initial_pols: u64 = ((premium as u128) * (c.pols_per_premium as u128) / (
        crate::fixed::MICROS_PER_DOLLAR as u128)) as u64;
        Policy {
            policy_id,
            qual_status: c.qual_status,
            issue_age: c.issue_age,
            gender: c.gender,
            initial_benefit_base,
            initial_pols,
            initial_premium: premium,
            benefit_base_bucket: c.benefit_base_bucket,
            percentage,
            crediting_strategy: strategy,
            sc_period: 10,
            val_rate: 475_000_000,
            mgir: 100_000_000,
            bonus: params.bonus,
            rollup_type: RollupType::Simple,
            duration_months: 0,
            income_activated: false,
            glwb_start_year: u.glwb_start_year,
            current_av: None,
            current_benefit_base: None,
        }
    }
}

/// How one generated policy relates to the cell and utilization entry it
/// came from: the demographics, bucket and activation year are the pair's,
/// the benefit base is the premium at the cell's ratio plus the requested
/// bonus, and the lives follow the cell's lives-per-premium rate.
pub open spec fn spec_policy_from_pair(
    pol: Policy,
    c: DemographicCell,
    u: UtilizationRate,
    p: InforceParams,
) -> bool {
    &&& pol.qual_status == c.qual_status
    &&& pol.issue_age == c.issue_age
    &&& pol.gender == c.gender
    &&& pol.benefit_base_bucket == c.benefit_base_bucket
    &&& pol.glwb_start_year == u.glwb_start_year
    &&& pol.initial_benefit_base == rmul(
        rmul(pol.initial_premium as int, c.bb_to_premium_ratio as int),
        RATE_ONE + p.bonus,
    )
    &&& pol.initial_pols == pol.initial_premium as int * c.pols_per_premium as int / (
    MICROS_PER_DOLLAR as int)
}

/// Every generated policy descends from some (cell, utilization) pair of
/// the template.
pub open spec fn spec_policy_provenance(
    pol: Policy,
    cells: Seq<DemographicCell>,
    utils: Seq<UtilizationRate>,
    p: InforceParams,
) -> bool {
    exists|j: int, k: int|
        #![trigger cells[j], utils[k]]
        {
            &&& 0 <= j < cells.len()
            &&& 0 <= k < utils.len()
            &&& spec_policy_from_pair(pol, cells[j], utils[k], p)
        }
}

/// What every generated policy looks like: sequential identifiers, the
/// requested bonus, the standard product terms, new business, and the
/// strategy forced by a one-sided split.
pub open spec fn spec_generated_policy_ok(pol: Policy, i: int, params: InforceParams) -> bool {
    &&& pol.policy_id == i + 1
    &&& pol.bonus == params.bonus
    &&& pol.sc_period == 10
    &&& pol.val_rate == 475_000_000u64
    &&& pol.mgir == 100_000_000u64
    &&& pol.rollup_type is Simple
    &&& pol.duration_months == 0
    &&& !pol.income_activated
    &&& pol.current_av is None
    &&& pol.current_benefit_base is None
    &&& (params.fixed_pct == RATE_ONE ==> pol.crediting_strategy is Fixed)
    &&& (params.fixed_pct == 0 ==> pol.crediting_strategy is Indexed)
    &&& pol.initial_premium <= params.target_premium
}

/// A pair weight with a zero strategy share is zero.
pub proof fn lemma_zero_pair_weight(bw: int, util: int, cm: int)
    ensures
        spec_pair_weight(bw, util, 0, cm) == 0,
{
    vstd::arithmetic::mul::lemma_mul_basics(rmul(bw, util));
    vstd::arithmetic::mul::lemma_mul_basics(cm);
    assert(rmul(rmul(bw, util), 0) == 0);
    assert(rmul(0, cm) == 0);
}

/// Applies a possibly above-one rate to an amount of at most twice the
/// largest target premium.
fn scale_amount(a: u64, r: u64) -> (res: u64)
    requires
        a <= 2 * MAX_TARGET_PREMIUM,
        r <= 2 * RATE_ONE,
    ensures
        res == rmul(a as int, r as int),
        res <= 2 * a,
{
    proof {
        lemma_u64_mul_fits(a as int, r as int);
        assert((a as int) * (r as int) <= (2 * a as int) * (RATE_ONE as int))
            by (nonlinear_arith)
            requires
                0 <= a as int,
                0 <= r as int <= 2 * RATE_ONE as int,
        ;
        vstd::arithmetic::div_mod::lemma_div_is_ordered(
            (a as int) * (r as int),
            (2 * a as int) * (RATE_ONE as int),
            RATE_ONE as int,
        );
        vstd::arithmetic::div_mod::lemma_div_by_multiple(2 * a as int, RATE_ONE as int);
    }
    ((a as u128) * (r as u128) / (RATE_ONE as u128)) as u64
}

/// The premium of one generated policy: its weight scaled to the target.
fn scaled_premium(w: u64, target: u64, total: u128) -> (r: u64)
    requires
        w as int <= total as int,
    ensures
        total > 0 ==> r == (w as int) * (target as int) / (total as int),
        total == 0 ==> r == 0,
        r <= target,
{
    if total == 0 {
        return 0;
    }
    proof {
        lemma_u64_mul_fits(w as int, target as int);
        assert((w as int) * (target as int) <= (total as int) * (target as int))
            by (nonlinear_arith)
            requires
                0 <= w as int <= total as int,
                0 <= target as int,
        ;
        vstd::arithmetic::div_mod::lemma_div_is_ordered(
            (w as int) * (target as int),
            (total as int) * (target as int),
            total as int,
        );
        vstd::arithmetic::div_mod::lemma_div_by_multiple(target as int, total as int);
        assert((total as int) * (target as int) == (target as int) * (total as int))
            by (nonlinear_arith);
    }
    ((w as u128) * (target as u128) / total) as u64
}

/// The total weight of a template under parameters, exactly.
fn total_weight(
    cells: &Vec<DemographicCell>,
    utils: &Vec<UtilizationRate>,
    p: &InforceParams,
) -> (r: u128)
    requires
        p.wf(),
        forall|i: int| 0 <= i < cells@.len() ==> spec_cell_wf(#[trigger] cells@[i]),
        forall|i: int| 0 <= i < utils@.len() ==> spec_util_wf(#[trigger] utils@[i]),
        cells@.len() <= 100_000,
        utils@.len() <= 10_000,
    ensures
        r == spec_total_weight(cells@, utils@, *p),
{
    let mut total: u128 = 0;
    let mut j: usize = 0;
    while j < cells.len()
        invariant
            p.wf(),
            forall|i: int| 0 <= i < cells@.len() ==> spec_cell_wf(#[trigger] cells@[i]),
            forall|i: int| 0 <= i < utils@.len() ==> spec_util_wf(#[trigger] utils@[i]),
            cells@.len() <= 100_000,
            utils@.len() <= 10_000,
            0 <= j <= cells@.len(),
            total as int + spec_cell_suffix_weight(cells@, utils@, *p, j as int)
                == spec_total_weight(cells@, utils@, *p),
            total <= (j as int) * 200_000_000_000_000_000_000int,
        decreases cells@.len() - j,
    {
        let c = cells[j];
        let cm = cell_mult(&c, p);
        proof {
            assert(spec_cell_suffix_weight(cells@, utils@, *p, j as int) == spec_util_suffix_weight(
                cells@[j as int],
                utils@,
                *p,
                0,
            ) + spec_cell_suffix_weight(cells@, utils@, *p, j as int + 1));
        }
        let mut row: u128 = 0;
        let mut k: usize = 0;
        while k < utils.len()
            invariant
                p.wf(),
                forall|i: int| 0 <= i < utils@.len() ==> spec_util_wf(#[trigger] utils@[i]),
                utils@.len() <= 10_000,
                0 <= j < cells@.len(),
                c == cells@[j as int],
                spec_cell_wf(c),
                cm == spec_cell_mult(c, *p),
                cm <= 10_000_000_000_000_000u64,
                0 <= k <= utils@.len(),
                row as int + spec_util_suffix_weight(c, utils@, *p, k as int)
                    == spec_util_suffix_weight(c, utils@, *p, 0),
                row <= (k as int) * 20_000_000_000_000_000int,
            decreases utils@.len() - k,
        {
            let u = utils[k];
            proof {
                assert(spec_util_suffix_weight(c, utils@, *p, k as int) == spec_pair_weight_both(
                    c,
                    utils@[k as int],
                    *p,
                ) + spec_util_suffix_weight(c, utils@, *p, k as int + 1));
            }
            let w_fixed = pair_weight(c.base_weight, u.percentage, p.fixed_pct, cm);
            let w_indexed = pair_weight(c.base_weight, u.percentage, RATE_ONE - p.fixed_pct, cm);
            row = row + w_fixed as u128 + w_indexed as u128;
            k += 1;
        }
        proof {
            assert(spec_util_suffix_weight(c, utils@, *p, utils@.len() as int) == 0);
        }
        total = total + row;
        j += 1;
    }
    proof {
        assert(spec_cell_suffix_weight(cells@, utils@, *p, cells@.len() as int) == 0);
    }
    total
}

} // verus!
