//! The monthly projection engine: per-policy state, the monthly decrement
//! step, the policy-level driver and the block aggregator.
//!
//! The step works on exact fixed-point arithmetic. Decrements are taken out
//! of the account value one after another (mortality, lapse, partial
//! withdrawal, rider charge), each rounded down, and the remainder persists,
//! so the monthly balance identity
//! `mortality + lapse + pwd + rider + persisting == account value`
//! holds exactly per policy.

use vstd::prelude::*;

use crate::fixed::{lemma_rmul_le, lemma_rmul_monotone_rate, lemma_weighted_conservation,
    annual_to_monthly_rate, monthly_growth_factor, rate_apply, ratio_rate, rmul,
    lemma_u64_mul_fits, spec_monthly_from_annual, spec_twelfth_root, twelfth_root, RATE_ONE};
use crate::policy::{spec_attained_age, spec_policy_year, attained_age_at_month,
    policy_year_of_month, CreditingStrategy, Gender, Policy, RollupType};
use crate::product::{spec_seq_max, lemma_schedule_rate_le_max, ProductFeatures};
use crate::pwd::PwdAssumptions;

verus! {

/// Default annual credited rate for the Fixed crediting strategy (2.75%).
pub const DEFAULT_FIXED_ANNUAL_RATE: u64 = 275_000_000;

/// Default annual credited rate for the Indexed crediting strategy (3.78%).
pub const DEFAULT_INDEXED_ANNUAL_RATE: u64 = 378_000_000;

/// Monthly mortality rates by attained age, one table per gender. The index
/// is the attained age; ages beyond the table use the last listed rate.
#[derive(Clone, Debug)]
pub struct MortalityTable {
    male_monthly: Vec<u64>,
    female_monthly: Vec<u64>,
}

impl MortalityTable {
    pub closed spec fn male_rates(self) -> Seq<u64> {
        self.male_monthly@
    }

    pub closed spec fn female_rates(self) -> Seq<u64> {
        self.female_monthly@
    }

    pub open spec fn wf(self) -> bool {
        &&& forall|i: int| 0 <= i < self.male_rates().len() ==> self.male_rates()[i] <= RATE_ONE
        &&& forall|i: int| 0 <= i < self.female_rates().len() ==> self.female_rates()[i]
            <= RATE_ONE
    }

    /// The monthly mortality rate for an attained age and gender: the listed
    /// rate, the last rate beyond the table, zero from an empty table.
    pub open spec fn spec_monthly_q(self, age: u8, gender: Gender) -> u64 {
        let t = match gender {
            Gender::Male => self.male_rates(),
            Gender::Female => self.female_rates(),
        };
        if (age as int) < t.len() {
            t[age as int]
        } else if t.len() > 0 {
            t.last()
        } else {
            0u64
        }
    }

    /// Create from monthly rates prepared at the boundary.
    pub fn from_monthly(male_monthly: Vec<u64>, female_monthly: Vec<u64>) -> (r: Self)
        requires
            forall|i: int| 0 <= i < male_monthly@.len() ==> male_monthly@[i] <= RATE_ONE,
            forall|i: int| 0 <= i < female_monthly@.len() ==> female_monthly@[i] <= RATE_ONE,
        ensures
            r.male_rates() == male_monthly@,
            r.female_rates() == female_monthly@,
            r.wf(),
    {
        Self { male_monthly, female_monthly }
    }

    /// Create from annual rates, converting each to the equivalent monthly
    /// rate `1 - (1 - q)^(1/12)`.
    pub fn from_annual(male_annual: &Vec<u64>, female_annual: &Vec<u64>) -> (r: Self)
        requires
            forall|i: int| 0 <= i < male_annual@.len() ==> male_annual@[i] <= RATE_ONE,
            forall|i: int| 0 <= i < female_annual@.len() ==> female_annual@[i] <= RATE_ONE,
        ensures
            r.male_rates().len() == male_annual@.len(),
            r.female_rates().len() == female_annual@.len(),
            forall|i: int|
                0 <= i < male_annual@.len() ==> r.male_rates()[i] == spec_monthly_from_annual(
                    male_annual@[i] as int,
                ),
            forall|i: int|
                0 <= i < female_annual@.len() ==> r.female_rates()[i] == spec_monthly_from_annual(
                    female_annual@[i] as int,
                ),
            r.wf(),
    {
        let male_monthly = monthly_rates_of_annual(male_annual);
        let female_monthly = monthly_rates_of_annual(female_annual);
        Self { male_monthly, female_monthly }
    }

    /// Monthly mortality rate for an attained age and gender.
    pub fn monthly_q(&self, age: u8, gender: Gender) -> (r: u64)
        ensures
            r == self.spec_monthly_q(age, gender),
            self.wf() ==> r <= RATE_ONE,
    {
        let t = match gender {
            Gender::Male => &self.male_monthly,
            Gender::Female => &self.female_monthly,
        };
        proof {
            if self.wf() {
                let s = match gender {
                    Gender::Male => self.male_rates(),
                    Gender::Female => self.female_rates(),
                };
                assert(s == t@);
                if (age as int) < s.len() {
                    assert(s[age as int] <= RATE_ONE);
                } else if s.len() > 0 {
                    assert(s[s.len() - 1] <= RATE_ONE);
                }
            }
        }
        if (age as usize) < t.len() {
            t[age as usize]
        } else if t.len() > 0 {
            t[t.len() - 1]
        } else {
            0
        }
    }
}

/// Converts a table of annual decrement rates to monthly rates.
fn monthly_rates_of_annual(annual: &Vec<u64>) -> (r: Vec<u64>)
    requires
        forall|i: int| 0 <= i < annual@.len() ==> annual@[i] <= RATE_ONE,
    ensures
        r@.len() == annual@.len(),
        forall|i: int|
            0 <= i < annual@.len() ==> r@[i] == spec_monthly_from_annual(annual@[i] as int),
        forall|i: int| 0 <= i < r@.len() ==> r@[i] <= RATE_ONE,
{
    let mut out: Vec<u64> = Vec::new();
    let mut i: usize = 0;
    while i < annual.len()
        invariant
            0 <= i <= annual@.len(),
            out@.len() == i,
            forall|j: int| 0 <= j < annual@.len() ==> annual@[j] <= RATE_ONE,
            forall|j: int|
                0 <= j < i ==> out@[j] == spec_monthly_from_annual(annual@[j] as int),
            forall|j: int| 0 <= j < i ==> out@[j] <= RATE_ONE,
        decreases annual@.len() - i,
    {
        let m = annual_to_monthly_rate(annual[i]);
        out.push(m);
        i += 1;
    }
    out
}

/// The monthly lapse model, table-driven. The base rate is keyed by the
/// policy year's position against the surrender-charge period and by the
/// activation status: within the period a year-by-year segment applies (its
/// last entry extrapolated, typically rising as the charge rolls off), the
/// first charge-free year carries the shock rate, and later years the
/// ultimate rate. On top of the base, a multiplicative factor per
/// benefit-base bucket (smaller buckets lapse more) and a multiplicative
/// in-the-money response (thresholds on the ratio benefit base over account
/// value; deeper in the money suppresses lapse, with a separate, weaker
/// response once income is activated). The upstream lapse study delivers all
/// of these as data; the composed monthly rate is capped at one.
#[derive(Clone, Debug)]
pub struct LapseTable {
    /// Monthly base rates for policy years inside the surrender-charge
    /// period, before activation; the last entry extrapolates. An empty
    /// segment falls back to the ultimate rate.
    pub in_sc_monthly: Vec<u64>,
    /// Monthly base rate of the shock year (the first charge-free year),
    /// before activation.
    pub shock_monthly: u64,
    /// Monthly base rate after the shock year, before activation.
    pub ultimate_monthly: u64,
    /// The same three pieces once income is activated (activated policies
    /// lapse less and the shock is dampened).
    pub in_sc_activated_monthly: Vec<u64>,
    pub shock_activated_monthly: u64,
    pub ultimate_activated_monthly: u64,
    /// Multiplicative factor per benefit-base bucket, smallest bucket first;
    /// buckets beyond the table use a factor of one.
    pub bucket_factors: Vec<u64>,
    /// Multiplicative in-the-money response before activation: ascending
    /// `(threshold, factor)` pairs; the factor of the largest threshold not
    /// above the ratio applies, one below the first threshold.
    pub itm_response: Vec<(u64, u64)>,
    /// The in-the-money response once income is activated.
    pub itm_response_activated: Vec<(u64, u64)>,
}

/// The position of a bucket in the bucket-factor table, smallest first.
pub open spec fn spec_bucket_index(b: crate::policy::BenefitBaseBucket) -> int {
    match b {
        crate::policy::BenefitBaseBucket::Under50k => 0,
        crate::policy::BenefitBaseBucket::From50kTo100k => 1,
        crate::policy::BenefitBaseBucket::From100kTo200k => 2,
        crate::policy::BenefitBaseBucket::From200kTo500k => 3,
        crate::policy::BenefitBaseBucket::Over500k => 4,
    }
}

/// The factor of the largest threshold not above `itm`, scanning an
/// ascending response table from index `i` with `current` as the factor
/// found so far.
pub open spec fn spec_itm_factor_from(
    resp: Seq<(u64, u64)>,
    itm: int,
    i: int,
    current: u64,
) -> u64
    decreases resp.len() - i,
{
    if i < 0 || i >= resp.len() {
        current
    } else if resp[i].0 <= itm {
        spec_itm_factor_from(resp, itm, i + 1, resp[i].1)
    } else {
        current
    }
}

impl LapseTable {
    pub open spec fn wf(self) -> bool {
        &&& forall|i: int| 0 <= i < self.in_sc_monthly@.len() ==> self.in_sc_monthly@[i]
            <= RATE_ONE
        &&& forall|i: int|
            0 <= i < self.in_sc_activated_monthly@.len() ==> self.in_sc_activated_monthly@[i]
                <= RATE_ONE
        &&& self.shock_monthly <= RATE_ONE
        &&& self.ultimate_monthly <= RATE_ONE
        &&& self.shock_activated_monthly <= RATE_ONE
        &&& self.ultimate_activated_monthly <= RATE_ONE
        &&& forall|i: int| 0 <= i < self.bucket_factors@.len() ==> (
        #[trigger] self.bucket_factors@[i]) <= 2 * RATE_ONE
        &&& forall|i: int| 0 <= i < self.itm_response@.len() ==> (
        #[trigger] self.itm_response@[i]).1 <= RATE_ONE
        &&& forall|i: int|
            0 <= i < self.itm_response_activated@.len() ==> (
            #[trigger] self.itm_response_activated@[i]).1 <= RATE_ONE
    }

    /// The monthly base rate for a policy year against a surrender-charge
    /// period and an activation status.
    pub open spec fn spec_base_rate(self, policy_year: int, income_activated: bool, sc_period: int) -> u64 {
        let seg = if income_activated {
            self.in_sc_activated_monthly@
        } else {
            self.in_sc_monthly@
        };
        let shock = if income_activated {
            self.shock_activated_monthly
        } else {
            self.shock_monthly
        };
        let ultimate = if income_activated {
            self.ultimate_activated_monthly
        } else {
            self.ultimate_monthly
        };
        if policy_year <= sc_period && seg.len() > 0 {
            let idx = if policy_year <= 0 {
                0
            } else {
                policy_year - 1
            };
            if idx < seg.len() {
                seg[idx]
            } else {
                seg.last()
            }
        } else if policy_year == sc_period + 1 {
            shock
        } else {
            ultimate
        }
    }

    /// The bucket factor: the table entry at the bucket's position, one
    /// beyond the table.
    pub open spec fn spec_bucket_factor(self, bucket: crate::policy::BenefitBaseBucket) -> u64 {
        let i = spec_bucket_index(bucket);
        if i < self.bucket_factors@.len() {
            self.bucket_factors@[i]
        } else {
            RATE_ONE
        }
    }

    /// The in-the-money factor for a ratio and an activation status.
    pub open spec fn spec_itm_factor(self, itm: int, income_activated: bool) -> u64 {
        spec_itm_factor_from(
            if income_activated {
                self.itm_response_activated@
            } else {
                self.itm_response@
            },
            itm,
            0,
            RATE_ONE,
        )
    }

    /// The composed monthly lapse rate: base times bucket factor times
    /// in-the-money factor, capped at one.
    #[verifier::opaque]
    pub open spec fn spec_rate(
        self,
        policy_year: int,
        income_activated: bool,
        bucket: crate::policy::BenefitBaseBucket,
        sc_period: int,
        itm: int,
    ) -> u64 {
        let f1 = rmul(
            self.spec_base_rate(policy_year, income_activated, sc_period) as int,
            self.spec_bucket_factor(bucket) as int,
        );
        let f2 = rmul(f1, self.spec_itm_factor(itm, income_activated) as int);
        if f2 >= RATE_ONE {
            RATE_ONE
        } else {
            f2 as u64
        }
    }

    /// Create from the study's tables.
    pub fn from_parts(
        in_sc_monthly: Vec<u64>,
        shock_monthly: u64,
        ultimate_monthly: u64,
        in_sc_activated_monthly: Vec<u64>,
        shock_activated_monthly: u64,
        ultimate_activated_monthly: u64,
        bucket_factors: Vec<u64>,
        itm_response: Vec<(u64, u64)>,
        itm_response_activated: Vec<(u64, u64)>,
    ) -> (r: Self)
        requires
            forall|i: int| 0 <= i < in_sc_monthly@.len() ==> in_sc_monthly@[i] <= RATE_ONE,
            forall|i: int| 0 <= i < in_sc_activated_monthly@.len() ==> in_sc_activated_monthly@[i]
                <= RATE_ONE,
            shock_monthly <= RATE_ONE,
            ultimate_monthly <= RATE_ONE,
            shock_activated_monthly <= RATE_ONE,
            ultimate_activated_monthly <= RATE_ONE,
            forall|i: int| 0 <= i < bucket_factors@.len() ==> (#[trigger] bucket_factors@[i]) <= 2
                * RATE_ONE,
            forall|i: int| 0 <= i < itm_response@.len() ==> (#[trigger] itm_response@[i]).1
                <= RATE_ONE,
            forall|i: int|
                0 <= i < itm_response_activated@.len() ==> (
                #[trigger] itm_response_activated@[i]).1 <= RATE_ONE,
        ensures
            r == (LapseTable {
                in_sc_monthly,
                shock_monthly,
                ultimate_monthly,
                in_sc_activated_monthly,
                shock_activated_monthly,
                ultimate_activated_monthly,
                bucket_factors,
                itm_response,
                itm_response_activated,
            }),
            r.wf(),
    {
        Self {
            in_sc_monthly,
            shock_monthly,
            ultimate_monthly,
            in_sc_activated_monthly,
            shock_activated_monthly,
            ultimate_activated_monthly,
            bucket_factors,
            itm_response,
            itm_response_activated,
        }
    }

    /// Create a flat model: one base rate before activation and one after,
    /// for every year, bucket and ratio.
    pub fn from_monthly(base_rate: u64, activated_rate: u64) -> (r: Self)
        requires
            base_rate <= RATE_ONE,
            activated_rate <= RATE_ONE,
        ensures
            forall|py: int, act: bool, b: crate::policy::BenefitBaseBucket, sc: int, itm: int|
                #![trigger r.spec_rate(py, act, b, sc, itm)]
                r.spec_rate(py, act, b, sc, itm) == (if act {
                    activated_rate
                } else {
                    base_rate
                }),
            r.wf(),
    {
        let r = Self {
            in_sc_monthly: Vec::new(),
            shock_monthly: base_rate,
            ultimate_monthly: base_rate,
            in_sc_activated_monthly: Vec::new(),
            shock_activated_monthly: activated_rate,
            ultimate_activated_monthly: activated_rate,
            bucket_factors: Vec::new(),
            itm_response: Vec::new(),
            itm_response_activated: Vec::new(),
        };
        proof {
            assert forall|py: int, act: bool, b: crate::policy::BenefitBaseBucket, sc: int, itm: int|
                #![trigger r.spec_rate(py, act, b, sc, itm)]
                r.spec_rate(py, act, b, sc, itm) == (if act {
                    activated_rate
                } else {
                    base_rate
                }) by {
                reveal(LapseTable::spec_rate);
                let base = r.spec_base_rate(py, act, sc);
                assert(base == if act { activated_rate } else { base_rate });
                crate::fixed::lemma_rmul_one(base as int);
                assert(r.spec_bucket_factor(b) == RATE_ONE);
                assert(r.spec_itm_factor(itm, act) == RATE_ONE);
                crate::fixed::lemma_rmul_one(rmul(base as int, RATE_ONE as int));
            }
        }
        r
    }

    /// The composed monthly lapse rate for a policy year, activation status,
    /// benefit-base bucket, surrender-charge period and in-the-money ratio.
    pub fn monthly_lapse_rate(
        &self,
        policy_year: u32,
        income_activated: bool,
        bucket: crate::policy::BenefitBaseBucket,
        sc_period: u32,
        itm: u64,
    ) -> (r: u64)
        requires
            self.wf(),
        ensures
            r == self.spec_rate(
                policy_year as int,
                income_activated,
                bucket,
                sc_period as int,
                itm as int,
            ),
            r <= RATE_ONE,
    {
        let seg: &Vec<u64> = if income_activated {
            &self.in_sc_activated_monthly
        } else {
            &self.in_sc_monthly
        };
        let base: u64 = if policy_year <= sc_period && seg.len() > 0 {
            let idx = if policy_year == 0 {
                0
            } else {
                (policy_year - 1) as usize
            };
            if idx < seg.len() {
                seg[idx]
            } else {
                seg[seg.len() - 1]
            }
        } else if policy_year > sc_period && policy_year - 1 == sc_period {
            if income_activated {
                self.shock_activated_monthly
            } else {
                self.shock_monthly
            }
        } else {
            if income_activated {
                self.ultimate_activated_monthly
            } else {
                self.ultimate_monthly
            }
        };
        proof {
            let segs = if income_activated {
                self.in_sc_activated_monthly@
            } else {
                self.in_sc_monthly@
            };
            assert(segs == seg@);
            if (policy_year as int) <= sc_period as int && segs.len() > 0 {
                let idx: int = if policy_year == 0 {
                    0
                } else {
                    policy_year - 1
                };
                if idx < segs.len() {
                    assert(segs[idx] <= RATE_ONE);
                } else {
                    assert(segs[segs.len() - 1] <= RATE_ONE);
                }
            }
        }
        let bi = bucket_position(bucket);
        let bf: u64 = if bi < self.bucket_factors.len() {
            proof {
                assert(self.bucket_factors@[bi as int] <= 2 * RATE_ONE);
            }
            self.bucket_factors[bi]
        } else {
            RATE_ONE
        };
        proof {
            lemma_u64_mul_fits(base as int, bf as int);
            assert((base as int) * (bf as int) <= (RATE_ONE as int) * (2 * RATE_ONE as int))
                by (nonlinear_arith)
                requires
                    0 <= base as int <= RATE_ONE as int,
                    0 <= bf as int <= 2 * RATE_ONE as int,
            ;
            assert((RATE_ONE as int) * (2 * RATE_ONE as int) == (2 * RATE_ONE as int) * (
            RATE_ONE as int)) by (nonlinear_arith);
            vstd::arithmetic::div_mod::lemma_div_is_ordered(
                (base as int) * (bf as int),
                (2 * RATE_ONE as int) * (RATE_ONE as int),
                RATE_ONE as int,
            );
            vstd::arithmetic::div_mod::lemma_div_by_multiple(2 * RATE_ONE as int, RATE_ONE as int);
            crate::fixed::lemma_rmul_nonneg(base as int, bf as int);
        }
        let f1: u64 = ((base as u128) * (bf as u128) / (RATE_ONE as u128)) as u64;
        let resp: &Vec<(u64, u64)> = if income_activated {
            &self.itm_response_activated
        } else {
            &self.itm_response
        };
        let mut itmf: u64 = RATE_ONE;
        let mut i: usize = 0;
        let mut done: bool = false;
        proof {
            let rs = if income_activated {
                self.itm_response_activated@
            } else {
                self.itm_response@
            };
            assert(rs == resp@);
        }
        while i < resp.len() && !done
            invariant
                0 <= i <= resp@.len(),
                itmf <= RATE_ONE,
                forall|j: int| 0 <= j < resp@.len() ==> (#[trigger] resp@[j]).1 <= RATE_ONE,
                !done ==> spec_itm_factor_from(resp@, itm as int, 0, RATE_ONE)
                    == spec_itm_factor_from(resp@, itm as int, i as int, itmf),
                done ==> spec_itm_factor_from(resp@, itm as int, 0, RATE_ONE) == itmf,
            decreases resp@.len() - i,
        {
            let (threshold, factor) = resp[i];
            if threshold <= itm {
                itmf = factor;
            } else {
                proof {
                    assert(spec_itm_factor_from(resp@, itm as int, i as int, itmf) == itmf);
                }
                done = true;
            }
            i += 1;
        }
        proof {
            lemma_rmul_le(f1 as int, itmf as int);
            reveal(LapseTable::spec_rate);
        }
        let f2: u64 = rate_apply(f1, itmf);
        if f2 >= RATE_ONE {
            RATE_ONE
        } else {
            f2
        }
    }
}

/// The position of a bucket in the bucket-factor table.
fn bucket_position(b: crate::policy::BenefitBaseBucket) -> (r: usize)
    ensures
        r as int == spec_bucket_index(b),
{
    match b {
        crate::policy::BenefitBaseBucket::Under50k => 0,
        crate::policy::BenefitBaseBucket::From50kTo100k => 1,
        crate::policy::BenefitBaseBucket::From100kTo200k => 2,
        crate::policy::BenefitBaseBucket::From200kTo500k => 3,
        crate::policy::BenefitBaseBucket::Over500k => 4,
    }
}

/// The read-only assumption bundle shared by every projection.
#[derive(Clone, Debug)]
pub struct Assumptions {
    pub mortality: MortalityTable,
    pub lapse: LapseTable,
    pub product: ProductFeatures,
    pub pwd: PwdAssumptions,
}

impl Assumptions {
    pub open spec fn wf(self) -> bool {
        &&& self.mortality.wf()
        &&& self.lapse.wf()
        &&& self.product.wf()
        &&& self.pwd.wf()
    }
}

/// Hedging of the indexed credit: the stated share of each credited amount
/// is consumed by the hedge cost, the rest is the hedge gain.
#[derive(Clone, Copy, Debug)]
pub struct HedgeParams {
    pub cost_ratio: u64,
}

impl HedgeParams {
    pub open spec fn wf(self) -> bool {
        self.cost_ratio <= RATE_ONE
    }

    /// The default hedge: 85% of the credited amount goes to hedge cost.
    pub fn default() -> (r: Self)
        ensures
            r.cost_ratio == 8_500_000_000u64,
            r.wf(),
    {
        Self { cost_ratio: 8_500_000_000 }
    }
}

/// How interest is credited during the projection.
#[derive(Clone, Copy, Debug)]
pub enum CreditingApproach {
    /// Each policy earns by its own strategy at the given annual rates.
    PolicyBased { fixed_annual_rate: u64, indexed_annual_rate: u64 },
    /// One annual rate for every policy, applied on each policy's own
    /// crediting timing.
    Override { annual_rate: u64 },
}

/// Projection options.
#[derive(Clone, Copy, Debug)]
pub struct ProjectionConfig {
    /// Number of months to project.
    pub projection_months: u32,
    pub crediting: CreditingApproach,
    /// Whether callers want per-month detail kept; the engine always emits
    /// full rows and this flag only steers output writers.
    pub detailed_output: bool,
    /// Parallel rate shift, in fixed-point units, that the upstream rate
    /// studies applied when preparing the crediting and lapse bases; carried
    /// with the run's options for reporting.
    pub treasury_change: i64,
    /// When set, this monthly rate replaces the lapse table everywhere.
    pub fixed_lapse_rate: Option<u64>,
    pub hedge_params: Option<HedgeParams>,
}

impl ProjectionConfig {
    pub open spec fn wf(self) -> bool {
        &&& match self.crediting {
            CreditingApproach::PolicyBased { fixed_annual_rate, indexed_annual_rate } => {
                fixed_annual_rate <= RATE_ONE && indexed_annual_rate <= RATE_ONE
            },
            CreditingApproach::Override { annual_rate } => annual_rate <= RATE_ONE,
        }
        &&& match self.fixed_lapse_rate {
            Some(l) => l <= RATE_ONE,
            None => true,
        }
        &&& match self.hedge_params {
            Some(h) => h.wf(),
            None => true,
        }
    }

    /// The default configuration: 360 months, policy-based crediting at the
    /// default rates, the model lapse table and the default hedge.
    pub fn default() -> (r: Self)
        ensures
            r.projection_months == 360,
            r.crediting matches CreditingApproach::PolicyBased {
                fixed_annual_rate,
                indexed_annual_rate,
            } && fixed_annual_rate == DEFAULT_FIXED_ANNUAL_RATE && indexed_annual_rate
                == DEFAULT_INDEXED_ANNUAL_RATE,
            r.treasury_change == 0,
            r.fixed_lapse_rate is None,
            r.hedge_params matches Some(h) && h.cost_ratio == 8_500_000_000u64,
            r.wf(),
    {
        Self {
            projection_months: 360,
            crediting: CreditingApproach::PolicyBased {
                fixed_annual_rate: DEFAULT_FIXED_ANNUAL_RATE,
                indexed_annual_rate: DEFAULT_INDEXED_ANNUAL_RATE,
            },
            detailed_output: false,
            treasury_change: 0,
            fixed_lapse_rate: None,
            hedge_params: Some(HedgeParams::default()),
        }
    }
}

/// Mutable per-policy accumulators across months.
#[derive(Clone, Debug)]
pub struct ProjectionState {
    /// Account value, per policy, micro-dollars.
    pub av: u64,
    /// Benefit base, per policy, micro-dollars.
    pub benefit_base: u64,
    /// Fractional lives still in force.
    pub lives: u64,
    /// The 1-based policy month about to be projected.
    pub policy_month: u32,
    /// Whether guaranteed income is being drawn.
    pub income_activated: bool,
    /// Benefit base at issue, the basis of simple rollup increments.
    pub initial_bb_for_rollup: u64,
    /// Total commissions paid at issue, the basis of chargebacks.
    pub commissions_paid: u64,
}

/// One month of cashflows for one policy. `bop_av` and `bop_benefit_base`
/// are per policy; decrement and cashflow amounts are weighted by the
/// beginning-of-period lives. `eop_av` is the weighted persisting account
/// value plus the credited interest, before the systematic guaranteed
/// income: that income reduces only the account value carried in the state,
/// never below zero, and — the row having no field for it — appears in no
/// column once the account value is exhausted.
#[derive(Clone, Debug)]
pub struct CashflowRow {
    pub projection_month: u32,
    pub policy_year: u32,
    pub attained_age: u8,
    pub bop_av: u64,
    pub bop_benefit_base: u64,
    pub lives: u64,
    pub final_mortality: u64,
    pub final_lapse_rate: u64,
    pub non_systematic_pwd_rate: u64,
    pub rider_charge_rate: u64,
    pub mortality_dec: u64,
    pub lapse_dec: u64,
    pub pwd_dec: u64,
    pub rider_charges_dec: u64,
    pub surrender_charges_dec: u64,
    pub interest_credits_dec: u64,
    pub eop_av: u64,
    pub expenses: u64,
    pub agent_commission: u64,
    pub imo_override: u64,
    pub wholesaler_override: u64,
    pub bonus_comp: u64,
    pub chargebacks: u64,
    pub hedge_gains: u64,
    pub total_net_cashflow: i64,
}

/// The sentinel activation year meaning the rider never activates.
pub const GLWB_NEVER: u32 = 99;

/// Everything one projected month produces, as a mathematical function of
/// the inputs: the cashflow row and the state after the month, or `None`
/// when a value would leave the fixed-point range.
///
/// Decrements are taken out of the account value in order — mortality,
/// lapse, partial withdrawal, rider charge — each rounded down, and interest
/// is credited on the remainder, so
/// `mortality + lapse + pwd + rider + eop == av + interest` holds exactly
/// per policy. Row amounts are these per-policy amounts weighted by the
/// beginning-of-period lives.
#[verifier::opaque]
pub open spec fn spec_step_result(
    p: Policy,
    a: Assumptions,
    c: ProjectionConfig,
    s: ProjectionState,
) -> Option<(CashflowRow, ProjectionState)> {
    let m = s.policy_month as int;
    let py = spec_policy_year(m);
    let age_i = spec_attained_age(p.issue_age as int, m);
    let age: u8 = if age_i <= 255 {
        age_i as u8
    } else {
        255u8
    };
    let activated = s.income_activated || (p.glwb_start_year != GLWB_NEVER && py
        == p.glwb_start_year && m % 12 == 1 && age >= a.product.glwb.min_activation_age);
    let av0 = s.av as int;
    let bb0 = s.benefit_base as int;
    let lives0 = s.lives as int;
    // Rates, all on beginning-of-period state. The in-the-money ratio that
    // drives dynamic lapse is the benefit base over the account value, zero
    // for an exhausted account.
    let q = a.mortality.spec_monthly_q(age, p.gender) as int;
    let lapse_itm = if av0 > 0 {
        bb0 * RATE_ONE / av0
    } else {
        0
    };
    let lapse = (match c.fixed_lapse_rate {
        Some(l) => l,
        None => a.lapse.spec_rate(py, activated, p.benefit_base_bucket, p.sc_period as int,
            lapse_itm),
    }) as int;
    let annual_pwd = a.pwd.spec_annual_pwd_rate(
        py,
        age,
        p.qual_status,
        activated,
        a.product.base.free_withdrawal_pct,
    );
    let w = if py == 1 {
        0int
    } else {
        spec_monthly_from_annual(annual_pwd)
    };
    let rider_monthly = a.product.glwb.spec_annual_charge(activated) as int / 12;
    // The decrement chain, per policy and exact.
    let mort_pp = rmul(av0, q);
    let rem1 = av0 - mort_pp;
    let lap_pp = rmul(rem1, lapse);
    let rem2 = rem1 - lap_pp;
    let pwd_pp = rmul(rem2, w);
    let rem3 = rem2 - pwd_pp;
    let rc_want = rmul(bb0, rider_monthly);
    let rc_pp = if rc_want <= rem3 {
        rc_want
    } else {
        rem3
    };
    let rem4 = rem3 - rc_pp;
    // Lives are decremented by mortality and lapse only.
    let lives1 = lives0 - rmul(lives0, q);
    let lives2 = lives1 - rmul(lives1, lapse);
    // Interest on the persisting account value.
    let annual_credit = (match c.crediting {
        CreditingApproach::PolicyBased { fixed_annual_rate, indexed_annual_rate } => match p
            .crediting_strategy {
            CreditingStrategy::Fixed => fixed_annual_rate,
            CreditingStrategy::Indexed => indexed_annual_rate,
        },
        CreditingApproach::Override { annual_rate } => annual_rate,
    }) as int;
    let credit = match p.crediting_strategy {
        CreditingStrategy::Fixed => rmul(
            rem4,
            spec_twelfth_root(RATE_ONE + annual_credit) - RATE_ONE,
        ),
        CreditingStrategy::Indexed => if m % 12 == 0 {
            rmul(rem4, annual_credit)
        } else {
            0
        },
    };
    let eop_pp = rem4 + credit;
    // Benefit-base rollup.
    let rollup_applies = !activated && py <= a.product.glwb.rollup_years;
    let bb1 = if !rollup_applies {
        bb0
    } else if p.rollup_type is Simple {
        bb0 + rmul(s.initial_bb_for_rollup as int, a.product.glwb.rollup_rate as int) / 12
    } else {
        rmul(bb0, spec_twelfth_root(RATE_ONE + a.product.glwb.rollup_rate))
    };
    // Weighted amounts.
    let wmort = rmul(mort_pp, lives0);
    let wlap = rmul(lap_pp, lives0);
    let wpwd = rmul(pwd_pp, lives0);
    let wrc = rmul(rc_pp, lives0);
    let wcredit = rmul(credit, lives0);
    let weop = rmul(eop_pp, lives0);
    let sc_rate = a.product.base.surrender_charges.spec_get_rate(py) as int;
    let surr = rmul(wlap, sc_rate);
    // Expenses.
    let exp_pp = rmul(av0, a.product.base.expense_rate_of_av as int) / 12
        + a.product.base.annual_expense_per_policy as int / 12;
    let wexp = rmul(exp_pp, lives0);
    // Commissions at issue.
    let (agent, imo_total, wh_total, commissions_new) = spec_issue_commissions(
        p,
        a.product.commissions,
        s.policy_month,
        s.commissions_paid,
    );
    // Month-13 persistency bonus.
    let bonus = if s.policy_month == 13 && p.duration_months == 0 && s.lives > 0 {
        rmul(av0, a.product.commissions.spec_bonus_rate(p.issue_age))
    } else {
        0
    };
    // Chargebacks: paid commissions times the schedule factor times the
    // lapsed share of the account value.
    let cb_factor = a.product.commissions.spec_chargeback_factor(m, py) as int;
    let lapse_frac = if av0 > 0 {
        wlap * RATE_ONE / av0
    } else {
        0
    };
    let cb = rmul(rmul(commissions_new, cb_factor), lapse_frac);
    // Hedge gains on the indexed credit.
    let hedge = match c.hedge_params {
        Some(h) => if p.crediting_strategy is Indexed && m % 12 == 0 {
            wcredit - rmul(wcredit, h.cost_ratio as int)
        } else {
            0
        },
        None => 0,
    };
    // Net cashflow to the insurer.
    let net = wrc + surr + cb + hedge - wexp - agent - imo_total - wh_total - bonus;
    // Systematic GLWB income reduces the account value after crediting but
    // never the benefit base, and never below zero.
    let payout = if activated {
        rmul(bb1, a.product.glwb.payout_factors.spec_single_life(age) as int) / 12
    } else {
        0
    };
    let av_next = if eop_pp - payout >= 0 {
        eop_pp - payout
    } else {
        0
    };
    if lapse_itm > u64::MAX || wmort > u64::MAX || wlap > u64::MAX || wpwd > u64::MAX || wrc
        > u64::MAX || wcredit > u64::MAX || weop > u64::MAX || wexp > u64::MAX || eop_pp
        > u64::MAX || bb1 > u64::MAX || commissions_new > u64::MAX || lapse_frac > u64::MAX || cb
        > u64::MAX || net > i64::MAX || net < i64::MIN || s.policy_month == u32::MAX {
        None
    } else {
        Some(
            (
                CashflowRow {
                    projection_month: s.policy_month,
                    policy_year: py as u32,
                    attained_age: age,
                    bop_av: s.av,
                    bop_benefit_base: s.benefit_base,
                    lives: s.lives,
                    final_mortality: q as u64,
                    final_lapse_rate: lapse as u64,
                    non_systematic_pwd_rate: w as u64,
                    rider_charge_rate: rider_monthly as u64,
                    mortality_dec: wmort as u64,
                    lapse_dec: wlap as u64,
                    pwd_dec: wpwd as u64,
                    rider_charges_dec: wrc as u64,
                    surrender_charges_dec: surr as u64,
                    interest_credits_dec: wcredit as u64,
                    eop_av: weop as u64,
                    expenses: wexp as u64,
                    agent_commission: agent as u64,
                    imo_override: imo_total as u64,
                    wholesaler_override: wh_total as u64,
                    bonus_comp: bonus as u64,
                    chargebacks: cb as u64,
                    hedge_gains: hedge as u64,
                    total_net_cashflow: net as i64,
                },
                ProjectionState {
                    av: av_next as u64,
                    benefit_base: bb1 as u64,
                    lives: lives2 as u64,
                    policy_month: (s.policy_month + 1) as u32,
                    income_activated: activated,
                    initial_bb_for_rollup: s.initial_bb_for_rollup,
                    commissions_paid: commissions_new as u64,
                },
            ),
        )
    }
}

/// Commission amounts of one month: the agent commission, the full IMO and
/// wholesaler overrides, and the commissions carried for chargebacks. All
/// are zero except in the issue month of new business, when the premium is
/// commissioned.
#[verifier::opaque]
pub open spec fn spec_issue_commissions(
    p: Policy,
    comm: crate::product::CommissionAssumptions,
    policy_month: u32,
    commissions_paid: u64,
) -> (int, int, int, int) {
    let is_issue_month = policy_month == 1 && p.duration_months == 0;
    let young = p.issue_age <= comm.age_threshold;
    let prem = p.initial_premium as int;
    let imo_g = rmul(
        prem,
        (if young {
            comm.imo_gross_rate_young
        } else {
            comm.imo_gross_rate_old
        }) as int,
    );
    let wh_g = rmul(
        prem,
        (if young {
            comm.wholesaler_gross_rate_young
        } else {
            comm.wholesaler_gross_rate_old
        }) as int,
    );
    let imo_net = rmul(imo_g, (RATE_ONE - comm.imo_conversion_rate) as int);
    let imo_conv = rmul(imo_g, comm.imo_conversion_rate as int);
    let wh_net = rmul(wh_g, (RATE_ONE - comm.wholesaler_conversion_rate) as int);
    let wh_conv = rmul(wh_g, comm.wholesaler_conversion_rate as int);
    let agent = if is_issue_month {
        rmul(prem, comm.spec_agent_rate(p.issue_age) as int)
    } else {
        0
    };
    let imo_total = if is_issue_month {
        imo_net + imo_conv
    } else {
        0
    };
    let wh_total = if is_issue_month {
        wh_net + wh_conv
    } else {
        0
    };
    let commissions_new = if is_issue_month {
        agent + imo_total + wh_total
    } else {
        commissions_paid as int
    };
    (agent, imo_total, wh_total, commissions_new)
}

/// Computes the month's commission amounts, the totals kept wide so the
/// caller can test the fixed-point range.
fn step_commissions(
    policy: &Policy,
    comm: &crate::product::CommissionAssumptions,
    policy_month: u32,
    commissions_paid: u64,
) -> (r: (u64, u128, u128, u128))
    requires
        comm.wf(),
    ensures
        ({
            let (agent, imo_total, wh_total, commissions_new) = spec_issue_commissions(
                *policy,
                *comm,
                policy_month,
                commissions_paid,
            );
            &&& r.0 == agent
            &&& r.1 == imo_total
            &&& r.2 == wh_total
            &&& r.3 == commissions_new
        }),
        r.0 as u128 <= r.3,
        r.1 <= r.3,
        r.2 <= r.3,
{
    proof {
        reveal(spec_issue_commissions);
    }
    let is_issue_month: bool = policy_month == 1 && policy.duration_months == 0;
    if is_issue_month {
        let (ag, imo_net, imo_conv, wh_net, wh_conv) = comm.calculate_commissions(
            policy.initial_premium,
            policy.issue_age,
        );
        let imo_t: u128 = imo_net as u128 + imo_conv as u128;
        let wh_t: u128 = wh_net as u128 + wh_conv as u128;
        (ag, imo_t, wh_t, ag as u128 + imo_t + wh_t)
    } else {
        (0, 0, 0, commissions_paid as u128)
    }
}

/// The monthly non-systematic withdrawal rate the step uses, as a pure
/// function of the lookup keys.
fn step_pwd_rate(
    a: &Assumptions,
    policy_year: u32,
    month_in_year: u32,
    age: u8,
    qual_status: crate::policy::QualStatus,
    income_activated: bool,
) -> (w: u64)
    requires
        a.wf(),
    ensures
        w as int == (if policy_year == 1 {
            0int
        } else {
            spec_monthly_from_annual(
                a.pwd.spec_annual_pwd_rate(
                    policy_year as int,
                    age,
                    qual_status,
                    income_activated,
                    a.product.base.free_withdrawal_pct,
                ),
            )
        }),
        w <= RATE_ONE,
{
    a.pwd.monthly_pwd_rate_adjusted(
        policy_year,
        month_in_year,
        age,
        qual_status,
        income_activated,
        a.product.base.free_withdrawal_pct,
    )
}

/// The monthly crediting rate of the Fixed strategy: the twelfth root of
/// one plus the annual rate, less one.
fn step_fixed_credit_rate(annual: u64) -> (r: u64)
    requires
        annual <= RATE_ONE,
    ensures
        r as int == spec_twelfth_root(RATE_ONE + annual) - RATE_ONE,
        r <= RATE_ONE,
{
    let f = monthly_growth_factor(annual);
    f - RATE_ONE
}

/// Weights a per-policy amount by the fractional lives, flagging overflow.
fn weight_by_lives(amount: u64, lives: u64) -> (r: Option<u64>)
    ensures
        match r {
            Some(v) => v == rmul(amount as int, lives as int),
            None => rmul(amount as int, lives as int) > u64::MAX,
        },
{
    proof {
        lemma_u64_mul_fits(amount as int, lives as int);
    }
    let p: u128 = (amount as u128) * (lives as u128) / (RATE_ONE as u128);
    if p <= u64::MAX as u128 {
        Some(p as u64)
    } else {
        None
    }
}

/// Projects one month for one policy: emits the cashflow row and advances
/// the state. The outcome is exactly [`spec_step_result`]; `Err` comes
/// exactly when that function has no result, and leaves the state untouched.
#[verifier::rlimit(100)]
pub fn project_month(
    policy: &Policy,
    assumptions: &Assumptions,
    config: &ProjectionConfig,
    state: &mut ProjectionState,
) -> (r: Result<CashflowRow, ProjectionError>)
    requires
        assumptions.wf(),
        config.wf(),
        old(state).policy_month >= 1,
    ensures
        match r {
            Ok(row) => spec_step_result(*policy, *assumptions, *config, *old(state)) == Some(
                (row, *final(state)),
            ),
            Err(e) => {
                &&& e is Numeric
                &&& spec_step_result(*policy, *assumptions, *config, *old(state)) is None
                &&& *final(state) == *old(state)
            },
        },
{
    let m: u32 = state.policy_month;
    let py: u32 = policy_year_of_month(m);
    let age: u8 = attained_age_at_month(policy.issue_age, m);
    let activated: bool = state.income_activated || (policy.glwb_start_year != GLWB_NEVER && py
        == policy.glwb_start_year && m % 12 == 1 && age
        >= assumptions.product.glwb.min_activation_age);

    let av0: u64 = state.av;
    let bb0: u64 = state.benefit_base;
    let lives0: u64 = state.lives;

    // Rates on beginning-of-period state.
    let q: u64 = assumptions.mortality.monthly_q(age, policy.gender);
    let itm_o: Option<u64> = if av0 > 0 {
        ratio_rate(bb0, av0)
    } else {
        Some(0)
    };
    let itm: u64 = match itm_o {
        Some(v) => v,
        None => 0,
    };
    let lapse: u64 = match config.fixed_lapse_rate {
        Some(l) => l,
        None => assumptions.lapse.monthly_lapse_rate(
            py,
            activated,
            policy.benefit_base_bucket,
            policy.sc_period,
            itm,
        ),
    };
    let month_in_year: u32 = (m - 1) % 12 + 1;
    let w: u64 = step_pwd_rate(assumptions, py, month_in_year, age, policy.qual_status, activated);
    let rider_monthly: u64 = assumptions.product.glwb.monthly_rider_charge(activated);

    // The decrement chain, per policy and exact.
    let mort_pp: u64 = rate_apply(av0, q);
    let rem1: u64 = av0 - mort_pp;
    let lap_pp: u64 = rate_apply(rem1, lapse);
    let rem2: u64 = rem1 - lap_pp;
    let pwd_pp: u64 = rate_apply(rem2, w);
    let rem3: u64 = rem2 - pwd_pp;
    let rc_want: u64 = rate_apply(bb0, rider_monthly);
    let rc_pp: u64 = if rc_want <= rem3 {
        rc_want
    } else {
        rem3
    };
    let rem4: u64 = rem3 - rc_pp;

    // Lives are decremented by mortality and lapse only.
    let lives1: u64 = lives0 - rate_apply(lives0, q);
    let lives2: u64 = lives1 - rate_apply(lives1, lapse);

    // Interest on the persisting account value.
    let annual_credit: u64 = match config.crediting {
        CreditingApproach::PolicyBased { fixed_annual_rate, indexed_annual_rate } => match policy
            .crediting_strategy {
            CreditingStrategy::Fixed => fixed_annual_rate,
            CreditingStrategy::Indexed => indexed_annual_rate,
        },
        CreditingApproach::Override { annual_rate } => annual_rate,
    };
    let credit: u64 = match policy.crediting_strategy {
        CreditingStrategy::Fixed => {
            rate_apply(rem4, step_fixed_credit_rate(annual_credit))
        },
        CreditingStrategy::Indexed => if m % 12 == 0 {
            rate_apply(rem4, annual_credit)
        } else {
            0
        },
    };
    let eop_u: u128 = rem4 as u128 + credit as u128;

    // Benefit-base rollup.
    let rollup_applies: bool = !activated && py <= assumptions.product.glwb.rollup_years as u32;
    let bb1_u: u128 = if !rollup_applies {
        bb0 as u128
    } else {
        match policy.rollup_type {
            RollupType::Simple => bb0 as u128 + (rate_apply(
                state.initial_bb_for_rollup,
                assumptions.product.glwb.rollup_rate,
            ) / 12) as u128,
            RollupType::Compound => {
                let factor = twelfth_root(RATE_ONE + assumptions.product.glwb.rollup_rate);
                proof {
                    lemma_u64_mul_fits(bb0 as int, factor as int);
                }
                (bb0 as u128) * (factor as u128) / (RATE_ONE as u128)
            },
        }
    };

    // Weighted amounts.
    let wmort_o = weight_by_lives(mort_pp, lives0);
    let wlap_o = weight_by_lives(lap_pp, lives0);
    let wpwd_o = weight_by_lives(pwd_pp, lives0);
    let wrc_o = weight_by_lives(rc_pp, lives0);
    let wcredit_o = weight_by_lives(credit, lives0);

    // Expenses.
    let exp_pp: u64 = rate_apply(av0, assumptions.product.base.expense_rate_of_av) / 12
        + assumptions.product.base.annual_expense_per_policy / 12;
    let wexp_o = weight_by_lives(exp_pp, lives0);

    // Commissions at issue.
    let (agent, imo_total_u, wh_total_u, cp_u): (u64, u128, u128, u128) = step_commissions(
        policy,
        &assumptions.product.commissions,
        m,
        state.commissions_paid,
    );
    proof {
        let (sagent, simo, swh, scp) = spec_issue_commissions(
            *policy,
            assumptions.product.commissions,
            m,
            old(state).commissions_paid,
        );
        assert(agent == sagent && imo_total_u as int == simo && wh_total_u as int == swh
            && cp_u as int == scp);
    }

    let stage_a_ok: bool = wmort_o.is_some() && wlap_o.is_some() && wpwd_o.is_some()
        && wrc_o.is_some() && wcredit_o.is_some() && wexp_o.is_some() && eop_u
        <= u64::MAX as u128 && bb1_u <= u64::MAX as u128 && cp_u <= u64::MAX as u128 && m
        < u32::MAX;
    let wmort: u64 = if stage_a_ok {
        wmort_o.unwrap()
    } else {
        0
    };
    let wlap: u64 = if stage_a_ok {
        wlap_o.unwrap()
    } else {
        0
    };
    let wpwd: u64 = if stage_a_ok {
        wpwd_o.unwrap()
    } else {
        0
    };
    let wrc: u64 = if stage_a_ok {
        wrc_o.unwrap()
    } else {
        0
    };
    let wcredit: u64 = if stage_a_ok {
        wcredit_o.unwrap()
    } else {
        0
    };
    let wexp: u64 = if stage_a_ok {
        wexp_o.unwrap()
    } else {
        0
    };
    let eop_pp: u64 = eop_u as u64;
    let bb1: u64 = bb1_u as u64;
    let cp: u64 = cp_u as u64;
    let imo_total: u64 = imo_total_u as u64;
    let wh_total: u64 = wh_total_u as u64;

    let weop_o: Option<u64> = if stage_a_ok {
        weight_by_lives(eop_pp, lives0)
    } else {
        None
    };
    let weop: u64 = match weop_o {
        Some(v) => v,
        None => 0,
    };

    // Surrender charges on the weighted lapse decrement.
    let sc_rate: u64 = assumptions.product.base.surrender_charges.get_rate(py);
    let surr: u64 = rate_apply(wlap, sc_rate);

    // Month-13 persistency bonus.
    let bonus: u64 = if m == 13 && policy.duration_months == 0 && lives0 > 0 {
        rate_apply(av0, assumptions.product.commissions.bonus_rate(policy.issue_age))
    } else {
        0
    };

    // Chargebacks: paid commissions times the schedule factor times the
    // lapsed share of the account value.
    let cb_factor: u64 = assumptions.product.commissions.chargeback_factor(m, py);
    let frac_o: Option<u64> = if !stage_a_ok {
        None
    } else if av0 > 0 {
        ratio_rate(wlap, av0)
    } else {
        Some(0)
    };
    let frac: u64 = match frac_o {
        Some(f) => f,
        None => 0,
    };
    let cb1: u64 = rate_apply(cp, cb_factor);
    proof {
        lemma_u64_mul_fits(cb1 as int, frac as int);
    }
    let cb_u: u128 = (cb1 as u128) * (frac as u128) / (RATE_ONE as u128);

    // Hedge gains on the indexed credit.
    let hedge: u64 = match config.hedge_params {
        Some(h) => match policy.crediting_strategy {
            CreditingStrategy::Indexed => if m % 12 == 0 {
                wcredit - rate_apply(wcredit, h.cost_ratio)
            } else {
                0
            },
            CreditingStrategy::Fixed => 0,
        },
        None => 0,
    };

    // Net cashflow to the insurer.
    let net_i: i128 = wrc as i128 + surr as i128 + cb_u as i128 + hedge as i128 - wexp as i128
        - agent as i128 - imo_total as i128 - wh_total as i128 - bonus as i128;
    if itm_o.is_none() || !stage_a_ok || weop_o.is_none() || frac_o.is_none() || cb_u
        > u64::MAX as u128 || net_i > i64::MAX as i128 || net_i < i64::MIN as i128 {
        proof {
            assert(spec_step_result(*policy, *assumptions, *config, *old(state)) is None) by {
                reveal(spec_step_result);
            }
        }
        return Err(ProjectionError::Numeric);
    }
    let cb: u64 = cb_u as u64;
    let net: i64 = net_i as i64;

    // Systematic GLWB income reduces the account value after crediting but
    // never the benefit base, and never below zero.
    let payout: u64 = if activated {
        rate_apply(bb1, assumptions.product.glwb.payout_factors.get_single_life(age)) / 12
    } else {
        0
    };
    let av_next: u64 = if eop_pp >= payout {
        eop_pp - payout
    } else {
        0
    };

    let row = CashflowRow {
        projection_month: m,
        policy_year: py,
        attained_age: age,
        bop_av: av0,
        bop_benefit_base: bb0,
        lives: lives0,
        final_mortality: q,
        final_lapse_rate: lapse,
        non_systematic_pwd_rate: w,
        rider_charge_rate: rider_monthly,
        mortality_dec: wmort,
        lapse_dec: wlap,
        pwd_dec: wpwd,
        rider_charges_dec: wrc,
        surrender_charges_dec: surr,
        interest_credits_dec: wcredit,
        eop_av: weop,
        expenses: wexp,
        agent_commission: agent,
        imo_override: imo_total,
        wholesaler_override: wh_total,
        bonus_comp: bonus,
        chargebacks: cb,
        hedge_gains: hedge,
        total_net_cashflow: net,
    };
    let next_state = ProjectionState {
        av: av_next,
        benefit_base: bb1,
        lives: lives2,
        policy_month: m + 1,
        income_activated: activated,
        initial_bb_for_rollup: state.initial_bb_for_rollup,
        commissions_paid: cp,
    };
    proof {
        assert(spec_step_result(*policy, *assumptions, *config, *old(state)) == Some(
            (row, next_state),
        )) by {
            reveal(spec_step_result);
        }
    }
    *state = next_state;
    Ok(row)
}

/// The monthly mortality rate from a well-formed table is a genuine rate.
pub proof fn lemma_monthly_q_bound(t: MortalityTable, age: u8, gender: Gender)
    requires
        t.wf(),
    ensures
        t.spec_monthly_q(age, gender) <= RATE_ONE,
{
    let s = match gender {
        Gender::Male => t.male_rates(),
        Gender::Female => t.female_rates(),
    };
    if (age as int) < s.len() {
        assert(s[age as int] <= RATE_ONE);
    } else if s.len() > 0 {
        assert(s[s.len() - 1] <= RATE_ONE);
    }
}

/// The laws of one projected month, stated of the row and the state after
/// it, for any month that produced a result:
///
/// - lives never increase;
/// - in policy year one there are no partial withdrawals;
/// - once income is activated the benefit base stops growing;
/// - an indexed policy is credited interest only in anniversary months, and
///   hedge gains arise only with that credit;
/// - surrender charges never exceed the lapse decrement at the largest
///   scheduled rate;
/// - the weighted decrements and the weighted persisting account value
///   balance the weighted opening value plus the credited interest to within
///   five fixed-point units of rounding.
#[verifier::rlimit(100)]
pub proof fn lemma_step_laws(
    p: Policy,
    a: Assumptions,
    c: ProjectionConfig,
    s: ProjectionState,
    row: CashflowRow,
    post: ProjectionState,
)
    requires
        a.wf(),
        c.wf(),
        s.policy_month >= 1,
        spec_step_result(p, a, c, s) == Some((row, post)),
    ensures
        row.projection_month == s.policy_month,
        row.policy_year == spec_policy_year(s.policy_month as int),
        row.lives == s.lives,
        row.bop_av == s.av,
        row.bop_benefit_base == s.benefit_base,
        post.policy_month == s.policy_month + 1,
        post.lives <= s.lives,
        row.policy_year == 1 ==> row.pwd_dec == 0,
        post.income_activated ==> post.benefit_base == s.benefit_base,
        p.crediting_strategy is Indexed && s.policy_month as int % 12 != 0
            ==> row.interest_credits_dec == 0 && row.hedge_gains == 0,
        row.surrender_charges_dec <= rmul(
            row.lapse_dec as int,
            spec_seq_max(a.product.base.surrender_charges.rates()) as int,
        ),
        rmul(row.bop_av as int, row.lives as int) + row.interest_credits_dec - 4
            <= row.mortality_dec + row.lapse_dec + row.pwd_dec + row.rider_charges_dec
            + row.eop_av,
        row.mortality_dec + row.lapse_dec + row.pwd_dec + row.rider_charges_dec + row.eop_av
            <= rmul(row.bop_av as int, row.lives as int) + row.interest_credits_dec + 1,
{
    reveal(spec_step_result);
    let m = s.policy_month as int;
    let py = spec_policy_year(m);
    assert(1 <= py <= u32::MAX);
    let age_i = spec_attained_age(p.issue_age as int, m);
    let age: u8 = if age_i <= 255 {
        age_i as u8
    } else {
        255u8
    };
    let activated = s.income_activated || (p.glwb_start_year != GLWB_NEVER && py
        == p.glwb_start_year && m % 12 == 1 && age >= a.product.glwb.min_activation_age);
    let av0 = s.av as int;
    let bb0 = s.benefit_base as int;
    let lives0 = s.lives as int;
    let q = a.mortality.spec_monthly_q(age, p.gender) as int;
    let lapse_itm = if av0 > 0 {
        bb0 * RATE_ONE / av0
    } else {
        0
    };
    let lapse = (match c.fixed_lapse_rate {
        Some(l) => l,
        None => a.lapse.spec_rate(py, activated, p.benefit_base_bucket, p.sc_period as int,
            lapse_itm),
    }) as int;
    // The composed lapse rate is capped at one by construction.
    if c.fixed_lapse_rate is None {
        reveal(LapseTable::spec_rate);
        let base = a.lapse.spec_base_rate(py, activated, p.sc_period as int) as int;
        let bf = a.lapse.spec_bucket_factor(p.benefit_base_bucket) as int;
        crate::fixed::lemma_rmul_nonneg(base, bf);
        crate::fixed::lemma_rmul_nonneg(
            rmul(base, bf),
            a.lapse.spec_itm_factor(lapse_itm, activated) as int,
        );
    }
    assert(0 <= lapse <= RATE_ONE);
    let annual_pwd = a.pwd.spec_annual_pwd_rate(
        py,
        age,
        p.qual_status,
        activated,
        a.product.base.free_withdrawal_pct,
    );
    let w = if py == 1 {
        0int
    } else {
        spec_monthly_from_annual(annual_pwd)
    };
    lemma_monthly_q_bound(a.mortality, age, p.gender);
    crate::pwd::lemma_annual_pwd_bound(
        a.pwd,
        py,
        age,
        p.qual_status,
        activated,
        a.product.base.free_withdrawal_pct,
    );
    if py != 1 {
        crate::fixed::lemma_monthly_from_annual_bounds(annual_pwd);
    }
    let rider_monthly = a.product.glwb.spec_annual_charge(activated) as int / 12;
    // The decrement chain stays within the opening account value.
    let mort_pp = rmul(av0, q);
    lemma_rmul_le(av0, q);
    let rem1 = av0 - mort_pp;
    let lap_pp = rmul(rem1, lapse);
    lemma_rmul_le(rem1, lapse);
    let rem2 = rem1 - lap_pp;
    let pwd_pp = rmul(rem2, w);
    lemma_rmul_le(rem2, w);
    let rem3 = rem2 - pwd_pp;
    let rc_want = rmul(bb0, rider_monthly);
    lemma_rmul_le(bb0, rider_monthly);
    let rc_pp = if rc_want <= rem3 {
        rc_want
    } else {
        rem3
    };
    let rem4 = rem3 - rc_pp;
    // Lives shrink through both decrements.
    lemma_rmul_le(lives0, q);
    let lives1 = lives0 - rmul(lives0, q);
    lemma_rmul_le(lives1, lapse);
    let lives2 = lives1 - rmul(lives1, lapse);
    // Interest is a rate application on the remainder.
    let annual_credit = (match c.crediting {
        CreditingApproach::PolicyBased { fixed_annual_rate, indexed_annual_rate } => match p
            .crediting_strategy {
            CreditingStrategy::Fixed => fixed_annual_rate,
            CreditingStrategy::Indexed => indexed_annual_rate,
        },
        CreditingApproach::Override { annual_rate } => annual_rate,
    }) as int;
    let credit = match p.crediting_strategy {
        CreditingStrategy::Fixed => rmul(
            rem4,
            spec_twelfth_root(RATE_ONE + annual_credit) - RATE_ONE,
        ),
        CreditingStrategy::Indexed => if m % 12 == 0 {
            rmul(rem4, annual_credit)
        } else {
            0
        },
    };
    crate::fixed::lemma_twelfth_root_bounds(RATE_ONE + annual_credit);
    if p.crediting_strategy is Fixed {
        lemma_rmul_le(rem4, spec_twelfth_root(RATE_ONE + annual_credit) - RATE_ONE);
    } else if m % 12 == 0 {
        lemma_rmul_le(rem4, annual_credit);
    }
    let eop_pp = rem4 + credit;
    if py == 1 {
        vstd::arithmetic::mul::lemma_mul_basics(rem2);
        vstd::arithmetic::mul::lemma_mul_basics(lives0);
        assert(rmul(rem2, 0) == 0);
        assert(rmul(0, lives0) == 0);
    }
    // The exact per-policy balance identity, then weighted.
    assert(mort_pp + lap_pp + pwd_pp + rc_pp + eop_pp == av0 + credit);
    crate::fixed::lemma_rmul_nonneg(mort_pp, lives0);
    crate::fixed::lemma_rmul_nonneg(lap_pp, lives0);
    crate::fixed::lemma_rmul_nonneg(pwd_pp, lives0);
    crate::fixed::lemma_rmul_nonneg(rc_pp, lives0);
    crate::fixed::lemma_rmul_nonneg(eop_pp, lives0);
    crate::fixed::lemma_rmul_nonneg(credit, lives0);
    crate::fixed::lemma_rmul_nonneg(av0, lives0);
    lemma_weighted_conservation(mort_pp, lap_pp, pwd_pp, rc_pp, eop_pp, av0, credit, lives0);
    // Surrender charges at the scheduled rate, bounded by the maximum rate.
    let wlap = rmul(lap_pp, lives0);
    let sc_rate = a.product.base.surrender_charges.spec_get_rate(py) as int;
    lemma_schedule_rate_le_max(a.product.base.surrender_charges, py);
    lemma_rmul_monotone_rate(
        wlap,
        sc_rate,
        spec_seq_max(a.product.base.surrender_charges.rates()) as int,
    );
}

/// Why a policy fails validation at projection entry.
#[derive(Clone, Copy, PartialEq, Eq, Structural, Debug)]
pub enum ValidationIssue {
    IssueAgeOutOfRange,
    PremiumBelowMinimum,
    GlwbStartYearZero,
}

/// Why a projection stops without a result.
#[derive(Clone, Copy, PartialEq, Eq, Structural, Debug)]
pub enum ProjectionError {
    /// The policy failed validation; nothing was projected.
    Validation(ValidationIssue),
    /// A value left the fixed-point range mid-projection.
    Numeric,
}

/// Validation of a policy at projection entry: the first issue found, in a
/// fixed order, or nothing.
pub open spec fn spec_validation(
    p: Policy,
    base: crate::product::BaseProductFeatures,
) -> Option<ValidationIssue> {
    if p.issue_age < base.min_issue_age || p.issue_age > base.max_issue_age {
        Some(ValidationIssue::IssueAgeOutOfRange)
    } else if p.initial_premium < base.min_premium {
        Some(ValidationIssue::PremiumBelowMinimum)
    } else if p.glwb_start_year == 0 {
        Some(ValidationIssue::GlwbStartYearZero)
    } else {
        None
    }
}

/// Checks a policy against the product's issue rules.
pub fn validate_policy(policy: &Policy, base: &crate::product::BaseProductFeatures) -> (r: Result<
    (),
    ValidationIssue,
>)
    ensures
        match r {
            Ok(_) => spec_validation(*policy, *base) is None,
            Err(v) => spec_validation(*policy, *base) == Some(v),
        },
{
    if policy.issue_age < base.min_issue_age || policy.issue_age > base.max_issue_age {
        Err(ValidationIssue::IssueAgeOutOfRange)
    } else if policy.initial_premium < base.min_premium {
        Err(ValidationIssue::PremiumBelowMinimum)
    } else if policy.glwb_start_year == 0 {
        Err(ValidationIssue::GlwbStartYearZero)
    } else {
        Ok(())
    }
}

/// The per-row laws every emitted cashflow row satisfies:
/// no partial withdrawals in policy year one; indexed interest and hedge
/// gains only in anniversary months; surrender charges bounded by the lapse
/// decrement at the largest scheduled rate; and the weighted monthly balance
/// identity within five units of rounding.
pub open spec fn spec_row_laws_common(a: Assumptions, row: CashflowRow) -> bool {
    &&& (row.policy_year == 1 ==> row.pwd_dec == 0)
    &&& row.surrender_charges_dec <= rmul(
        row.lapse_dec as int,
        spec_seq_max(a.product.base.surrender_charges.rates()) as int,
    )
    &&& rmul(row.bop_av as int, row.lives as int) + row.interest_credits_dec - 4
        <= row.mortality_dec + row.lapse_dec + row.pwd_dec + row.rider_charges_dec + row.eop_av
    &&& row.mortality_dec + row.lapse_dec + row.pwd_dec + row.rider_charges_dec + row.eop_av
        <= rmul(row.bop_av as int, row.lives as int) + row.interest_credits_dec + 1
}

/// The per-row laws together with the crediting-timing law of the policy's
/// own strategy.
pub open spec fn spec_row_laws(p: Policy, a: Assumptions, row: CashflowRow) -> bool {
    &&& spec_row_laws_common(a, row)
    &&& (p.crediting_strategy is Indexed && row.projection_month as int % 12 != 0
        ==> row.interest_credits_dec == 0 && row.hedge_gains == 0)
}

/// The cashflows of one projected policy, and the lives still in force when
/// the projection ended.
#[derive(Clone, Debug)]
pub struct ProjectionResult {
    pub cashflows: Vec<CashflowRow>,
    pub final_lives: u64,
}

/// The state a projection starts from: overrides when projecting an
/// existing inforce mid-life, the issue values otherwise.
pub open spec fn spec_initial_state(p: Policy) -> ProjectionState {
    ProjectionState {
        av: match p.current_av {
            Some(v) => v,
            None => p.initial_premium,
        },
        benefit_base: match p.current_benefit_base {
            Some(v) => v,
            None => p.initial_benefit_base,
        },
        lives: p.initial_pols,
        policy_month: (p.duration_months + 1) as u32,
        income_activated: p.income_activated,
        initial_bb_for_rollup: p.initial_benefit_base,
        commissions_paid: 0,
    }
}

/// The rows the engine emits from a state over at most `n` months: one row
/// per month until the lives run out, and nothing at all when some month
/// leaves the fixed-point range.
pub open spec fn spec_trajectory(
    p: Policy,
    a: Assumptions,
    c: ProjectionConfig,
    s: ProjectionState,
    n: int,
) -> Option<Seq<CashflowRow>>
    decreases n,
{
    if n <= 0 {
        Some(Seq::empty())
    } else {
        match spec_step_result(p, a, c, s) {
            None => None,
            Some((row, post)) => {
                if post.lives == 0 {
                    Some(seq![row])
                } else {
                    match spec_trajectory(p, a, c, post, n - 1) {
                        None => None,
                        Some(rest) => Some(seq![row] + rest),
                    }
                }
            },
        }
    }
}

/// Projects a policy month by month. Validation failures are reported
/// before any month is projected; the numeric error comes exactly when the
/// engine's trajectory leaves the fixed-point range within the horizon (or
/// the elapsed duration cannot advance). On success the returned rows are
/// exactly the engine's trajectory; every row satisfies the per-row laws,
/// months are consecutive from the policy's elapsed duration, and lives
/// never increase from row to row.
pub fn project_policy(
    policy: &Policy,
    assumptions: &Assumptions,
    config: &ProjectionConfig,
) -> (r: Result<ProjectionResult, ProjectionError>)
    requires
        assumptions.wf(),
        config.wf(),
    ensures
        match r {
            Err(ProjectionError::Validation(v)) => spec_validation(
                *policy,
                assumptions.product.base,
            ) == Some(v),
            Err(ProjectionError::Numeric) => {
                &&& spec_validation(*policy, assumptions.product.base) is None
                &&& (policy.duration_months == u32::MAX || spec_trajectory(
                    *policy,
                    *assumptions,
                    *config,
                    spec_initial_state(*policy),
                    config.projection_months as int,
                ) is None)
            },
            Ok(res) => {
                &&& spec_validation(*policy, assumptions.product.base) is None
                &&& policy.duration_months < u32::MAX
                &&& Some(res.cashflows@) == spec_trajectory(
                    *policy,
                    *assumptions,
                    *config,
                    spec_initial_state(*policy),
                    config.projection_months as int,
                )
                &&& res.cashflows@.len() <= config.projection_months
                &&& (res.cashflows@.len() < config.projection_months ==> res.final_lives == 0)
                &&& (res.cashflows@.len() > 0 ==> res.final_lives <= res.cashflows@.last().lives)
                &&& forall|i: int|
                    0 <= i < res.cashflows@.len() ==> spec_row_laws(
                        *policy,
                        *assumptions,
                        #[trigger] res.cashflows@[i],
                    )
                &&& forall|i: int|
                    0 <= i < res.cashflows@.len() ==> (
                    #[trigger] res.cashflows@[i]).projection_month == policy.duration_months + 1
                        + i
                &&& forall|i: int|
                    0 <= i && i + 1 < res.cashflows@.len() ==> (#[trigger] res.cashflows@[i
                        + 1]).lives <= res.cashflows@[i].lives
            },
        },
{
    if let Err(v) = validate_policy(policy, &assumptions.product.base) {
        return Err(ProjectionError::Validation(v));
    }
    if policy.duration_months == u32::MAX {
        return Err(ProjectionError::Numeric);
    }
    let start_av: u64 = match policy.current_av {
        Some(v) => v,
        None => policy.initial_premium,
    };
    let start_bb: u64 = match policy.current_benefit_base {
        Some(v) => v,
        None => policy.initial_benefit_base,
    };
    let mut state = ProjectionState {
        av: start_av,
        benefit_base: start_bb,
        lives: policy.initial_pols,
        policy_month: policy.duration_months + 1,
        income_activated: policy.income_activated,
        initial_bb_for_rollup: policy.initial_benefit_base,
        commissions_paid: 0,
    };
    let mut cashflows: Vec<CashflowRow> = Vec::new();
    let ghost s0 = spec_initial_state(*policy);
    let ghost horizon = config.projection_months as int;
    proof {
        assert(state == s0);
        match spec_trajectory(*policy, *assumptions, *config, s0, horizon) {
            Some(rest) => {
                assert(Seq::<CashflowRow>::empty() + rest =~= rest);
            },
            None => {},
        }
    }
    let mut k: u32 = 0;
    let mut alive: bool = true;
    while k < config.projection_months && alive
        invariant
            assumptions.wf(),
            config.wf(),
            spec_validation(*policy, assumptions.product.base) is None,
            policy.duration_months < u32::MAX,
            s0 == spec_initial_state(*policy),
            horizon == config.projection_months as int,
            k as int == cashflows@.len(),
            k <= config.projection_months,
            !alive ==> state.lives == 0,
            alive ==> spec_trajectory(*policy, *assumptions, *config, s0, horizon) == (
            match spec_trajectory(*policy, *assumptions, *config, state, horizon - k) {
                None => None::<Seq<CashflowRow>>,
                Some(rest) => Some(cashflows@ + rest),
            }),
            !alive ==> spec_trajectory(*policy, *assumptions, *config, s0, horizon) == Some(
                cashflows@,
            ),
            state.policy_month as int == policy.duration_months + 1 + k,
            forall|i: int|
                0 <= i < cashflows@.len() ==> spec_row_laws(
                    *policy,
                    *assumptions,
                    #[trigger] cashflows@[i],
                ),
            forall|i: int|
                0 <= i < cashflows@.len() ==> (#[trigger] cashflows@[i]).projection_month
                    == policy.duration_months + 1 + i,
            forall|i: int|
                0 <= i && i + 1 < cashflows@.len() ==> (#[trigger] cashflows@[i + 1]).lives
                    <= cashflows@[i].lives,
            cashflows@.len() > 0 ==> state.lives <= cashflows@.last().lives,
        decreases config.projection_months - k,
    {
        let ghost pre = state;
        let row = match project_month(policy, assumptions, config, &mut state) {
            Ok(row) => row,
            Err(e) => {
                proof {
                    // This month has no result, so neither has the whole
                    // trajectory.
                    assert(spec_trajectory(*policy, *assumptions, *config, pre, horizon - k)
                        is None);
                }
                return Err(e);
            },
        };
        proof {
            lemma_step_laws(*policy, *assumptions, *config, pre, row, state);
        }
        let ghost prev_rows = cashflows@;
        cashflows.push(row);
        proof {
            // Extend the trajectory prefix by this month's row.
            assert(spec_trajectory(*policy, *assumptions, *config, pre, horizon - k) == (
            if state.lives == 0 {
                Some(seq![row])
            } else {
                match spec_trajectory(*policy, *assumptions, *config, state, horizon - k - 1) {
                    None => None::<Seq<CashflowRow>>,
                    Some(rest) => Some(seq![row] + rest),
                }
            }));
            if state.lives == 0 {
                assert(prev_rows + seq![row] =~= cashflows@);
            } else {
                match spec_trajectory(*policy, *assumptions, *config, state, horizon - k - 1) {
                    Some(rest) => {
                        assert(prev_rows + (seq![row] + rest) =~= cashflows@ + rest);
                    },
                    None => {},
                }
            }
        }
        proof {
            assert forall|i: int|
                0 <= i && i + 1 < cashflows@.len() implies (#[trigger] cashflows@[i + 1]).lives
                <= cashflows@[i].lives by {
                if i + 1 < prev_rows.len() {
                    assert(cashflows@[i + 1] == prev_rows[i + 1]);
                    assert(cashflows@[i] == prev_rows[i]);
                } else {
                    assert(cashflows@[i + 1] == row);
                    assert(cashflows@[i] == prev_rows[i]);
                    assert(prev_rows[i] == prev_rows[prev_rows.len() - 1]);
                }
            }
        }
        if state.lives == 0 {
            alive = false;
        }
        k += 1;
    }
    proof {
        if alive {
            assert(spec_trajectory(*policy, *assumptions, *config, state, horizon - k) == Some(
                Seq::<CashflowRow>::empty(),
            ));
            assert(cashflows@ + Seq::<CashflowRow>::empty() =~= cashflows@);
        }
    }
    Ok(ProjectionResult { cashflows, final_lives: state.lives })
}

/// One failed policy of a block run: its identifier and what went wrong.
#[derive(Clone, Copy, Debug)]
pub struct FailedPolicy {
    pub policy_id: u32,
    pub error: ProjectionError,
}

/// A block run: the projected policies, in input order, and the policies
/// that failed, recorded and skipped.
#[derive(Clone, Debug)]
pub struct BlockResult {
    pub results: Vec<ProjectionResult>,
    pub failed: Vec<FailedPolicy>,
}

/// The error `project_policy` reports for a policy, or nothing when the
/// projection succeeds.
pub open spec fn spec_policy_error(p: Policy, a: Assumptions, c: ProjectionConfig) -> Option<
    ProjectionError,
> {
    match spec_validation(p, a.product.base) {
        Some(v) => Some(ProjectionError::Validation(v)),
        None => if p.duration_months == u32::MAX || spec_trajectory(
            p,
            a,
            c,
            spec_initial_state(p),
            c.projection_months as int,
        ) is None {
            Some(ProjectionError::Numeric)
        } else {
            None
        },
    }
}

/// The failure records of the first `i` policies of a block, in input order.
pub open spec fn spec_failed_upto(
    ps: Seq<Policy>,
    a: Assumptions,
    c: ProjectionConfig,
    i: int,
) -> Seq<FailedPolicy>
    decreases i,
{
    if i <= 0 {
        Seq::empty()
    } else {
        spec_failed_upto(ps, a, c, i - 1) + (match spec_policy_error(ps[i - 1], a, c) {
            Some(e) => seq![FailedPolicy { policy_id: ps[i - 1].policy_id, error: e }],
            None => Seq::empty(),
        })
    }
}

/// The emitted rows of each successfully projected policy among the first
/// `i` of a block, in input order.
pub open spec fn spec_result_rows_upto(
    ps: Seq<Policy>,
    a: Assumptions,
    c: ProjectionConfig,
    i: int,
) -> Seq<Seq<CashflowRow>>
    decreases i,
{
    if i <= 0 {
        Seq::empty()
    } else {
        spec_result_rows_upto(ps, a, c, i - 1) + (if spec_policy_error(ps[i - 1], a, c) is Some {
            Seq::empty()
        } else {
            match spec_trajectory(
                ps[i - 1],
                a,
                c,
                spec_initial_state(ps[i - 1]),
                c.projection_months as int,
            ) {
                Some(rows) => seq![rows],
                None => Seq::empty(),
            }
        })
    }
}

/// Projects a block of policies one by one. A policy that fails validation
/// or leaves the numeric range is recorded under `failed`, in input order
/// and with exactly the error `project_policy` reports, and the run goes on;
/// the successful results are exactly the engine's trajectories of the
/// remaining policies, in input order, and every emitted row satisfies the
/// per-row laws.
pub fn project_block(
    policies: &Vec<Policy>,
    assumptions: &Assumptions,
    config: &ProjectionConfig,
) -> (r: BlockResult)
    requires
        assumptions.wf(),
        config.wf(),
    ensures
        r.results@.len() + r.failed@.len() == policies@.len(),
        r.failed@ == spec_failed_upto(policies@, *assumptions, *config, policies@.len() as int),
        r.results@.len() == spec_result_rows_upto(
            policies@,
            *assumptions,
            *config,
            policies@.len() as int,
        ).len(),
        forall|j: int|
            0 <= j < r.results@.len() ==> (#[trigger] r.results@[j]).cashflows@
                == spec_result_rows_upto(
                policies@,
                *assumptions,
                *config,
                policies@.len() as int,
            )[j],
        forall|j: int|
            0 <= j < r.results@.len() ==> forall|i: int|
                0 <= i < (#[trigger] r.results@[j]).cashflows@.len() ==> spec_row_laws_common(
                    *assumptions,
                    #[trigger] r.results@[j].cashflows@[i],
                ),
{
    let mut results: Vec<ProjectionResult> = Vec::new();
    let mut failed: Vec<FailedPolicy> = Vec::new();
    let mut i: usize = 0;
    while i < policies.len()
        invariant
            assumptions.wf(),
            config.wf(),
            0 <= i <= policies@.len(),
            results@.len() + failed@.len() == i,
            failed@ == spec_failed_upto(policies@, *assumptions, *config, i as int),
            results@.len() == spec_result_rows_upto(
                policies@,
                *assumptions,
                *config,
                i as int,
            ).len(),
            forall|j: int|
                0 <= j < results@.len() ==> (#[trigger] results@[j]).cashflows@
                    == spec_result_rows_upto(policies@, *assumptions, *config, i as int)[j],
            forall|j: int|
                0 <= j < results@.len() ==> forall|k: int|
                    0 <= k < (#[trigger] results@[j]).cashflows@.len()
                        ==> spec_row_laws_common(
                        *assumptions,
                        #[trigger] results@[j].cashflows@[k],
                    ),
        decreases policies@.len() - i,
    {
        let policy = &policies[i];
        let ghost prev_results = results@;
        let ghost prev_failed = failed@;
        match project_policy(policy, assumptions, config) {
            Ok(res) => {
                proof {
                    assert(spec_policy_error(policies@[i as int], *assumptions, *config)
                        is None);
                }
                results.push(res);
                proof {
                    let rows = spec_result_rows_upto(
                        policies@,
                        *assumptions,
                        *config,
                        i as int + 1,
                    );
                    assert(results@ =~= prev_results.push(res));
                    assert(rows =~= spec_result_rows_upto(
                        policies@,
                        *assumptions,
                        *config,
                        i as int,
                    ).push(res.cashflows@));
                    assert(failed@ == spec_failed_upto(
                        policies@,
                        *assumptions,
                        *config,
                        i as int + 1,
                    )) by {
                        assert(prev_failed + Seq::<FailedPolicy>::empty() =~= prev_failed);
                    }
                }
            },
            Err(e) => {
                proof {
                    assert(spec_policy_error(policies@[i as int], *assumptions, *config) == Some(
                        e,
                    ));
                }
                failed.push(FailedPolicy { policy_id: policy.policy_id, error: e });
                proof {
                    assert(failed@ =~= spec_failed_upto(
                        policies@,
                        *assumptions,
                        *config,
                        i as int + 1,
                    ));
                    assert(spec_result_rows_upto(policies@, *assumptions, *config, i as int + 1)
                        =~= spec_result_rows_upto(policies@, *assumptions, *config, i as int)) by {
                        assert(spec_result_rows_upto(policies@, *assumptions, *config, i as int)
                            + Seq::<Seq<CashflowRow>>::empty() =~= spec_result_rows_upto(
                            policies@,
                            *assumptions,
                            *config,
                            i as int,
                        ));
                    }
                }
            },
        }
        i += 1;
    }
    BlockResult { results, failed }
}


/// Running totals of one projection month across a block, in the row's own
/// units (micro-dollars and fixed-point lives).
#[derive(Clone, Copy, Debug)]
pub struct MonthlyTotals {
    /// The 1-based projection month the totals belong to.
    pub month: u32,
    pub bop_av: u128,
    pub bop_benefit_base: u128,
    pub lives: u128,
    pub mortality_dec: u128,
    pub lapse_dec: u128,
    pub pwd_dec: u128,
    pub rider_charges_dec: u128,
    pub surrender_charges_dec: u128,
    pub interest_credits_dec: u128,
    pub eop_av: u128,
    pub expenses: u128,
    pub agent_commission: u128,
    pub imo_override: u128,
    pub wholesaler_override: u128,
    pub bonus_comp: u128,
    pub chargebacks: u128,
    pub hedge_gains: u128,
    pub total_net_cashflow: i128,
}

impl MonthlyTotals {
    /// Empty totals for a month.
    pub fn new(month: u32) -> (r: Self)
        ensures
            r.month == month,
            r == (MonthlyTotals {
                month,
            bop_av: 0,
            bop_benefit_base: 0,
            lives: 0,
            mortality_dec: 0,
            lapse_dec: 0,
            pwd_dec: 0,
            rider_charges_dec: 0,
            surrender_charges_dec: 0,
            interest_credits_dec: 0,
            eop_av: 0,
            expenses: 0,
            agent_commission: 0,
            imo_override: 0,
            wholesaler_override: 0,
            bonus_comp: 0,
            chargebacks: 0,
            hedge_gains: 0,
                total_net_cashflow: 0,
            }),
    {
        MonthlyTotals {
            month,
            bop_av: 0,
            bop_benefit_base: 0,
            lives: 0,
            mortality_dec: 0,
            lapse_dec: 0,
            pwd_dec: 0,
            rider_charges_dec: 0,
            surrender_charges_dec: 0,
            interest_credits_dec: 0,
            eop_av: 0,
            expenses: 0,
            agent_commission: 0,
            imo_override: 0,
            wholesaler_override: 0,
            bonus_comp: 0,
            chargebacks: 0,
            hedge_gains: 0,
            total_net_cashflow: 0,
        }
    }
}

/// Whether a row's amounts still fit onto the totals.
pub open spec fn spec_totals_fit(t: MonthlyTotals, row: CashflowRow) -> bool {
            &&& t.bop_av + row.bop_av <= u128::MAX
            &&& t.bop_benefit_base + row.bop_benefit_base <= u128::MAX
            &&& t.lives + row.lives <= u128::MAX
            &&& t.mortality_dec + row.mortality_dec <= u128::MAX
            &&& t.lapse_dec + row.lapse_dec <= u128::MAX
            &&& t.pwd_dec + row.pwd_dec <= u128::MAX
            &&& t.rider_charges_dec + row.rider_charges_dec <= u128::MAX
            &&& t.surrender_charges_dec + row.surrender_charges_dec <= u128::MAX
            &&& t.interest_credits_dec + row.interest_credits_dec <= u128::MAX
            &&& t.eop_av + row.eop_av <= u128::MAX
            &&& t.expenses + row.expenses <= u128::MAX
            &&& t.agent_commission + row.agent_commission <= u128::MAX
            &&& t.imo_override + row.imo_override <= u128::MAX
            &&& t.wholesaler_override + row.wholesaler_override <= u128::MAX
            &&& t.bonus_comp + row.bonus_comp <= u128::MAX
            &&& t.chargebacks + row.chargebacks <= u128::MAX
            &&& t.hedge_gains + row.hedge_gains <= u128::MAX
    &&& i128::MIN <= t.total_net_cashflow + row.total_net_cashflow <= i128::MAX
}

/// Adds one cashflow row onto a month's totals: every column is the exact
/// sum, or nothing when a column would leave its range.
pub fn accumulate_row(t: &MonthlyTotals, row: &CashflowRow) -> (r: Option<MonthlyTotals>)
    ensures
        match r {
            Some(v) => {
                &&& spec_totals_fit(*t, *row)
                &&& v.month == t.month
                &&& v.bop_av == t.bop_av + row.bop_av
                &&& v.bop_benefit_base == t.bop_benefit_base + row.bop_benefit_base
                &&& v.lives == t.lives + row.lives
                &&& v.mortality_dec == t.mortality_dec + row.mortality_dec
                &&& v.lapse_dec == t.lapse_dec + row.lapse_dec
                &&& v.pwd_dec == t.pwd_dec + row.pwd_dec
                &&& v.rider_charges_dec == t.rider_charges_dec + row.rider_charges_dec
                &&& v.surrender_charges_dec == t.surrender_charges_dec + row.surrender_charges_dec
                &&& v.interest_credits_dec == t.interest_credits_dec + row.interest_credits_dec
                &&& v.eop_av == t.eop_av + row.eop_av
                &&& v.expenses == t.expenses + row.expenses
                &&& v.agent_commission == t.agent_commission + row.agent_commission
                &&& v.imo_override == t.imo_override + row.imo_override
                &&& v.wholesaler_override == t.wholesaler_override + row.wholesaler_override
                &&& v.bonus_comp == t.bonus_comp + row.bonus_comp
                &&& v.chargebacks == t.chargebacks + row.chargebacks
                &&& v.hedge_gains == t.hedge_gains + row.hedge_gains
                &&& v.total_net_cashflow == t.total_net_cashflow + row.total_net_cashflow
            },
            None => !spec_totals_fit(*t, *row),
        },
{
    if t.bop_av > u128::MAX - row.bop_av as u128 || t.bop_benefit_base > u128::MAX - row.bop_benefit_base as u128 || t.lives > u128::MAX - row.lives as u128 || t.mortality_dec > u128::MAX - row.mortality_dec as u128 || t.lapse_dec > u128::MAX - row.lapse_dec as u128 || t.pwd_dec > u128::MAX - row.pwd_dec as u128 || t.rider_charges_dec > u128::MAX - row.rider_charges_dec as u128 || t.surrender_charges_dec > u128::MAX - row.surrender_charges_dec as u128 || t.interest_credits_dec > u128::MAX - row.interest_credits_dec as u128 || t.eop_av > u128::MAX - row.eop_av as u128 || t.expenses > u128::MAX - row.expenses as u128 || t.agent_commission > u128::MAX - row.agent_commission as u128 || t.imo_override > u128::MAX - row.imo_override as u128 || t.wholesaler_override > u128::MAX - row.wholesaler_override as u128 || t.bonus_comp > u128::MAX - row.bonus_comp as u128 || t.chargebacks > u128::MAX - row.chargebacks as u128 || t.hedge_gains > u128::MAX - row.hedge_gains as u128
        || (row.total_net_cashflow >= 0 && t.total_net_cashflow > i128::MAX
            - row.total_net_cashflow as i128) || (row.total_net_cashflow < 0
        && t.total_net_cashflow < i128::MIN - row.total_net_cashflow as i128) {
        return None;
    }
    Some(
        MonthlyTotals {
            month: t.month,
            bop_av: t.bop_av + row.bop_av as u128,
            bop_benefit_base: t.bop_benefit_base + row.bop_benefit_base as u128,
            lives: t.lives + row.lives as u128,
            mortality_dec: t.mortality_dec + row.mortality_dec as u128,
            lapse_dec: t.lapse_dec + row.lapse_dec as u128,
            pwd_dec: t.pwd_dec + row.pwd_dec as u128,
            rider_charges_dec: t.rider_charges_dec + row.rider_charges_dec as u128,
            surrender_charges_dec: t.surrender_charges_dec + row.surrender_charges_dec as u128,
            interest_credits_dec: t.interest_credits_dec + row.interest_credits_dec as u128,
            eop_av: t.eop_av + row.eop_av as u128,
            expenses: t.expenses + row.expenses as u128,
            agent_commission: t.agent_commission + row.agent_commission as u128,
            imo_override: t.imo_override + row.imo_override as u128,
            wholesaler_override: t.wholesaler_override + row.wholesaler_override as u128,
            bonus_comp: t.bonus_comp + row.bonus_comp as u128,
            chargebacks: t.chargebacks + row.chargebacks as u128,
            hedge_gains: t.hedge_gains + row.hedge_gains as u128,
            total_net_cashflow: t.total_net_cashflow + row.total_net_cashflow as i128,
        },
    )
}

} // verus!
