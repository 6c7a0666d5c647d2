//! Product features: surrender charges, payout factors, rider terms, base
//! product parameters and commission assumptions.
//!
//! All rates are annual and scaled by [`crate::fixed::RATE_ONE`] unless the
//! name says `monthly_`; monetary amounts are in micro-dollars.

use vstd::prelude::*;

use crate::fixed::{is_twelfth_root, rate_apply, rmul, twelfth_root, RATE_ONE};

verus! {

/// Surrender charge schedule by policy year (1-indexed).
#[derive(Clone, Debug)]
pub struct SurrenderChargeSchedule {
    charges: Vec<u64>,
}

impl SurrenderChargeSchedule {
    /// The schedule as a sequence of annual rates, policy year 1 first.
    pub closed spec fn rates(self) -> Seq<u64> {
        self.charges@
    }

    /// Every scheduled rate is a genuine rate and the schedule length fits
    /// its year counter.
    pub open spec fn wf(self) -> bool {
        &&& forall|i: int| 0 <= i < self.rates().len() ==> self.rates()[i] <= RATE_ONE
        &&& self.rates().len() <= u32::MAX
    }

    /// The rate charged in a policy year: year 0 is read as year 1, years
    /// beyond the schedule are free of charge.
    pub open spec fn spec_get_rate(self, policy_year: int) -> u64 {
        if self.rates().len() == 0 {
            0u64
        } else if policy_year <= 0 {
            self.rates()[0]
        } else if policy_year - 1 < self.rates().len() {
            self.rates()[policy_year - 1]
        } else {
            0u64
        }
    }

    /// Create from rates loaded at the boundary.
    pub fn from_loaded(charges: Vec<u64>) -> (r: Self)
        requires
            forall|i: int| 0 <= i < charges@.len() ==> charges@[i] <= RATE_ONE,
            charges@.len() <= u32::MAX,
        ensures
            r.rates() == charges@,
            r.wf(),
    {
        Self { charges }
    }

    /// The default 10-year schedule: 9% in the first two years, then grading
    /// off by one point a year to 1% in year 10 and 0 afterwards.
    pub fn default_10_year() -> (r: Self)
        ensures
            r.rates() =~= spec_default_schedule_rates(),
            r.wf(),
    {
        let charges: Vec<u64> = vec![
            900_000_000,
            900_000_000,
            800_000_000,
            700_000_000,
            600_000_000,
            500_000_000,
            400_000_000,
            300_000_000,
            200_000_000,
            100_000_000,
        ];
        Self { charges }
    }

    /// Surrender charge rate for a policy year.
    pub fn get_rate(&self, policy_year: u32) -> (r: u64)
        ensures
            r == self.spec_get_rate(policy_year as int),
            self.wf() ==> r <= RATE_ONE,
    {
        if policy_year == 0 {
            if self.charges.len() > 0 {
                self.charges[0]
            } else {
                0
            }
        } else {
            let idx = (policy_year - 1) as usize;
            if idx < self.charges.len() {
                self.charges[idx]
            } else {
                0
            }
        }
    }

    /// Whether a policy year still lies in the surrender charge period.
    pub fn in_sc_period(&self, policy_year: u32) -> (r: bool)
        ensures
            r == (self.spec_get_rate(policy_year as int) > 0),
    {
        self.get_rate(policy_year) > 0
    }

    /// Length of the surrender charge period in years.
    pub fn sc_period_years(&self) -> (r: u32)
        requires
            self.wf(),
        ensures
            r == self.rates().len(),
    {
        self.charges.len() as u32
    }

    /// The largest rate anywhere in the schedule.
    pub fn max_rate(&self) -> (r: u64)
        ensures
            r == spec_seq_max(self.rates()),
    {
        let mut m: u64 = 0;
        let mut i: usize = 0;
        while i < self.charges.len()
            invariant
                0 <= i <= self.charges@.len(),
                m == spec_seq_max(self.charges@.take(i as int)),
            decreases self.charges@.len() - i,
        {
            proof {
                assert(self.charges@.take(i + 1).drop_last() =~= self.charges@.take(i as int));
                assert(self.charges@.take(i + 1).last() == self.charges@[i as int]);
            }
            if self.charges[i] > m {
                m = self.charges[i];
            }
            i += 1;
        }
        proof {
            assert(self.charges@.take(self.charges@.len() as int) =~= self.charges@);
        }
        m
    }
}

/// The default 10-year surrender schedule as a mathematical table.
pub open spec fn spec_default_schedule_rates() -> Seq<u64> {
    seq![
        900_000_000u64,
        900_000_000u64,
        800_000_000u64,
        700_000_000u64,
        600_000_000u64,
        500_000_000u64,
        400_000_000u64,
        300_000_000u64,
        200_000_000u64,
        100_000_000u64,
    ]
}

/// Maximum of a sequence of rates, 0 when empty.
pub open spec fn spec_seq_max(s: Seq<u64>) -> u64
    decreases s.len(),
{
    if s.len() == 0 {
        0u64
    } else if s.last() > spec_seq_max(s.drop_last()) {
        s.last()
    } else {
        spec_seq_max(s.drop_last())
    }
}

/// No element of a sequence exceeds its maximum.
pub proof fn lemma_seq_max_bound(s: Seq<u64>, i: int)
    requires
        0 <= i < s.len(),
    ensures
        s[i] <= spec_seq_max(s),
    decreases s.len(),
{
    if i == s.len() - 1 {
    } else {
        lemma_seq_max_bound(s.drop_last(), i);
    }
}

/// The scheduled rate for any year never exceeds the schedule maximum.
pub proof fn lemma_schedule_rate_le_max(s: SurrenderChargeSchedule, policy_year: int)
    ensures
        s.spec_get_rate(policy_year) <= spec_seq_max(s.rates()),
{
    if s.rates().len() == 0 {
    } else if policy_year <= 0 {
        lemma_seq_max_bound(s.rates(), 0);
    } else if policy_year - 1 < s.rates().len() {
        lemma_seq_max_bound(s.rates(), policy_year - 1);
    }
}

/// Payout factor returned for ages outside every band: the rate of the
/// highest age band.
pub const FALLBACK_PAYOUT: u64 = 900_000_000;

/// First band `(low, high, factor)` containing `age`, scanning from index `i`.
pub open spec fn spec_band_lookup_from(bands: Seq<(u8, u8, u64)>, age: u8, i: int) -> Option<u64>
    decreases bands.len() - i,
{
    if i < 0 || i >= bands.len() {
        None
    } else if bands[i].0 <= age && age <= bands[i].1 {
        Some(bands[i].2)
    } else {
        spec_band_lookup_from(bands, age, i + 1)
    }
}

/// First band containing `age`, if any.
pub open spec fn spec_band_lookup(bands: Seq<(u8, u8, u64)>, age: u8) -> Option<u64> {
    spec_band_lookup_from(bands, age, 0)
}

/// Scans age bands for the first one containing `age`.
fn band_lookup(bands: &Vec<(u8, u8, u64)>, age: u8) -> (r: Option<u64>)
    ensures
        r == spec_band_lookup(bands@, age),
{
    let mut i: usize = 0;
    while i < bands.len()
        invariant
            0 <= i <= bands@.len(),
            spec_band_lookup(bands@, age) == spec_band_lookup_from(bands@, age, i as int),
        decreases bands@.len() - i,
    {
        let (lo, hi, factor) = bands[i];
        if lo <= age && age <= hi {
            return Some(factor);
        }
        i += 1;
    }
    None
}

/// GLWB payout factors by attained-age band.
///
/// Bands are scanned in order and must not overlap; the first band holding
/// the age decides.
#[derive(Clone, Debug)]
pub struct PayoutFactors {
    single_life: Vec<(u8, u8, u64)>,
    joint_life: Option<Vec<(u8, u8, u64)>>,
}

impl PayoutFactors {
    /// The single-life bands `(min_age, max_age, factor)`.
    pub closed spec fn single_bands(self) -> Seq<(u8, u8, u64)> {
        self.single_life@
    }

    /// The joint-life bands, when the product offers joint payout.
    pub closed spec fn joint_bands(self) -> Option<Seq<(u8, u8, u64)>> {
        match self.joint_life {
            Some(v) => Some(v@),
            None => None,
        }
    }

    /// Every factor is a genuine rate.
    pub open spec fn wf(self) -> bool {
        &&& forall|i: int|
            0 <= i < self.single_bands().len() ==> (#[trigger] self.single_bands()[i]).2
                <= RATE_ONE
        &&& match self.joint_bands() {
            Some(jb) => forall|i: int| 0 <= i < jb.len() ==> (#[trigger] jb[i]).2 <= RATE_ONE,
            None => true,
        }
    }

    /// The single-life factor for an attained age; ages outside every band
    /// earn the fallback factor.
    pub open spec fn spec_single_life(self, age: u8) -> u64 {
        match spec_band_lookup(self.single_bands(), age) {
            Some(f) => f,
            None => FALLBACK_PAYOUT,
        }
    }

    /// Create from per-age factors loaded at the boundary, one single-year
    /// band for each listed age.
    pub fn from_loaded(factors: Vec<(u8, u64)>) -> (r: Self)
        requires
            forall|i: int| 0 <= i < factors@.len() ==> (#[trigger] factors@[i]).1 <= RATE_ONE,
        ensures
            r.single_bands().len() == factors@.len(),
            forall|i: int|
                0 <= i < factors@.len() ==> #[trigger] r.single_bands()[i] == (
                factors@[i].0,
                factors@[i].0,
                factors@[i].1,
                ),
            r.joint_bands() is None,
            r.wf(),
    {
        let mut single_life: Vec<(u8, u8, u64)> = Vec::new();
        let mut i: usize = 0;
        while i < factors.len()
            invariant
                0 <= i <= factors@.len(),
                single_life@.len() == i,
                forall|j: int|
                    0 <= j < i ==> #[trigger] single_life@[j] == (
                    factors@[j].0,
                    factors@[j].0,
                    factors@[j].1,
                    ),
                forall|j: int| 0 <= j < factors@.len() ==> (#[trigger] factors@[j]).1 <= RATE_ONE,
            decreases factors@.len() - i,
        {
            let (age, factor) = factors[i];
            single_life.push((age, age, factor));
            i += 1;
        }
        Self { single_life, joint_life: None }
    }

    /// The default single-life payout factors: a 50-55 band, per-year rates
    /// to age 89, and a top band from age 90.
    pub fn default() -> (r: Self)
        ensures
            r.single_bands() =~= spec_default_payout_bands(),
            r.joint_bands() is None,
            r.wf(),
    {
        let single_life: Vec<(u8, u8, u64)> = vec![
            (50, 55, 460_000_000),
            (56, 56, 475_000_000),
            (57, 57, 490_000_000),
            (58, 58, 505_000_000),
            (59, 59, 520_000_000),
            (60, 60, 535_000_000),
            (61, 61, 550_000_000),
            (62, 62, 565_000_000),
            (63, 63, 580_000_000),
            (64, 64, 595_000_000),
            (65, 65, 605_000_000),
            (66, 66, 610_000_000),
            (67, 67, 620_000_000),
            (68, 68, 625_000_000),
            (69, 69, 635_000_000),
            (70, 70, 645_000_000),
            (71, 71, 655_000_000),
            (72, 72, 665_000_000),
            (73, 73, 675_000_000),
            (74, 74, 690_000_000),
            (75, 75, 705_000_000),
            (76, 76, 725_000_000),
            (77, 77, 745_000_000),
            (78, 78, 765_000_000),
            (79, 79, 785_000_000),
            (80, 80, 795_000_000),
            (81, 81, 805_000_000),
            (82, 82, 815_000_000),
            (83, 83, 825_000_000),
            (84, 84, 835_000_000),
            (85, 85, 845_000_000),
            (86, 86, 855_000_000),
            (87, 87, 865_000_000),
            (88, 88, 875_000_000),
            (89, 89, 885_000_000),
            (90, 120, 895_000_000),
        ];
        Self { single_life, joint_life: None }
    }

    /// Single-life payout factor for an attained age.
    pub fn get_single_life(&self, attained_age: u8) -> (r: u64)
        ensures
            r == self.spec_single_life(attained_age),
            self.wf() ==> r <= RATE_ONE,
    {
        proof {
            if self.wf() {
                lemma_band_lookup_in_range(self.single_bands(), attained_age, 0);
            }
        }
        match band_lookup(&self.single_life, attained_age) {
            Some(f) => f,
            None => FALLBACK_PAYOUT,
        }
    }

    /// Joint-life payout factor for an attained age, when offered.
    pub fn get_joint_life(&self, attained_age: u8) -> (r: Option<u64>)
        ensures
            r == match self.joint_bands() {
                Some(jb) => spec_band_lookup(jb, attained_age),
                None => None::<u64>,
            },
    {
        match &self.joint_life {
            Some(jl) => band_lookup(jl, attained_age),
            None => None,
        }
    }
}

/// A band lookup over well-bounded factors yields a bounded factor.
pub proof fn lemma_band_lookup_in_range(bands: Seq<(u8, u8, u64)>, age: u8, i: int)
    requires
        forall|j: int| 0 <= j < bands.len() ==> (#[trigger] bands[j]).2 <= RATE_ONE,
    ensures
        match spec_band_lookup_from(bands, age, i) {
            Some(f) => f <= RATE_ONE,
            None => true,
        },
    decreases bands.len() - i,
{
    if i < 0 || i >= bands.len() {
    } else if bands[i].0 <= age && age <= bands[i].1 {
    } else {
        lemma_band_lookup_in_range(bands, age, i + 1);
    }
}

/// The default payout bands as a mathematical table.
pub open spec fn spec_default_payout_bands() -> Seq<(u8, u8, u64)> {
    seq![
        (50u8, 55u8, 460_000_000u64),
        (56u8, 56u8, 475_000_000u64),
        (57u8, 57u8, 490_000_000u64),
        (58u8, 58u8, 505_000_000u64),
        (59u8, 59u8, 520_000_000u64),
        (60u8, 60u8, 535_000_000u64),
        (61u8, 61u8, 550_000_000u64),
        (62u8, 62u8, 565_000_000u64),
        (63u8, 63u8, 580_000_000u64),
        (64u8, 64u8, 595_000_000u64),
        (65u8, 65u8, 605_000_000u64),
        (66u8, 66u8, 610_000_000u64),
        (67u8, 67u8, 620_000_000u64),
        (68u8, 68u8, 625_000_000u64),
        (69u8, 69u8, 635_000_000u64),
        (70u8, 70u8, 645_000_000u64),
        (71u8, 71u8, 655_000_000u64),
        (72u8, 72u8, 665_000_000u64),
        (73u8, 73u8, 675_000_000u64),
        (74u8, 74u8, 690_000_000u64),
        (75u8, 75u8, 705_000_000u64),
        (76u8, 76u8, 725_000_000u64),
        (77u8, 77u8, 745_000_000u64),
        (78u8, 78u8, 765_000_000u64),
        (79u8, 79u8, 785_000_000u64),
        (80u8, 80u8, 795_000_000u64),
        (81u8, 81u8, 805_000_000u64),
        (82u8, 82u8, 815_000_000u64),
        (83u8, 83u8, 825_000_000u64),
        (84u8, 84u8, 835_000_000u64),
        (85u8, 85u8, 845_000_000u64),
        (86u8, 86u8, 855_000_000u64),
        (87u8, 87u8, 865_000_000u64),
        (88u8, 88u8, 875_000_000u64),
        (89u8, 89u8, 885_000_000u64),
        (90u8, 120u8, 895_000_000u64),
    ]
}

/// GLWB rider features.
#[derive(Clone, Debug)]
pub struct GlwbFeatures {
    /// Minimum attained age for income activation.
    pub min_activation_age: u8,
    /// Bonus applied to the initial premium when setting the benefit base.
    pub bonus_rate: u64,
    /// Annual rollup rate for the benefit base.
    pub rollup_rate: u64,
    /// Number of policy years during which rollup applies.
    pub rollup_years: u8,
    /// Whether rollup is simple interest (otherwise compound).
    pub simple_rollup: bool,
    /// Annual rider charge rate before income activation.
    pub pre_activation_charge: u64,
    /// Annual rider charge rate after income activation.
    pub post_activation_charge: u64,
    /// Payout factors by attained age.
    pub payout_factors: PayoutFactors,
}

impl GlwbFeatures {
    pub open spec fn wf(self) -> bool {
        &&& self.bonus_rate <= RATE_ONE
        &&& self.rollup_rate <= RATE_ONE
        &&& self.pre_activation_charge <= RATE_ONE
        &&& self.post_activation_charge <= RATE_ONE
        &&& self.payout_factors.wf()
    }

    /// The default rider: activation from age 50, a 30% benefit-base bonus,
    /// 10% simple rollup for ten years, and 0.5%/1.5% charges before and
    /// after activation.
    pub fn default() -> (r: Self)
        ensures
            r.min_activation_age == 50,
            r.bonus_rate == 3_000_000_000u64,
            r.rollup_rate == 1_000_000_000u64,
            r.rollup_years == 10,
            r.simple_rollup,
            r.pre_activation_charge == 50_000_000u64,
            r.post_activation_charge == 150_000_000u64,
            r.payout_factors.single_bands() =~= spec_default_payout_bands(),
            r.payout_factors.joint_bands() is None,
            r.wf(),
    {
        Self {
            min_activation_age: 50,
            bonus_rate: 3_000_000_000,
            rollup_rate: 1_000_000_000,
            rollup_years: 10,
            simple_rollup: true,
            pre_activation_charge: 50_000_000,
            post_activation_charge: 150_000_000,
            payout_factors: PayoutFactors::default(),
        }
    }

    /// The annual rider charge rate in force for an activation status.
    pub open spec fn spec_annual_charge(self, income_activated: bool) -> u64 {
        if income_activated {
            self.post_activation_charge
        } else {
            self.pre_activation_charge
        }
    }

    /// Monthly rider charge rate: one twelfth of the annual rate in force,
    /// rounded down.
    pub fn monthly_rider_charge(&self, income_activated: bool) -> (r: u64)
        ensures
            r == self.spec_annual_charge(income_activated) as int / 12,
            r <= self.spec_annual_charge(income_activated),
    {
        let annual_rate = if income_activated {
            self.post_activation_charge
        } else {
            self.pre_activation_charge
        };
        annual_rate / 12
    }

    /// Whether rollup still applies in a policy year.
    pub open spec fn spec_rollup_applies(self, policy_year: int, income_activated: bool) -> bool {
        !income_activated && policy_year <= self.rollup_years
    }

    /// The monthly rollup factor for the benefit base. Outside the rollup
    /// period or after activation the factor is exactly one; during simple
    /// rollup it is `1 + rate/12` (applied by the engine to the initial
    /// benefit base); during compound rollup it is `(1 + rate)^(1/12)`.
    pub fn monthly_rollup_factor(&self, policy_year: u32, income_activated: bool) -> (r: u64)
        requires
            self.rollup_rate <= RATE_ONE,
        ensures
            !self.spec_rollup_applies(policy_year as int, income_activated) ==> r == RATE_ONE,
            self.spec_rollup_applies(policy_year as int, income_activated) && self.simple_rollup
                ==> r == RATE_ONE + self.rollup_rate as int / 12,
            self.spec_rollup_applies(policy_year as int, income_activated) && !self.simple_rollup
                ==> is_twelfth_root(RATE_ONE + self.rollup_rate, r as int),
            RATE_ONE <= r <= 2 * RATE_ONE,
    {
        if income_activated || policy_year > self.rollup_years as u32 {
            RATE_ONE
        } else if self.simple_rollup {
            RATE_ONE + self.rollup_rate / 12
        } else {
            twelfth_root(RATE_ONE + self.rollup_rate)
        }
    }

    /// Maximum guaranteed withdrawal for a year: the benefit base times the
    /// payout factor for the attained age.
    pub fn max_annual_withdrawal(&self, benefit_base: u64, attained_age: u8) -> (r: u64)
        requires
            self.payout_factors.wf(),
        ensures
            r == rmul(
                benefit_base as int,
                self.payout_factors.spec_single_life(attained_age) as int,
            ),
            r <= benefit_base,
    {
        let payout_rate = self.payout_factors.get_single_life(attained_age);
        rate_apply(benefit_base, payout_rate)
    }
}

/// Base (non-rider) product features.
#[derive(Clone, Debug)]
pub struct BaseProductFeatures {
    /// Surrender charge schedule.
    pub surrender_charges: SurrenderChargeSchedule,
    /// Free partial withdrawal percentage per year.
    pub free_withdrawal_pct: u64,
    /// Minimum premium, micro-dollars.
    pub min_premium: u64,
    /// Maximum premium, micro-dollars.
    pub max_premium: u64,
    /// Minimum issue age.
    pub min_issue_age: u8,
    /// Maximum issue age.
    pub max_issue_age: u8,
    /// Annual expense per policy, micro-dollars; 0 when expenses are a rate
    /// on the account value instead.
    pub annual_expense_per_policy: u64,
    /// Annual expense rate applied to the account value, one twelfth a month.
    pub expense_rate_of_av: u64,
    /// First-year commission rate retained for compatibility; commissions
    /// are driven by [`CommissionAssumptions`].
    pub first_year_commission_rate: u64,
}

impl BaseProductFeatures {
    pub open spec fn wf(self) -> bool {
        &&& self.surrender_charges.wf()
        &&& self.free_withdrawal_pct <= RATE_ONE
        &&& self.expense_rate_of_av <= RATE_ONE
        &&& self.first_year_commission_rate <= RATE_ONE
    }

    /// Default features: the 10-year schedule, 5% free withdrawals, premium
    /// band $25k-$1M, issue ages 40-80, and a 0.25% annual expense rate.
    pub fn default() -> (r: Self)
        ensures
            r.surrender_charges.rates() =~= spec_default_schedule_rates(),
            r.free_withdrawal_pct == 500_000_000u64,
            r.min_premium == 25_000_000_000u64,
            r.max_premium == 1_000_000_000_000u64,
            r.min_issue_age == 40,
            r.max_issue_age == 80,
            r.annual_expense_per_policy == 0,
            r.expense_rate_of_av == 25_000_000u64,
            r.first_year_commission_rate == 500_000_000u64,
            r.wf(),
    {
        Self {
            surrender_charges: SurrenderChargeSchedule::default_10_year(),
            free_withdrawal_pct: 500_000_000,
            min_premium: 25_000_000_000,
            max_premium: 1_000_000_000_000,
            min_issue_age: 40,
            max_issue_age: 80,
            annual_expense_per_policy: 0,
            expense_rate_of_av: 25_000_000,
            first_year_commission_rate: 500_000_000,
        }
    }
}

/// Commission assumptions: age-split rates and the chargeback schedule.
#[derive(Clone, Debug)]
pub struct CommissionAssumptions {
    /// Ages at or below this use the young rates, above it the old rates.
    pub age_threshold: u8,
    pub agent_rate_young: u64,
    pub agent_rate_old: u64,
    /// Gross override rates before the conversion split.
    pub imo_gross_rate_young: u64,
    pub imo_gross_rate_old: u64,
    pub wholesaler_gross_rate_young: u64,
    pub wholesaler_gross_rate_old: u64,
    /// Share of the gross override converted to equity.
    pub imo_conversion_rate: u64,
    pub wholesaler_conversion_rate: u64,
    /// Month-13 bonus rate on the account value for young issue ages.
    pub bonus_rate_young: u64,
    /// Months with full chargeback.
    pub chargeback_months_full: u32,
    /// Months (from issue) through which half chargeback applies.
    pub chargeback_months_half: u32,
}

impl CommissionAssumptions {
    pub open spec fn wf(self) -> bool {
        &&& self.agent_rate_young <= RATE_ONE
        &&& self.agent_rate_old <= self.agent_rate_young
        &&& 0 < self.agent_rate_young
        &&& self.imo_gross_rate_young <= RATE_ONE
        &&& self.imo_gross_rate_old <= RATE_ONE
        &&& self.wholesaler_gross_rate_young <= RATE_ONE
        &&& self.wholesaler_gross_rate_old <= RATE_ONE
        &&& self.imo_conversion_rate <= RATE_ONE
        &&& self.wholesaler_conversion_rate <= RATE_ONE
        &&& self.bonus_rate_young <= RATE_ONE
    }

    /// Default commissions: split at age 75; agent 7%/4.5%; IMO 3.6% gross
    /// young and 0.017*6/7 old; wholesaler 0.6% gross young and 0.017/7 old;
    /// conversions 25% and 40%; 0.5% month-13 bonus; chargeback 100% through
    /// month 6 and 50% through month 12.
    pub fn default() -> (r: Self)
        ensures
            r.age_threshold == 75,
            r.agent_rate_young == 700_000_000u64,
            r.agent_rate_old == 450_000_000u64,
            r.imo_gross_rate_young == 360_000_000u64,
            r.imo_gross_rate_old == 145_714_285u64,
            r.wholesaler_gross_rate_young == 60_000_000u64,
            r.wholesaler_gross_rate_old == 24_285_714u64,
            r.imo_conversion_rate == 2_500_000_000u64,
            r.wholesaler_conversion_rate == 4_000_000_000u64,
            r.bonus_rate_young == 50_000_000u64,
            r.chargeback_months_full == 6,
            r.chargeback_months_half == 12,
            r.wf(),
    {
        Self {
            age_threshold: 75,
            agent_rate_young: 700_000_000,
            agent_rate_old: 450_000_000,
            imo_gross_rate_young: 360_000_000,
            imo_gross_rate_old: 145_714_285,  // 0.017 * 6 / 7, rounded down
            wholesaler_gross_rate_young: 60_000_000,
            wholesaler_gross_rate_old: 24_285_714,  // 0.017 / 7, rounded down
            imo_conversion_rate: 2_500_000_000,
            wholesaler_conversion_rate: 4_000_000_000,
            bonus_rate_young: 50_000_000,
            chargeback_months_full: 6,
            chargeback_months_half: 12,
        }
    }

    /// Agent commission rate by issue age.
    pub open spec fn spec_agent_rate(self, issue_age: u8) -> u64 {
        if issue_age <= self.age_threshold {
            self.agent_rate_young
        } else {
            self.agent_rate_old
        }
    }

    /// Agent commission rate by issue age.
    pub fn agent_rate(&self, issue_age: u8) -> (r: u64)
        ensures
            r == self.spec_agent_rate(issue_age),
    {
        if issue_age <= self.age_threshold {
            self.agent_rate_young
        } else {
            self.agent_rate_old
        }
    }

    /// Month-13 bonus rate by issue age: older ages earn the young bonus
    /// scaled by the ratio of old to young agent rates.
    pub open spec fn spec_bonus_rate(self, issue_age: u8) -> int {
        if issue_age <= self.age_threshold {
            self.bonus_rate_young as int
        } else {
            self.bonus_rate_young * self.agent_rate_old / self.agent_rate_young as int
        }
    }

    /// Month-13 bonus rate by issue age.
    pub fn bonus_rate(&self, issue_age: u8) -> (r: u64)
        requires
            self.wf(),
        ensures
            r == self.spec_bonus_rate(issue_age),
            r <= self.bonus_rate_young,
    {
        if issue_age <= self.age_threshold {
            self.bonus_rate_young
        } else {
            proof {
                let by = self.bonus_rate_young as int;
                let ao = self.agent_rate_old as int;
                let ay = self.agent_rate_young as int;
                assert(by * ao <= by * ay) by (nonlinear_arith)
                    requires
                        0 <= by,
                        0 <= ao <= ay,
                ;
                vstd::arithmetic::div_mod::lemma_div_is_ordered(by * ao, by * ay, ay);
                vstd::arithmetic::div_mod::lemma_div_by_multiple(by, ay);
                assert(by * ao <= (RATE_ONE as int) * (RATE_ONE as int)) by (nonlinear_arith)
                    requires
                        0 <= by <= RATE_ONE as int,
                        0 <= ao <= RATE_ONE as int,
                ;
            }
            let scaled: u128 = (self.bonus_rate_young as u128) * (self.agent_rate_old as u128)
                / (self.agent_rate_young as u128);
            scaled as u64
        }
    }

    /// Fraction of first-year commissions recovered when the policy lapses
    /// in a given projection month: everything in the full months, half
    /// through the half months, and nothing later or after year one.
    pub open spec fn spec_chargeback_factor(self, projection_month: int, policy_year: int) -> u64 {
        if policy_year > 1 {
            0u64
        } else if projection_month <= self.chargeback_months_full {
            RATE_ONE
        } else if projection_month <= self.chargeback_months_half {
            RATE_ONE / 2
        } else {
            0u64
        }
    }

    /// Chargeback factor for a projection month.
    pub fn chargeback_factor(&self, projection_month: u32, policy_year: u32) -> (r: u64)
        ensures
            r == self.spec_chargeback_factor(projection_month as int, policy_year as int),
            r <= RATE_ONE,
    {
        if policy_year > 1 {
            0
        } else if projection_month <= self.chargeback_months_full {
            RATE_ONE
        } else if projection_month <= self.chargeback_months_half {
            RATE_ONE / 2
        } else {
            0
        }
    }

    /// All commission components for a premium and issue age:
    /// `(agent, imo_net, imo_conversion, wholesaler_net, wholesaler_conversion)`.
    /// Each gross override splits into a net part and a converted part by
    /// the matching conversion rate.
    pub fn calculate_commissions(&self, premium: u64, issue_age: u8) -> (r: (
        u64,
        u64,
        u64,
        u64,
        u64,
    ))
        requires
            self.wf(),
        ensures
            r.0 == rmul(premium as int, self.spec_agent_rate(issue_age) as int),
            ({
                let imo_gross = if issue_age <= self.age_threshold {
                    rmul(premium as int, self.imo_gross_rate_young as int)
                } else {
                    rmul(premium as int, self.imo_gross_rate_old as int)
                };
                let wh_gross = if issue_age <= self.age_threshold {
                    rmul(premium as int, self.wholesaler_gross_rate_young as int)
                } else {
                    rmul(premium as int, self.wholesaler_gross_rate_old as int)
                };
                &&& r.1 == rmul(imo_gross, (RATE_ONE - self.imo_conversion_rate) as int)
                &&& r.2 == rmul(imo_gross, self.imo_conversion_rate as int)
                &&& r.3 == rmul(wh_gross, (RATE_ONE - self.wholesaler_conversion_rate) as int)
                &&& r.4 == rmul(wh_gross, self.wholesaler_conversion_rate as int)
            }),
            r.0 <= premium && r.1 <= premium && r.2 <= premium && r.3 <= premium && r.4
                <= premium,
    {
        let agent = rate_apply(premium, self.agent_rate(issue_age));

        let (imo_gross, wholesaler_gross) = if issue_age <= self.age_threshold {
            (
                rate_apply(premium, self.imo_gross_rate_young),
                rate_apply(premium, self.wholesaler_gross_rate_young),
            )
        } else {
            (
                rate_apply(premium, self.imo_gross_rate_old),
                rate_apply(premium, self.wholesaler_gross_rate_old),
            )
        };

        let imo_net = rate_apply(imo_gross, RATE_ONE - self.imo_conversion_rate);
        let imo_conversion = rate_apply(imo_gross, self.imo_conversion_rate);
        let wholesaler_net = rate_apply(wholesaler_gross, RATE_ONE - self.wholesaler_conversion_rate);
        let wholesaler_conversion = rate_apply(wholesaler_gross, self.wholesaler_conversion_rate);

        (agent, imo_net, imo_conversion, wholesaler_net, wholesaler_conversion)
    }
}

/// Combined product features.
#[derive(Clone, Debug)]
pub struct ProductFeatures {
    pub base: BaseProductFeatures,
    pub glwb: GlwbFeatures,
    pub commissions: CommissionAssumptions,
}

impl ProductFeatures {
    pub open spec fn wf(self) -> bool {
        &&& self.base.wf()
        &&& self.glwb.wf()
        &&& self.commissions.wf()
    }

    /// The default product.
    pub fn default() -> (r: Self)
        ensures
            r.base.surrender_charges.rates() =~= spec_default_schedule_rates(),
            r.base.free_withdrawal_pct == 500_000_000u64,
            r.glwb.rollup_years == 10,
            r.glwb.min_activation_age == 50,
            r.commissions.age_threshold == 75,
            r.wf(),
    {
        Self {
            base: BaseProductFeatures::default(),
            glwb: GlwbFeatures::default(),
            commissions: CommissionAssumptions::default(),
        }
    }

    /// Create from tables loaded at the boundary: the defaults with the
    /// surrender schedule and payout factors replaced.
    pub fn from_loaded(surrender_charges: Vec<u64>, payout_factors: Vec<(u8, u64)>) -> (r: Self)
        requires
            forall|i: int|
                0 <= i < surrender_charges@.len() ==> surrender_charges@[i] <= RATE_ONE,
            surrender_charges@.len() <= u32::MAX,
            forall|i: int|
                0 <= i < payout_factors@.len() ==> (#[trigger] payout_factors@[i]).1 <= RATE_ONE,
        ensures
            r.base.surrender_charges.rates() == surrender_charges@,
            r.glwb.payout_factors.single_bands().len() == payout_factors@.len(),
            forall|i: int|
                0 <= i < payout_factors@.len() ==> #[trigger] r.glwb.payout_factors.single_bands()[i]
                    == (payout_factors@[i].0, payout_factors@[i].0, payout_factors@[i].1),
            r.glwb.payout_factors.joint_bands() is None,
            r.wf(),
    {
        let mut features = Self::default();
        features.base.surrender_charges = SurrenderChargeSchedule::from_loaded(surrender_charges);
        features.glwb.payout_factors = PayoutFactors::from_loaded(payout_factors);
        features
    }
}

} // verus!
