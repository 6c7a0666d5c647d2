//! Policy data structures: the immutable per-contract input record and its
//! tagged attribute types.

use vstd::prelude::*;

verus! {

/// Tax qualification status of the money funding the contract.
#[derive(Clone, Copy, PartialEq, Eq, Structural, Debug)]
pub enum QualStatus {
    /// Qualified money: subject to required minimum distributions.
    Q,
    /// Non-qualified money: no required minimum distributions.
    N,
}

/// Gender of the annuitant, used for mortality lookups.
#[derive(Clone, Copy, PartialEq, Eq, Structural, Debug)]
pub enum Gender {
    Male,
    Female,
}

/// How interest is credited to the account value.
#[derive(Clone, Copy, PartialEq, Eq, Structural, Debug)]
pub enum CreditingStrategy {
    /// Monthly compounding at a fixed annual rate.
    Fixed,
    /// Index-linked credit applied once a year at the policy anniversary.
    Indexed,
}

/// How the benefit base grows during the rollup period.
#[derive(Clone, Copy, PartialEq, Eq, Structural, Debug)]
pub enum RollupType {
    /// A constant monthly addition based on the initial benefit base.
    Simple,
    /// Monthly compounding of the benefit base itself.
    Compound,
}

/// Benefit-base size band; smaller bands lapse more readily.
#[derive(Clone, Copy, PartialEq, Eq, Structural, Debug)]
pub enum BenefitBaseBucket {
    Under50k,
    From50kTo100k,
    From100kTo200k,
    From200kTo500k,
    Over500k,
}

/// One annuity contract as loaded from the inforce file.
///
/// Monetary fields are in micro-dollars; rate fields and the fractional
/// lives weight are scaled by [`crate::fixed::RATE_ONE`].
#[derive(Clone, Debug)]
pub struct Policy {
    pub policy_id: u32,
    pub qual_status: QualStatus,
    pub issue_age: u8,
    pub gender: Gender,
    /// Benefit base at issue, micro-dollars.
    pub initial_benefit_base: u64,
    /// Fractional lives weight of this record.
    pub initial_pols: u64,
    /// Premium at issue, micro-dollars.
    pub initial_premium: u64,
    pub benefit_base_bucket: BenefitBaseBucket,
    /// Share of the cell's weight represented by this record.
    pub percentage: u64,
    pub crediting_strategy: CreditingStrategy,
    /// Length of the surrender-charge period in years.
    pub sc_period: u32,
    /// Annual valuation rate.
    pub val_rate: u64,
    /// Minimum guaranteed interest rate, annual.
    pub mgir: u64,
    /// Benefit-base bonus already baked into the initial benefit base.
    pub bonus: u64,
    pub rollup_type: RollupType,
    /// Months already elapsed before the projection starts; 0 for new business.
    pub duration_months: u32,
    /// Whether guaranteed income is already being drawn at the start.
    pub income_activated: bool,
    /// Policy year in which income will activate; 99 means never.
    pub glwb_start_year: u32,
    /// Account value override when projecting an existing inforce mid-life.
    pub current_av: Option<u64>,
    /// Benefit-base override when projecting an existing inforce mid-life.
    pub current_benefit_base: Option<u64>,
}

/// Policy year (1-based) of a 1-based policy month.
pub open spec fn spec_policy_year(policy_month: int) -> int {
    (policy_month + 11) / 12
}

/// Attained age after `policy_month - 1` whole months from issue.
pub open spec fn spec_attained_age(issue_age: int, policy_month: int) -> int {
    issue_age + (policy_month - 1) / 12
}

/// Policy year containing a 1-based policy month.
pub fn policy_year_of_month(policy_month: u32) -> (y: u32)
    requires
        1 <= policy_month,
    ensures
        y == spec_policy_year(policy_month as int),
        y >= 1,
{
    (policy_month - 1) / 12 + 1
}

/// Attained age at a 1-based policy month, saturating at the top of the
/// age tables.
pub fn attained_age_at_month(issue_age: u8, policy_month: u32) -> (age: u8)
    requires
        1 <= policy_month,
    ensures
        spec_attained_age(issue_age as int, policy_month as int) <= 255 ==> age
            == spec_attained_age(issue_age as int, policy_month as int),
        spec_attained_age(issue_age as int, policy_month as int) > 255 ==> age == 255,
{
    let grown: u32 = (policy_month - 1) / 12;
    if grown <= 255 - issue_age as u32 {
        issue_age + grown as u8
    } else {
        255
    }
}

/// A policy month is the first month of its policy year exactly when it is
/// 1 modulo 12.
pub open spec fn spec_is_year_start(policy_month: int) -> bool {
    policy_month % 12 == 1
}

/// A policy month is an anniversary month (the 12th month of a policy year)
/// exactly when it is 0 modulo 12.
pub open spec fn spec_is_anniversary(policy_month: int) -> bool {
    policy_month % 12 == 0
}

} // verus!
