use actuarial_system::policy::BenefitBaseBucket::{From100kTo200k, Over500k, Under50k};
use actuarial_system::policy::{
    CreditingStrategy, Gender, Policy, QualStatus, RollupType,
};
use actuarial_system::product::ProductFeatures;
use actuarial_system::projection::{
    accumulate_row, project_block, project_policy, validate_policy, Assumptions, CashflowRow,
    LapseTable, MonthlyTotals, MortalityTable, ProjectionConfig, ProjectionError, ValidationIssue,
};
use actuarial_system::pwd::PwdAssumptions;
use actuarial_system::RATE_ONE;

const DOLLAR: u64 = 1_000_000;

fn test_assumptions() -> Assumptions {
    // Flat 1% annual mortality at every age, for both genders.
    let annual_q: Vec<u64> = vec![100_000_000; 121];
    let mortality = MortalityTable::from_annual(&annual_q, &annual_q);
    // Flat monthly lapse: 0.4% before activation, 0.2% after.
    let lapse = LapseTable::from_monthly(40_000_000, 20_000_000);
    Assumptions {
        mortality,
        lapse,
        product: ProductFeatures::default(),
        pwd: PwdAssumptions::default(),
    }
}

fn test_policy() -> Policy {
    Policy {
        policy_id: 1,
        qual_status: QualStatus::N,
        issue_age: 60,
        gender: Gender::Male,
        initial_benefit_base: 130_000 * DOLLAR,
        initial_pols: RATE_ONE,  // one full life
        initial_premium: 100_000 * DOLLAR,
        benefit_base_bucket: actuarial_system::policy::BenefitBaseBucket::From100kTo200k,
        percentage: RATE_ONE,
        crediting_strategy: CreditingStrategy::Fixed,
        sc_period: 10,
        val_rate: 475_000_000,
        mgir: 100_000_000,
        bonus: 3_000_000_000,
        rollup_type: RollupType::Simple,
        duration_months: 0,
        income_activated: false,
        glwb_start_year: 5,
        current_av: None,
        current_benefit_base: None,
    }
}

fn run(policy: &Policy) -> Vec<CashflowRow> {
    let assumptions = test_assumptions();
    let config = ProjectionConfig::default();
    project_policy(policy, &assumptions, &config)
        .expect("projection failed")
        .cashflows
}

#[test]
fn test_projection_runs_full_horizon() {
    let rows = run(&test_policy());
    assert_eq!(rows.len(), 360);
    assert_eq!(rows[0].projection_month, 1);
    assert_eq!(rows[0].policy_year, 1);
    assert_eq!(rows[0].attained_age, 60);
    assert_eq!(rows[0].bop_av, 100_000 * DOLLAR);
    assert_eq!(rows[0].lives, RATE_ONE);
    // Lives remain positive at the 30-year horizon.
    assert!(rows[359].lives > 0);
}

#[test]
fn test_lives_never_increase() {
    let rows = run(&test_policy());
    for w in rows.windows(2) {
        assert!(w[1].lives <= w[0].lives);
    }
}

#[test]
fn test_year_one_has_no_partial_withdrawals() {
    let rows = run(&test_policy());
    for row in rows.iter() {
        if row.policy_year == 1 {
            assert_eq!(row.pwd_dec, 0);
            assert_eq!(row.non_systematic_pwd_rate, 0);
        }
    }
    // Later years do see partial withdrawals while not activated.
    assert!(rows[13].pwd_dec > 0);
}

#[test]
fn test_monthly_conservation() {
    let rows = run(&test_policy());
    for row in rows.iter() {
        let outflows = row.mortality_dec as i128 + row.lapse_dec as i128 + row.pwd_dec as i128
            + row.rider_charges_dec as i128 + row.eop_av as i128;
        let opening = (row.bop_av as i128 * row.lives as i128) / RATE_ONE as i128
            + row.interest_credits_dec as i128;
        let diff = outflows - opening;
        assert!(-4 <= diff && diff <= 1, "conservation broke: {}", diff);
    }
}

#[test]
fn test_surrender_charge_bounded() {
    let rows = run(&test_policy());
    for row in rows.iter() {
        // The schedule tops out at 9%.
        let cap = (row.lapse_dec as u128) * 900_000_000 / RATE_ONE as u128;
        assert!(row.surrender_charges_dec as u128 <= cap);
        if row.policy_year > 10 {
            assert_eq!(row.surrender_charges_dec, 0);
        }
    }
}

#[test]
fn test_commissions_at_issue_only() {
    let rows = run(&test_policy());
    // Agent commission: 7% of the $100k premium, paid in month one.
    assert_eq!(rows[0].agent_commission, 7_000 * DOLLAR);
    assert_eq!(rows[0].imo_override, 3_600 * DOLLAR);
    assert_eq!(rows[0].wholesaler_override, 600 * DOLLAR);
    for row in rows.iter().skip(1) {
        assert_eq!(row.agent_commission, 0);
        assert_eq!(row.imo_override, 0);
        assert_eq!(row.wholesaler_override, 0);
    }
}

#[test]
fn test_month_thirteen_bonus() {
    let rows = run(&test_policy());
    for (i, row) in rows.iter().enumerate() {
        if i == 12 {
            // 0.5% of the account value at the start of month 13.
            let expected = (row.bop_av as u128) * 50_000_000 / RATE_ONE as u128;
            assert_eq!(row.bonus_comp as u128, expected);
        } else {
            assert_eq!(row.bonus_comp, 0);
        }
    }
}

#[test]
fn test_chargebacks_only_in_year_one() {
    let rows = run(&test_policy());
    // Lapses happen every month, so chargebacks flow through month 12.
    assert!(rows[2].chargebacks > 0);
    assert!(rows[8].chargebacks > 0);
    // Half chargeback after month 6.
    assert!(rows[8].chargebacks < rows[2].chargebacks);
    for row in rows.iter().skip(12) {
        assert_eq!(row.chargebacks, 0);
    }
}

#[test]
fn test_indexed_credits_only_on_anniversary() {
    let mut policy = test_policy();
    policy.crediting_strategy = CreditingStrategy::Indexed;
    let rows = run(&policy);
    for row in rows.iter() {
        if row.projection_month % 12 != 0 {
            assert_eq!(row.interest_credits_dec, 0);
            assert_eq!(row.hedge_gains, 0);
        }
    }
    // Anniversary months credit interest and keep 15% of it as hedge gain.
    let row12 = &rows[11];
    assert!(row12.interest_credits_dec > 0);
    let cost = (row12.interest_credits_dec as u128) * 8_500_000_000 / RATE_ONE as u128;
    assert_eq!(row12.hedge_gains as u128, row12.interest_credits_dec as u128 - cost);
}

#[test]
fn test_fixed_credits_every_month() {
    let rows = run(&test_policy());
    for row in rows.iter().take(24) {
        assert!(row.interest_credits_dec > 0);
        assert_eq!(row.hedge_gains, 0);
    }
}

#[test]
fn test_rollup_stops_at_activation() {
    // Income activates in policy year 5 at age 64.
    let rows = run(&test_policy());
    // During rollup the benefit base grows month over month.
    assert!(rows[1].bop_benefit_base > rows[0].bop_benefit_base);
    assert!(rows[47].bop_benefit_base > rows[46].bop_benefit_base);
    // From activation (first month of year 5) the base stays flat.
    let frozen = rows[49].bop_benefit_base;
    for row in rows.iter().skip(49) {
        assert_eq!(row.bop_benefit_base, frozen);
    }
}

#[test]
fn test_simple_rollup_increment() {
    let rows = run(&test_policy());
    // Simple rollup adds 10%/12 of the initial benefit base each month.
    let expected_increment = (130_000 * DOLLAR as u128) * 1_000_000_000 / RATE_ONE as u128 / 12;
    let actual = rows[1].bop_benefit_base - rows[0].bop_benefit_base;
    assert_eq!(actual as u128, expected_increment);
}

#[test]
fn test_fixed_lapse_override() {
    let assumptions = test_assumptions();
    let mut config = ProjectionConfig::default();
    config.fixed_lapse_rate = Some(70_000_000);
    let rows = project_policy(&test_policy(), &assumptions, &config)
        .expect("projection failed")
        .cashflows;
    for row in rows.iter() {
        assert_eq!(row.final_lapse_rate, 70_000_000);
    }
}

#[test]
fn test_validation_rejections() {
    let assumptions = test_assumptions();
    let config = ProjectionConfig::default();
    let base = &assumptions.product.base;

    let mut too_young = test_policy();
    too_young.issue_age = 30;
    assert_eq!(validate_policy(&too_young, base), Err(ValidationIssue::IssueAgeOutOfRange));
    assert!(matches!(
        project_policy(&too_young, &assumptions, &config),
        Err(ProjectionError::Validation(ValidationIssue::IssueAgeOutOfRange))
    ));

    let mut too_small = test_policy();
    too_small.initial_premium = 1_000 * DOLLAR;
    assert_eq!(validate_policy(&too_small, base), Err(ValidationIssue::PremiumBelowMinimum));

    let mut zero_year = test_policy();
    zero_year.glwb_start_year = 0;
    assert_eq!(validate_policy(&zero_year, base), Err(ValidationIssue::GlwbStartYearZero));

    assert_eq!(validate_policy(&test_policy(), base), Ok(()));
}

#[test]
fn test_block_records_failures() {
    let assumptions = test_assumptions();
    let config = ProjectionConfig::default();
    let mut bad = test_policy();
    bad.policy_id = 2;
    bad.issue_age = 20;
    let block = vec![test_policy(), bad];
    let result = project_block(&block, &assumptions, &config);
    assert_eq!(result.results.len(), 1);
    assert_eq!(result.failed.len(), 1);
    assert_eq!(result.failed[0].policy_id, 2);
}

#[test]
fn test_mid_life_policy_starts_at_duration() {
    let mut policy = test_policy();
    policy.duration_months = 24;
    policy.current_av = Some(90_000 * DOLLAR);
    policy.current_benefit_base = Some(150_000 * DOLLAR);
    let rows = run(&policy);
    assert_eq!(rows[0].projection_month, 25);
    assert_eq!(rows[0].policy_year, 3);
    assert_eq!(rows[0].bop_av, 90_000 * DOLLAR);
    assert_eq!(rows[0].bop_benefit_base, 150_000 * DOLLAR);
    // No commissions for existing business.
    assert_eq!(rows[0].agent_commission, 0);
}

#[test]
fn test_mortality_table_conversion() {
    let annual: Vec<u64> = vec![100_000_000; 3];
    let t = MortalityTable::from_annual(&annual, &annual);
    let q = t.monthly_q(1, Gender::Female);
    let expected = 1.0 - 0.99_f64.powf(1.0 / 12.0);
    assert!((q as f64 / RATE_ONE as f64 - expected).abs() < 1e-9);
    // Ages beyond the table use the last rate.
    assert_eq!(t.monthly_q(100, Gender::Male), t.monthly_q(2, Gender::Male));
}

#[test]
fn test_block_month_one_totals() {
    // The default 2,800-policy block opens at roughly $100M of account value.
    let template = actuarial_system::generator::InforceTemplate::new();
    let policies = template.generate(&actuarial_system::generator::InforceParams::default());
    let mut assumptions = test_assumptions();
    // The generated cells are fractional lives, far below the new-business
    // minimum premium; the pricing run waives it.
    assumptions.product.base.min_premium = 0;
    let config = ProjectionConfig { projection_months: 2, ..ProjectionConfig::default() };
    let result = project_block(&policies, &assumptions, &config);
    assert_eq!(result.failed.len(), 0);
    let total_bop: u128 = result.results.iter().map(|r| r.cashflows[0].bop_av as u128).sum();
    let target: u128 = 100_000_000 * 1_000_000;
    assert!(total_bop <= target && target - total_bop < 1_000_000);
    let total_lives: u128 = result.results.iter().map(|r| r.cashflows[0].lives as u128).sum();
    let expected_lives: u128 = policies.iter().map(|p| p.initial_pols as u128).sum();
    assert_eq!(total_lives, expected_lives);
}

#[test]
fn test_structured_lapse_model() {
    // In-SC rates rising toward rolloff, a shock at the first charge-free
    // year, bucket factors and an in-the-money response.
    let table = LapseTable::from_parts(
        vec![10_000_000, 20_000_000, 30_000_000],
        150_000_000,
        80_000_000,
        vec![5_000_000],
        40_000_000,
        30_000_000,
        vec![15_000_000_000, 12_000_000_000, RATE_ONE, 8_000_000_000, 6_000_000_000],
        vec![(11_000_000_000, 8_000_000_000), (15_000_000_000, 5_000_000_000)],
        vec![(11_000_000_000, 9_000_000_000)],
    );
    // Within the period the segment applies, the last entry extrapolating.
    assert_eq!(table.monthly_lapse_rate(1, false, From100kTo200k, 10, 0), 10_000_000);
    assert_eq!(table.monthly_lapse_rate(3, false, From100kTo200k, 10, 0), 30_000_000);
    assert_eq!(table.monthly_lapse_rate(10, false, From100kTo200k, 10, 0), 30_000_000);
    // The first charge-free year carries the shock, later years the ultimate.
    assert_eq!(table.monthly_lapse_rate(11, false, From100kTo200k, 10, 0), 150_000_000);
    assert_eq!(table.monthly_lapse_rate(12, false, From100kTo200k, 10, 0), 80_000_000);
    // Smaller buckets lapse more, larger ones less.
    assert_eq!(table.monthly_lapse_rate(1, false, Under50k, 10, 0), 15_000_000);
    assert_eq!(table.monthly_lapse_rate(1, false, Over500k, 10, 0), 6_000_000);
    // Deep in the money suppresses lapse; the response is weaker once
    // income is activated, and absent at a ratio of one or below.
    assert_eq!(
        table.monthly_lapse_rate(12, false, From100kTo200k, 10, 12_000_000_000),
        64_000_000
    );
    assert_eq!(
        table.monthly_lapse_rate(12, false, From100kTo200k, 10, 16_000_000_000),
        40_000_000
    );
    assert_eq!(table.monthly_lapse_rate(12, false, From100kTo200k, 10, RATE_ONE), 80_000_000);
    assert_eq!(
        table.monthly_lapse_rate(12, true, From100kTo200k, 10, 12_000_000_000),
        27_000_000
    );
    // The composed rate caps at one.
    let hot = LapseTable::from_parts(
        Vec::new(),
        RATE_ONE,
        RATE_ONE,
        Vec::new(),
        RATE_ONE,
        RATE_ONE,
        vec![20_000_000_000],
        Vec::new(),
        Vec::new(),
    );
    assert_eq!(hot.monthly_lapse_rate(1, false, Under50k, 0, 0), RATE_ONE);
}

#[test]
fn test_monthly_totals_accumulate_exactly() {
    let rows = run(&test_policy());
    let mut t = MonthlyTotals::new(1);
    t = accumulate_row(&t, &rows[0]).expect("totals fit");
    t = accumulate_row(&t, &rows[0]).expect("totals fit");
    assert_eq!(t.month, 1);
    assert_eq!(t.bop_av, 2 * rows[0].bop_av as u128);
    assert_eq!(t.lives, 2 * rows[0].lives as u128);
    assert_eq!(t.mortality_dec, 2 * rows[0].mortality_dec as u128);
    assert_eq!(t.eop_av, 2 * rows[0].eop_av as u128);
    assert_eq!(t.agent_commission, 2 * rows[0].agent_commission as u128);
    assert_eq!(t.total_net_cashflow, 2 * rows[0].total_net_cashflow as i128);
}
