use actuarial_system::generator::{InforceParams, InforceTemplate};
use actuarial_system::policy::CreditingStrategy;
use actuarial_system::RATE_ONE;

#[test]
fn test_default_generation() {
    let template = InforceTemplate::new();
    let policies = template.generate(&InforceParams::default());

    // 100 cells, 14 utilizations, 2 strategies.
    assert_eq!(policies.len(), 2800);

    // Total premium within one dollar of $100M (amounts in micro-dollars).
    let total_premium: u128 = policies.iter().map(|p| p.initial_premium as u128).sum();
    let target: u128 = 100_000_000 * 1_000_000;
    assert!(target - total_premium < 1_000_000);
    assert!(total_premium <= target);
}

#[test]
fn test_fixed_only() {
    let template = InforceTemplate::new();
    let params = InforceParams { fixed_pct: RATE_ONE, ..InforceParams::default() };
    let policies = template.generate(&params);

    assert!(policies.iter().all(|p| p.crediting_strategy == CreditingStrategy::Fixed));
    assert_eq!(policies.len(), 1400);
}

#[test]
fn test_bonus() {
    let template = InforceTemplate::new();
    let params = InforceParams { bonus: 1_000_000_000, ..InforceParams::default() };
    let policies = template.generate(&params);

    assert!(policies.iter().all(|p| p.bonus == 1_000_000_000));
    // The benefit base reflects the 1.3 ratio and the extra 10% bonus.
    let p0 = &policies[0];
    let expected_bb = (p0.initial_premium as u128) * 13 / 10 * 11 / 10;
    let diff = (p0.initial_benefit_base as i128) - (expected_bb as i128);
    assert!(diff.abs() <= 2);
}

#[test]
fn test_generation_ids_sequential() {
    let template = InforceTemplate::new();
    let policies = template.generate(&InforceParams::default());
    for (i, p) in policies.iter().enumerate() {
        assert_eq!(p.policy_id as usize, i + 1);
        assert_eq!(p.duration_months, 0);
        assert!(!p.income_activated);
        assert_eq!(p.sc_period, 10);
    }
}

#[test]
fn test_generation_respects_target() {
    let template = InforceTemplate::new();
    let params = InforceParams {
        target_premium: 50_000_000 * 1_000_000,
        ..InforceParams::default()
    };
    let policies = template.generate(&params);
    let total: u128 = policies.iter().map(|p| p.initial_premium as u128).sum();
    let target: u128 = 50_000_000 * 1_000_000;
    assert!(total <= target && target - total < 1_000_000);
}
