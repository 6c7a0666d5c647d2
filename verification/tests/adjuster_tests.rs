use actuarial_system::adjuster::{adjust_policies, is_default_params, AdjustmentParams};
use actuarial_system::generator::{InforceParams, InforceTemplate};
use actuarial_system::policy::CreditingStrategy;

fn base_block() -> Vec<actuarial_system::policy::Policy> {
    InforceTemplate::new().generate(&InforceParams::default())
}

#[test]
fn test_default_params_unchanged() {
    let params = AdjustmentParams::default();
    assert!(is_default_params(&params));
    let policies = adjust_policies(base_block(), &params).expect("Failed to adjust");

    assert_eq!(policies.len(), 2800);

    let total_premium: u128 = policies.iter().map(|p| p.initial_premium as u128).sum();
    let target: u128 = 100_000_000 * 1_000_000;
    assert!(total_premium <= target && target - total_premium < 1_000_000);
}

#[test]
fn test_fifty_fifty_split() {
    let params = AdjustmentParams { fixed_pct: 5_000_000_000, ..AdjustmentParams::default() };
    assert!(!is_default_params(&params));
    let policies = adjust_policies(base_block(), &params).expect("Failed to adjust");

    let fixed_premium: u128 = policies
        .iter()
        .filter(|p| p.crediting_strategy == CreditingStrategy::Fixed)
        .map(|p| p.initial_premium as u128)
        .sum();
    let indexed_premium: u128 = policies
        .iter()
        .filter(|p| p.crediting_strategy == CreditingStrategy::Indexed)
        .map(|p| p.initial_premium as u128)
        .sum();

    let fixed_pct = fixed_premium as f64 / (fixed_premium + indexed_premium) as f64;
    assert!((fixed_pct - 0.50).abs() < 0.01);
}

#[test]
fn test_bb_bonus() {
    let params = AdjustmentParams { bb_bonus: 4_000_000_000, ..AdjustmentParams::default() };
    let policies = adjust_policies(base_block(), &params).expect("Failed to adjust");

    let total_bb: u128 = policies.iter().map(|p| p.initial_benefit_base as u128).sum();
    // With a 40% bonus the benefit base is $100M * 1.4 = $140M.
    let expected: i128 = 140_000_000 * 1_000_000;
    assert!((total_bb as i128 - expected).abs() < 100_000 * 1_000_000);
}

#[test]
fn test_adjusted_identity_preserved() {
    let block = base_block();
    let params = AdjustmentParams { male_mult: 15_000_000_000, ..AdjustmentParams::default() };
    let policies = adjust_policies(block.clone(), &params).expect("Failed to adjust");
    assert_eq!(policies.len(), block.len());
    for (old, new) in block.iter().zip(policies.iter()) {
        assert_eq!(old.policy_id, new.policy_id);
        assert_eq!(old.gender, new.gender);
        assert_eq!(old.qual_status, new.qual_status);
        assert_eq!(old.crediting_strategy, new.crediting_strategy);
        assert_eq!(old.glwb_start_year, new.glwb_start_year);
    }
    let total_premium: u128 = policies.iter().map(|p| p.initial_premium as u128).sum();
    let target: u128 = 100_000_000 * 1_000_000;
    assert!(total_premium <= target && target - total_premium < 1_000_000);
}
