use actuarial_system::product::{
    CommissionAssumptions, GlwbFeatures, PayoutFactors, SurrenderChargeSchedule,
};
use actuarial_system::RATE_ONE;

fn to_f64(v: u64) -> f64 {
    v as f64 / RATE_ONE as f64
}

#[test]
fn test_surrender_charges() {
    let sc = SurrenderChargeSchedule::default_10_year();

    assert_eq!(to_f64(sc.get_rate(1)), 0.09);
    assert_eq!(to_f64(sc.get_rate(5)), 0.06);
    assert_eq!(to_f64(sc.get_rate(10)), 0.01);
    assert_eq!(to_f64(sc.get_rate(11)), 0.0);
    assert_eq!(to_f64(sc.get_rate(20)), 0.0);
}

#[test]
fn test_payout_factors() {
    let pf = PayoutFactors::default();

    assert_eq!(to_f64(pf.get_single_life(52)), 0.046);
    assert_eq!(to_f64(pf.get_single_life(61)), 0.055);
    assert_eq!(to_f64(pf.get_single_life(64)), 0.0595);
    assert_eq!(to_f64(pf.get_single_life(65)), 0.0605);
    assert_eq!(to_f64(pf.get_single_life(77)), 0.0745);
    assert_eq!(to_f64(pf.get_single_life(90)), 0.0895);
}

#[test]
fn test_glwb_rollup() {
    let glwb = GlwbFeatures::default();

    // During rollup period, not activated.
    let factor = glwb.monthly_rollup_factor(1, false);
    assert!((to_f64(factor) - (1.0 + 0.10 / 12.0)).abs() < 1e-10);

    // After income activation - no rollup.
    assert_eq!(glwb.monthly_rollup_factor(1, true), RATE_ONE);

    // After rollup period - no rollup.
    assert_eq!(glwb.monthly_rollup_factor(11, false), RATE_ONE);
}

#[test]
fn test_surrender_period_queries() {
    let sc = SurrenderChargeSchedule::default_10_year();
    assert!(sc.in_sc_period(1));
    assert!(sc.in_sc_period(10));
    assert!(!sc.in_sc_period(11));
    assert_eq!(sc.sc_period_years(), 10);
    assert_eq!(to_f64(sc.max_rate()), 0.09);
}

#[test]
fn test_payout_fallback_outside_bands() {
    let pf = PayoutFactors::default();
    // Below the youngest band and above the oldest, the fallback applies.
    assert_eq!(to_f64(pf.get_single_life(45)), 0.090);
    assert_eq!(to_f64(pf.get_single_life(130)), 0.090);
    assert_eq!(pf.get_joint_life(70), None);
}

#[test]
fn test_agent_commission_rates() {
    let comm = CommissionAssumptions::default();
    // Premium $100k (in micro-dollars), age split at 75.
    let premium: u64 = 100_000 * 1_000_000;
    let (agent_young, _, _, _, _) = comm.calculate_commissions(premium, 70);
    assert_eq!(agent_young, 7_000 * 1_000_000);
    let (agent_old, _, _, _, _) = comm.calculate_commissions(premium, 80);
    assert_eq!(agent_old, 4_500 * 1_000_000);
}

#[test]
fn test_chargeback_schedule() {
    let comm = CommissionAssumptions::default();
    // 100% through month 6, 50% through month 12, nothing later.
    assert_eq!(comm.chargeback_factor(3, 1), RATE_ONE);
    assert_eq!(comm.chargeback_factor(9, 1), RATE_ONE / 2);
    assert_eq!(comm.chargeback_factor(13, 2), 0);
}

#[test]
fn test_commission_split_components() {
    let comm = CommissionAssumptions::default();
    let premium: u64 = 100_000 * 1_000_000;
    let (_, imo_net, imo_conv, wh_net, wh_conv) = comm.calculate_commissions(premium, 70);
    // IMO gross 3.6%: 25% converted, 75% net.
    assert_eq!(imo_net + imo_conv, 3_600 * 1_000_000);
    assert_eq!(imo_conv, 900 * 1_000_000);
    // Wholesaler gross 0.6%: 40% converted, 60% net.
    assert_eq!(wh_net + wh_conv, 600 * 1_000_000);
    assert_eq!(wh_conv, 240 * 1_000_000);
}
