use actuarial_system::policy::QualStatus;
use actuarial_system::pwd::{FreeWithdrawalUtilization, PwdAssumptions, RmdTable};
use actuarial_system::RATE_ONE;

fn to_f64(v: u64) -> f64 {
    v as f64 / RATE_ONE as f64
}

fn pct(x: f64) -> u64 {
    (x * RATE_ONE as f64).round() as u64
}

#[test]
fn test_rmd_rates() {
    let rmd = RmdTable::default();

    // Below RMD age.
    assert_eq!(to_f64(rmd.get_rate(70)), 0.0);

    // At RMD ages.
    assert!((to_f64(rmd.get_rate(73)) - 0.0377).abs() < 0.001);
    assert!((to_f64(rmd.get_rate(77)) - 0.0437).abs() < 0.001);
    assert!((to_f64(rmd.get_rate(85)) - 0.0625).abs() < 0.001);
}

#[test]
fn test_rmd_reference_values() {
    let rmd = RmdTable::default();
    assert!((to_f64(rmd.get_rate(73)) - 0.0377358491).abs() < 1e-6 * 0.0377358491);
    assert!((to_f64(rmd.get_rate(85)) - 0.0625).abs() < 1e-6 * 0.0625);
    // Beyond the table the last rate extrapolates.
    assert_eq!(to_f64(rmd.get_rate(130)), 0.5);
    // Non-qualified money has no requirement.
    assert_eq!(rmd.get_rate_if_qualified(85, QualStatus::N), 0);
}

#[test]
fn test_free_utilization() {
    let util = FreeWithdrawalUtilization::default();

    assert_eq!(to_f64(util.get_rate(1)), 0.1);
    assert_eq!(to_f64(util.get_rate(2)), 0.2);
    assert_eq!(to_f64(util.get_rate(3)), 0.3);
    assert_eq!(to_f64(util.get_rate(4)), 0.4);
    assert_eq!(to_f64(util.get_rate(10)), 0.4);
}

#[test]
fn test_pwd_assumptions() {
    let pwd = PwdAssumptions::default();
    let free_pct = pct(0.05);

    // Year 1, age 60, non-qualified, not activated: nothing applies.
    let rate = pwd.annual_pwd_rate(1, 60, QualStatus::N, false, free_pct);
    assert_eq!(rate, 0);

    // Year 1, age 75, qualified: only the RMD applies, at 10% utilization.
    let rate_y1_q = pwd.annual_pwd_rate(1, 75, QualStatus::Q, false, free_pct);
    let expected_y1_q = 0.0406504065 * 0.1;
    assert!((to_f64(rate_y1_q) - expected_y1_q).abs() < 0.001);

    // Year 2, age 61, non-qualified: 5% free at 20% utilization.
    let rate_y2 = pwd.annual_pwd_rate(2, 61, QualStatus::N, false, free_pct);
    assert!((to_f64(rate_y2) - 0.01).abs() < 0.001);

    // Year 4, age 77, qualified: RMD below 5% free, so 5% at 40%.
    let rate_q = pwd.annual_pwd_rate(4, 77, QualStatus::Q, false, free_pct);
    assert!((to_f64(rate_q) - 0.02).abs() < 0.001);

    // Year 4, age 85, qualified: RMD 6.25% beats 5% free, at 40%.
    let rate_rmd = pwd.annual_pwd_rate(4, 85, QualStatus::Q, false, free_pct);
    assert!((to_f64(rate_rmd) - 0.025).abs() < 0.001);

    // After income activation, no non-systematic withdrawals.
    let rate_activated = pwd.annual_pwd_rate(4, 77, QualStatus::Q, true, free_pct);
    assert_eq!(rate_activated, 0);

    // Monthly conversion: 1 - (1 - 0.02)^(1/12).
    let monthly = pwd.monthly_pwd_rate(4, 77, QualStatus::Q, false, free_pct);
    let expected_monthly = 1.0 - (1.0 - 0.02_f64).powf(1.0 / 12.0);
    assert!((to_f64(monthly) - expected_monthly).abs() < 0.0001);
}

#[test]
fn test_custom_utilization_rates() {
    let pwd = PwdAssumptions::from_loaded(
        vec![(73, 377_358_491), (85, 625_000_000)],
        vec![pct(0.065), pct(0.13), pct(0.195), pct(0.26)],
    );
    let free_pct = pct(0.10);

    // Year 1, age 60, non-qualified: nothing.
    let rate_y1_nq = pwd.annual_pwd_rate(1, 60, QualStatus::N, false, free_pct);
    assert_eq!(rate_y1_nq, 0);

    // Year 2, non-qualified: 10% at 13%.
    let rate_y2 = pwd.annual_pwd_rate(2, 61, QualStatus::N, false, free_pct);
    assert!((to_f64(rate_y2) - 0.013).abs() < 0.001);

    // Year 3, non-qualified: 10% at 19.5%.
    let rate_y3 = pwd.annual_pwd_rate(3, 62, QualStatus::N, false, free_pct);
    assert!((to_f64(rate_y3) - 0.0195).abs() < 0.001);

    // Year 4 on, non-qualified: 10% at 26%.
    let rate_y4 = pwd.annual_pwd_rate(4, 63, QualStatus::N, false, free_pct);
    assert!((to_f64(rate_y4) - 0.026).abs() < 0.001);
}

#[test]
fn test_pwd_year_one_rule() {
    // The first-year business rule forces the monthly rate to zero even for
    // qualified money with an RMD.
    let pwd = PwdAssumptions::default();
    let monthly = pwd.monthly_pwd_rate_adjusted(1, 1, 75, QualStatus::Q, false, pct(0.05));
    assert_eq!(monthly, 0);
    let later = pwd.monthly_pwd_rate_adjusted(2, 1, 75, QualStatus::Q, false, pct(0.05));
    assert!(later > 0);
}

#[test]
fn test_s4_reference_scenario() {
    // Year 4, age 85, qualified, not activated, 5% free:
    // RMD 6.25% beats the free rate, at 40% utilization: 2.5% annual.
    let pwd = PwdAssumptions::default();
    let annual = pwd.annual_pwd_rate(4, 85, QualStatus::Q, false, pct(0.05));
    assert!((to_f64(annual) - 0.025).abs() < 1e-3);
}
