use actuarial_system::fixed::{
    annual_to_monthly_rate, icbrt, isqrt, monthly_growth_factor, rate_apply, ratio_rate,
    twelfth_root,
};
use actuarial_system::RATE_ONE;

fn to_f64(v: u64) -> f64 {
    v as f64 / RATE_ONE as f64
}

#[test]
fn test_isqrt_exact() {
    assert_eq!(isqrt(0), 0);
    assert_eq!(isqrt(1), 1);
    assert_eq!(isqrt(143), 11);
    assert_eq!(isqrt(144), 12);
    assert_eq!(isqrt(100_000_000_000_000_000_000u128), 10_000_000_000);
}

#[test]
fn test_icbrt_exact() {
    assert_eq!(icbrt(0), 0);
    assert_eq!(icbrt(7), 1);
    assert_eq!(icbrt(8), 2);
    assert_eq!(icbrt(1_000_000_000_000_000_000_000_000_000_000u128), 10_000_000_000);
}

#[test]
fn test_twelfth_root_values() {
    assert_eq!(twelfth_root(RATE_ONE), RATE_ONE);
    assert_eq!(twelfth_root(0), 0);
    // (1.1)^(1/12)
    let r = twelfth_root(11_000_000_000);
    assert!((to_f64(r) - 1.1_f64.powf(1.0 / 12.0)).abs() < 1e-9);
    // (2.0)^(1/12)
    let r2 = twelfth_root(2 * RATE_ONE);
    assert!((to_f64(r2) - 2.0_f64.powf(1.0 / 12.0)).abs() < 1e-9);
}

#[test]
fn test_annual_to_monthly() {
    assert_eq!(annual_to_monthly_rate(0), 0);
    let m = annual_to_monthly_rate(100_000_000);  // 1% annual
    let expected = 1.0 - 0.99_f64.powf(1.0 / 12.0);
    assert!((to_f64(m) - expected).abs() < 1e-9);
    assert_eq!(annual_to_monthly_rate(RATE_ONE), RATE_ONE);
}

#[test]
fn test_monthly_growth_factor() {
    assert_eq!(monthly_growth_factor(0), RATE_ONE);
    let f = monthly_growth_factor(275_000_000);  // 2.75% annual
    let expected = 1.0275_f64.powf(1.0 / 12.0);
    assert!((to_f64(f) - expected).abs() < 1e-9);
}

#[test]
fn test_rate_apply_rounds_down() {
    // One third of one hundred micro-dollars rounds down.
    let third: u64 = 3_333_333_333;
    assert_eq!(rate_apply(100, third), 33);
    assert_eq!(rate_apply(0, third), 0);
    assert_eq!(rate_apply(100, RATE_ONE), 100);
}

#[test]
fn test_ratio_rate() {
    assert_eq!(ratio_rate(1, 2), Some(RATE_ONE / 2));
    assert_eq!(ratio_rate(3, 3), Some(RATE_ONE));
    assert_eq!(ratio_rate(0, 7), Some(0));
    // A ratio too large for the fixed-point range is flagged.
    assert_eq!(ratio_rate(u64::MAX, 1), None);
}
