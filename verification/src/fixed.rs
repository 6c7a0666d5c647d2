//! Fixed-point arithmetic for rates and monetary amounts.
//!
//! A rate of 1.0 is represented by [`RATE_ONE`] (ten decimal digits of
//! precision); monetary amounts are integers in micro-dollars. Fractional
//! lives use the same scale as rates.

use vstd::prelude::*;

verus! {

/// The fixed-point representation of the rate 1.0 (ten decimal digits).
pub const RATE_ONE: u64 = 10_000_000_000;

/// Micro-dollars per dollar.
pub const MICROS_PER_DOLLAR: u64 = 1_000_000;

/// Mathematical meaning of applying a rate to an amount: the product scaled
/// back down, rounded toward zero.
pub open spec fn rmul(a: int, r: int) -> int {
    a * r / (RATE_ONE as int)
}

/// Applies a rate (at most 1.0) to an amount, rounding down.
pub fn rate_apply(amount: u64, rate: u64) -> (r: u64)
    requires
        rate <= RATE_ONE,
    ensures
        r == rmul(amount as int, rate as int),
        r <= amount,
{
    proof {
        lemma_rmul_le(amount as int, rate as int);
    }
    let p: u128 = (amount as u128) * (rate as u128);
    (p / (RATE_ONE as u128)) as u64
}

/// A rate applied at no more than 1.0 never exceeds the amount.
pub proof fn lemma_rmul_le(a: int, r: int)
    requires
        0 <= a,
        0 <= r <= RATE_ONE,
    ensures
        0 <= rmul(a, r) <= a,
{
    let one = RATE_ONE as int;
    vstd::arithmetic::mul::lemma_mul_inequality(r, one, a);
    assert(a * r == r * a) by (nonlinear_arith);
    vstd::arithmetic::div_mod::lemma_div_is_ordered(0, a * r, one);
    vstd::arithmetic::div_mod::lemma_div_is_ordered(a * r, a * one, one);
    vstd::arithmetic::div_mod::lemma_div_by_multiple(a, one);
}

/// A product of nonnegative values scaled down stays nonnegative.
pub proof fn lemma_rmul_nonneg(a: int, b: int)
    requires
        0 <= a,
        0 <= b,
    ensures
        0 <= rmul(a, b),
{
    vstd::arithmetic::mul::lemma_mul_nonnegative(a, b);
    vstd::arithmetic::div_mod::lemma_div_is_ordered(0, a * b, RATE_ONE as int);
}

/// A rate times the unit factor is the rate.
pub proof fn lemma_rmul_one(a: int)
    requires
        0 <= a,
    ensures
        rmul(a, RATE_ONE as int) == a,
{
    vstd::arithmetic::div_mod::lemma_div_by_multiple(a, RATE_ONE as int);
}

/// A larger rate never yields a smaller result.
pub proof fn lemma_rmul_monotone_rate(a: int, r1: int, r2: int)
    requires
        0 <= a,
        0 <= r1 <= r2,
    ensures
        rmul(a, r1) <= rmul(a, r2),
{
    let one = RATE_ONE as int;
    assert(a * r1 <= a * r2) by (nonlinear_arith)
        requires
            0 <= a,
            r1 <= r2,
    ;
    vstd::arithmetic::div_mod::lemma_div_is_ordered(a * r1, a * r2, one);
}

/// The product of two 64-bit values fits in 128 bits.
pub proof fn lemma_u64_mul_fits(x: int, y: int) by (nonlinear_arith)
    requires
        0 <= x <= u64::MAX,
        0 <= y <= u64::MAX,
    ensures
        0 <= x * y < 0x100000000000000000000000000000000,
{
}

/// The exact ratio of two amounts expressed as a fixed-point rate, rounded
/// down: `num / den` scaled by `RATE_ONE`. Returns `None` when the ratio does
/// not fit in the rate representation.
pub fn ratio_rate(num: u64, den: u64) -> (r: Option<u64>)
    requires
        den > 0,
    ensures
        match r {
            Some(v) => v == num as int * RATE_ONE / den as int,
            None => num as int * RATE_ONE / den as int > u64::MAX,
        },
{
    proof {
        assert((num as int) * (RATE_ONE as int) <= (u64::MAX as int) * (RATE_ONE as int))
            by (nonlinear_arith)
            requires
                0 <= num as int <= u64::MAX as int,
                0 < RATE_ONE as int,
        ;
    }
    let q: u128 = (num as u128) * (RATE_ONE as u128) / (den as u128);
    if q <= u64::MAX as u128 {
        Some(q as u64)
    } else {
        None
    }
}

/// Floor square root: `r` is the greatest integer whose square is at most `n`.
pub open spec fn is_root2(n: int, r: int) -> bool {
    &&& 0 <= r
    &&& r * r <= n
    &&& n < (r + 1) * (r + 1)
}

/// Floor cube root: `r` is the greatest integer whose cube is at most `n`.
pub open spec fn is_root3(n: int, r: int) -> bool {
    &&& 0 <= r
    &&& r * r * r <= n
    &&& n < (r + 1) * (r + 1) * (r + 1)
}

pub proof fn lemma_root2_unique(n: int, r1: int, r2: int) by (nonlinear_arith)
    requires
        is_root2(n, r1),
        is_root2(n, r2),
    ensures
        r1 == r2,
{
}

pub proof fn lemma_root3_unique(n: int, r1: int, r2: int) by (nonlinear_arith)
    requires
        is_root3(n, r1),
        is_root3(n, r2),
    ensures
        r1 == r2,
{
}

/// If the square of a bound dominates `n`, the floor root stays below it.
pub proof fn lemma_root2_le(n: int, r: int, b: int) by (nonlinear_arith)
    requires
        is_root2(n, r),
        0 <= b,
        n <= b * b,
    ensures
        r <= b,
{
}

pub proof fn lemma_root2_ge(n: int, r: int, b: int) by (nonlinear_arith)
    requires
        is_root2(n, r),
        0 <= b,
        b * b <= n,
    ensures
        b <= r,
{
}

pub proof fn lemma_root3_le(n: int, r: int, b: int) by (nonlinear_arith)
    requires
        is_root3(n, r),
        0 <= b,
        n <= b * b * b,
    ensures
        r <= b,
{
}

pub proof fn lemma_root3_ge(n: int, r: int, b: int) by (nonlinear_arith)
    requires
        is_root3(n, r),
        0 <= b,
        b * b * b <= n,
    ensures
        b <= r,
{
}

/// Floor square root by binary search.
pub fn isqrt(n: u128) -> (r: u64)
    requires
        n < 100_000_000_000_000_000_000_000_000_000_000u128,  // 10^32
    ensures
        is_root2(n as int, r as int),
{
    let mut lo: u128 = 0;
    let mut hi: u128 = 100_000_000_000_000_000;  // 10^17
    proof {
        assert((100_000_000_000_000_000int) * (100_000_000_000_000_000int)
            == 10_000_000_000_000_000_000_000_000_000_000_000int) by (nonlinear_arith);
    }
    while lo + 1 < hi
        invariant
            0 <= lo < hi <= 100_000_000_000_000_000,
            lo * lo <= n,
            n < hi * hi,
        decreases hi - lo,
    {
        let mid: u128 = lo + (hi - lo) / 2;
        proof {
            assert((mid as int) * (mid as int)
                <= (100_000_000_000_000_000int) * (100_000_000_000_000_000int))
                by (nonlinear_arith)
                requires
                    0 <= mid as int <= 100_000_000_000_000_000int,
            ;
        }
        if mid * mid <= n {
            lo = mid;
        } else {
            hi = mid;
        }
    }
    lo as u64
}

/// Floor cube root by binary search.
pub fn icbrt(n: u128) -> (r: u64)
    requires
        n < 10_000_000_000_000_000_000_000_000_000_000u128,  // 10^31
    ensures
        is_root3(n as int, r as int),
{
    let mut lo: u128 = 0;
    let mut hi: u128 = 100_000_000_000;  // 10^11
    proof {
        assert((100_000_000_000int) * (100_000_000_000int) * (100_000_000_000int)
            == 1_000_000_000_000_000_000_000_000_000_000_000int) by (nonlinear_arith);
    }
    while lo + 1 < hi
        invariant
            0 <= lo < hi <= 100_000_000_000,
            lo * lo * lo <= n,
            n < hi * hi * hi,
        decreases hi - lo,
    {
        let mid: u128 = lo + (hi - lo) / 2;
        proof {
            assert((mid as int) * (mid as int) <= (100_000_000_000int) * (100_000_000_000int)
                && (mid as int) * (mid as int) * (mid as int)
                <= (100_000_000_000int) * (100_000_000_000int) * (100_000_000_000int))
                by (nonlinear_arith)
                requires
                    0 <= mid as int <= 100_000_000_000int,
            ;
        }
        if mid * mid * mid <= n {
            lo = mid;
        } else {
            hi = mid;
        }
    }
    lo as u64
}

/// The fixed-point twelfth root: `r / RATE_ONE` approximates
/// `(v / RATE_ONE)^(1/12)` from below, computed as two square roots followed
/// by a cube root, each carried out at full fixed-point precision.
pub open spec fn is_twelfth_root(v: int, r: int) -> bool {
    exists|s1: int, s2: int|
        {
            &&& #[trigger] is_root2(v * (RATE_ONE as int), s1)
            &&& #[trigger] is_root2(s1 * (RATE_ONE as int), s2)
            &&& is_root3(s2 * (RATE_ONE as int) * (RATE_ONE as int), r)
        }
}

/// The twelfth root is a function of its argument.
pub proof fn lemma_twelfth_root_unique(v: int, r1: int, r2: int)
    requires
        is_twelfth_root(v, r1),
        is_twelfth_root(v, r2),
    ensures
        r1 == r2,
{
    let one = RATE_ONE as int;
    let (s1a, s2a): (int, int) = choose|s1: int, s2: int|
        #[trigger] is_root2(v * one, s1) && #[trigger] is_root2(s1 * one, s2)
            && is_root3(s2 * one * one, r1);
    let (s1b, s2b): (int, int) = choose|s1: int, s2: int|
        #[trigger] is_root2(v * one, s1) && #[trigger] is_root2(s1 * one, s2)
            && is_root3(s2 * one * one, r2);
    lemma_root2_unique(v * one, s1a, s1b);
    lemma_root2_unique(s1a * one, s2a, s2b);
    lemma_root3_unique(s2a * one * one, r1, r2);
}

/// The twelfth root as a mathematical function, defined as the unique value
/// with the [`is_twelfth_root`] property.
pub open spec fn spec_twelfth_root(v: int) -> int {
    choose|r: int| is_twelfth_root(v, r)
}

/// A value with the twelfth-root property is the canonical twelfth root.
pub proof fn lemma_twelfth_root_canon(v: int, r: int)
    requires
        is_twelfth_root(v, r),
    ensures
        spec_twelfth_root(v) == r,
{
    let c = choose|x: int| is_twelfth_root(v, x);
    lemma_twelfth_root_unique(v, c, r);
}

/// The monthly decrement rate equivalent to an annual rate:
/// `1 - (1 - annual)^(1/12)` in fixed point.
pub open spec fn spec_monthly_from_annual(annual: int) -> int {
    RATE_ONE - spec_twelfth_root(RATE_ONE - annual)
}

/// Computes the fixed-point twelfth root of `v` (at most 2.0).
pub fn twelfth_root(v: u64) -> (r: u64)
    requires
        v <= 2 * RATE_ONE,
    ensures
        is_twelfth_root(v as int, r as int),
        r == spec_twelfth_root(v as int),
        r <= 2 * RATE_ONE,
        v <= RATE_ONE ==> v <= r <= RATE_ONE,
        RATE_ONE <= v ==> RATE_ONE <= r,
        v == RATE_ONE ==> r == RATE_ONE,
        v == 0 ==> r == 0,
{
    let one = RATE_ONE;
    proof {
        assert((v as int) * (RATE_ONE as int)
            <= (2 * RATE_ONE as int) * (RATE_ONE as int)) by (nonlinear_arith)
            requires
                0 <= v as int <= 2 * RATE_ONE as int,
                0 < RATE_ONE as int,
        ;
    }
    let s1 = isqrt((v as u128) * (one as u128));
    proof {
        let oi = RATE_ONE as int;
        let vi = v as int;
        assert((2 * oi) * (2 * oi) >= vi * oi) by (nonlinear_arith)
            requires
                0 <= vi <= 2 * oi,
                0 < oi,
        ;
        lemma_root2_le(vi * oi, s1 as int, 2 * oi);
        assert((s1 as int) * oi <= (2 * oi) * oi) by (nonlinear_arith)
            requires
                0 <= s1 as int <= 2 * oi,
                0 < oi,
        ;
    }
    let s2 = isqrt((s1 as u128) * (one as u128));
    proof {
        let oi = one as int;
        let vi = v as int;
        // Bound s1 so that the second root's argument is in range.
        assert((2 * oi) * (2 * oi) >= vi * oi) by (nonlinear_arith)
            requires
                0 <= vi <= 2 * oi,
                oi == RATE_ONE,
        ;
        lemma_root2_le(vi * oi, s1 as int, 2 * oi);
        assert((2 * oi) * (2 * oi) >= (s1 as int) * oi) by (nonlinear_arith)
            requires
                0 <= s1 as int <= 2 * oi,
                oi == RATE_ONE,
        ;
        lemma_root2_le((s1 as int) * oi, s2 as int, 2 * oi);
        assert((s2 as int) * oi <= (2 * oi) * oi
            && (s2 as int) * oi * oi <= (2 * oi) * oi * oi) by (nonlinear_arith)
            requires
                0 <= s2 as int <= 2 * oi,
                0 < oi,
        ;
        assert((2 * oi) * oi * oi == 2_000_000_000_000_000_000_000_000_000_000int)
            by (nonlinear_arith)
            requires
                oi == RATE_ONE,
        ;
    }
    let r = icbrt((s2 as u128) * (one as u128) * (one as u128));
    proof {
        let oi = one as int;
        let vi = v as int;
        let s1i = s1 as int;
        let s2i = s2 as int;
        let ri = r as int;
        assert(is_twelfth_root(vi, ri)) by {
            assert(is_root2(vi * oi, s1i) && is_root2(s1i * oi, s2i)
                && is_root3(s2i * oi * oi, ri));
        }
        // r is at most 2.0.
        assert((2 * oi) * (2 * oi) * (2 * oi) >= s2i * oi * oi) by (nonlinear_arith)
            requires
                0 <= s2i <= 2 * oi,
                0 < oi,
        ;
        lemma_root3_le(s2i * oi * oi, ri, 2 * oi);
        if vi <= oi {
            // Roots of values at most 1.0 stay at most 1.0 and dominate the input.
            assert(oi * oi >= vi * oi) by (nonlinear_arith)
                requires
                    0 <= vi <= oi,
            ;
            lemma_root2_le(vi * oi, s1i, oi);
            assert(vi * vi <= vi * oi) by (nonlinear_arith)
                requires
                    0 <= vi <= oi,
            ;
            lemma_root2_ge(vi * oi, s1i, vi);
            assert(oi * oi >= s1i * oi && s1i * s1i <= s1i * oi) by (nonlinear_arith)
                requires
                    0 <= s1i <= oi,
            ;
            lemma_root2_le(s1i * oi, s2i, oi);
            lemma_root2_ge(s1i * oi, s2i, s1i);
            assert(oi * oi * oi >= s2i * oi * oi && s2i * s2i * s2i <= s2i * oi * oi)
                by (nonlinear_arith)
                requires
                    0 <= s2i <= oi,
            ;
            lemma_root3_le(s2i * oi * oi, ri, oi);
            lemma_root3_ge(s2i * oi * oi, ri, s2i);
        }
        if oi <= vi {
            assert(oi * oi <= vi * oi) by (nonlinear_arith)
                requires
                    oi <= vi,
                    0 < oi,
            ;
            lemma_root2_ge(vi * oi, s1i, oi);
            assert(oi * oi <= s1i * oi) by (nonlinear_arith)
                requires
                    oi <= s1i,
                    0 < oi,
            ;
            lemma_root2_ge(s1i * oi, s2i, oi);
            assert(oi * oi * oi <= s2i * oi * oi) by (nonlinear_arith)
                requires
                    oi <= s2i,
                    0 < oi,
            ;
            lemma_root3_ge(s2i * oi * oi, ri, oi);
        }
        lemma_twelfth_root_canon(vi, ri);
        if vi == 0 {
            lemma_root2_le(vi * oi, s1i, 0);
            lemma_root2_le(s1i * oi, s2i, 0);
            lemma_root3_le(s2i * oi * oi, ri, 0);
        }
    }
    r
}

/// Converts an annual decrement rate to the equivalent monthly rate
/// `1 - (1 - annual)^(1/12)`, rounding the surviving fraction down and the
/// monthly rate up by at most one unit in the last place.
pub fn annual_to_monthly_rate(annual: u64) -> (r: u64)
    requires
        annual <= RATE_ONE,
    ensures
        is_twelfth_root(RATE_ONE - annual, RATE_ONE - r),
        r == spec_monthly_from_annual(annual as int),
        r <= annual,
        annual == 0 ==> r == 0,
{
    let root = twelfth_root(RATE_ONE - annual);
    RATE_ONE - root
}

/// Converts an annual growth rate to the equivalent monthly factor
/// `(1 + annual)^(1/12)`, at least 1.0.
pub fn monthly_growth_factor(annual: u64) -> (r: u64)
    requires
        annual <= RATE_ONE,
    ensures
        is_twelfth_root(RATE_ONE + annual, r as int),
        r == spec_twelfth_root(RATE_ONE + annual),
        RATE_ONE <= r <= 2 * RATE_ONE,
        annual == 0 ==> r == RATE_ONE,
{
    twelfth_root(RATE_ONE + annual)
}

/// Every nonnegative integer has a floor square root.
pub proof fn lemma_root2_exists(n: int)
    requires
        0 <= n,
    ensures
        exists|r: int| #[trigger] is_root2(n, r),
    decreases n,
{
    if n == 0 {
        assert(is_root2(0, 0)) by (nonlinear_arith);
    } else {
        lemma_root2_exists(n - 1);
        let p = choose|r: int| #[trigger] is_root2(n - 1, r);
        if (p + 1) * (p + 1) <= n {
            assert(is_root2(n, p + 1)) by (nonlinear_arith)
                requires
                    is_root2(n - 1, p),
                    (p + 1) * (p + 1) <= n,
            ;
        } else {
            assert(is_root2(n, p)) by (nonlinear_arith)
                requires
                    is_root2(n - 1, p),
                    (p + 1) * (p + 1) > n,
            ;
        }
    }
}

/// Every nonnegative integer has a floor cube root.
pub proof fn lemma_root3_exists(n: int)
    requires
        0 <= n,
    ensures
        exists|r: int| #[trigger] is_root3(n, r),
    decreases n,
{
    if n == 0 {
        assert(is_root3(0, 0)) by (nonlinear_arith);
    } else {
        lemma_root3_exists(n - 1);
        let p = choose|r: int| #[trigger] is_root3(n - 1, r);
        if (p + 1) * (p + 1) * (p + 1) <= n {
            assert(is_root3(n, p + 1)) by (nonlinear_arith)
                requires
                    is_root3(n - 1, p),
                    (p + 1) * (p + 1) * (p + 1) <= n,
            ;
        } else {
            assert(is_root3(n, p)) by (nonlinear_arith)
                requires
                    is_root3(n - 1, p),
                    (p + 1) * (p + 1) * (p + 1) > n,
            ;
        }
    }
}

/// The canonical twelfth root exists and has the defining property.
pub proof fn lemma_twelfth_root_exists(v: int)
    requires
        0 <= v,
    ensures
        is_twelfth_root(v, spec_twelfth_root(v)),
{
    let one = RATE_ONE as int;
    lemma_root2_exists(v * one);
    let s1 = choose|r: int| #[trigger] is_root2(v * one, r);
    lemma_root2_exists(s1 * one);
    let s2 = choose|r: int| #[trigger] is_root2(s1 * one, r);
    lemma_root3_exists(s2 * one * one);
    let r = choose|x: int| #[trigger] is_root3(s2 * one * one, x);
    assert(is_twelfth_root(v, r));
    lemma_twelfth_root_canon(v, r);
}

/// Bounds of the canonical twelfth root on the unit interval and just above.
pub proof fn lemma_twelfth_root_bounds(v: int)
    requires
        0 <= v <= 2 * RATE_ONE,
    ensures
        v <= RATE_ONE ==> v <= spec_twelfth_root(v) <= RATE_ONE,
        RATE_ONE <= v ==> RATE_ONE <= spec_twelfth_root(v) <= 2 * RATE_ONE,
{
    let oi = RATE_ONE as int;
    lemma_twelfth_root_exists(v);
    let ri = spec_twelfth_root(v);
    let (s1i, s2i): (int, int) = choose|s1: int, s2: int|
        #[trigger] is_root2(v * oi, s1) && #[trigger] is_root2(s1 * oi, s2)
            && is_root3(s2 * oi * oi, ri);
    if v <= oi {
        assert(oi * oi >= v * oi && v * v <= v * oi) by (nonlinear_arith)
            requires
                0 <= v <= oi,
        ;
        lemma_root2_le(v * oi, s1i, oi);
        lemma_root2_ge(v * oi, s1i, v);
        assert(oi * oi >= s1i * oi && s1i * s1i <= s1i * oi) by (nonlinear_arith)
            requires
                0 <= s1i <= oi,
        ;
        lemma_root2_le(s1i * oi, s2i, oi);
        lemma_root2_ge(s1i * oi, s2i, s1i);
        assert(oi * oi * oi >= s2i * oi * oi && s2i * s2i * s2i <= s2i * oi * oi)
            by (nonlinear_arith)
            requires
                0 <= s2i <= oi,
        ;
        lemma_root3_le(s2i * oi * oi, ri, oi);
        lemma_root3_ge(s2i * oi * oi, ri, s2i);
    }
    if oi <= v {
        assert((2 * oi) * (2 * oi) >= v * oi && oi * oi <= v * oi) by (nonlinear_arith)
            requires
                oi <= v <= 2 * oi,
                0 < oi,
        ;
        lemma_root2_le(v * oi, s1i, 2 * oi);
        lemma_root2_ge(v * oi, s1i, oi);
        assert((2 * oi) * (2 * oi) >= s1i * oi && oi * oi <= s1i * oi) by (nonlinear_arith)
            requires
                oi <= s1i <= 2 * oi,
                0 < oi,
        ;
        lemma_root2_le(s1i * oi, s2i, 2 * oi);
        lemma_root2_ge(s1i * oi, s2i, oi);
        assert((2 * oi) * (2 * oi) * (2 * oi) >= s2i * oi * oi && oi * oi * oi <= s2i * oi * oi)
            by (nonlinear_arith)
            requires
                oi <= s2i <= 2 * oi,
                0 < oi,
        ;
        lemma_root3_le(s2i * oi * oi, ri, 2 * oi);
        lemma_root3_ge(s2i * oi * oi, ri, oi);
    }
}

/// The monthly rate equivalent of an annual decrement rate lies between zero
/// and the annual rate.
pub proof fn lemma_monthly_from_annual_bounds(annual: int)
    requires
        0 <= annual <= RATE_ONE,
    ensures
        0 <= spec_monthly_from_annual(annual) <= annual,
{
    lemma_twelfth_root_bounds(RATE_ONE - annual);
}

/// Splitting a total into parts and then weighting each part by the same
/// fixed-point weight loses at most four units against weighting the total's
/// two sources, and never gains more than one: the rounding of each share is
/// independent but bounded.
pub proof fn lemma_weighted_conservation(
    mort: int,
    lap: int,
    pw: int,
    rc: int,
    eop: int,
    av: int,
    credit: int,
    w: int,
)
    requires
        0 <= mort,
        0 <= lap,
        0 <= pw,
        0 <= rc,
        0 <= eop,
        0 <= av,
        0 <= credit,
        0 <= w,
        mort + lap + pw + rc + eop == av + credit,
    ensures
        rmul(av, w) + rmul(credit, w) - 4 <= rmul(mort, w) + rmul(lap, w) + rmul(pw, w) + rmul(
            rc,
            w,
        ) + rmul(eop, w),
        rmul(mort, w) + rmul(lap, w) + rmul(pw, w) + rmul(rc, w) + rmul(eop, w) <= rmul(av, w)
            + rmul(credit, w) + 1,
{
    let one = RATE_ONE as int;
    assert(mort * w + lap * w + pw * w + rc * w + eop * w == av * w + credit * w)
        by (nonlinear_arith)
        requires
            mort + lap + pw + rc + eop == av + credit,
    ;
    assert(mort * w >= 0 && lap * w >= 0 && pw * w >= 0 && rc * w >= 0 && eop * w >= 0 && av * w
        >= 0 && credit * w >= 0) by (nonlinear_arith)
        requires
            0 <= mort && 0 <= lap && 0 <= pw && 0 <= rc && 0 <= eop && 0 <= av && 0 <= credit && 0
                <= w,
    ;
    vstd::arithmetic::div_mod::lemma_fundamental_div_mod(mort * w, one);
    vstd::arithmetic::div_mod::lemma_fundamental_div_mod(lap * w, one);
    vstd::arithmetic::div_mod::lemma_fundamental_div_mod(pw * w, one);
    vstd::arithmetic::div_mod::lemma_fundamental_div_mod(rc * w, one);
    vstd::arithmetic::div_mod::lemma_fundamental_div_mod(eop * w, one);
    vstd::arithmetic::div_mod::lemma_fundamental_div_mod(av * w, one);
    vstd::arithmetic::div_mod::lemma_fundamental_div_mod(credit * w, one);
    vstd::arithmetic::div_mod::lemma_mod_bound(mort * w, one);
    vstd::arithmetic::div_mod::lemma_mod_bound(lap * w, one);
    vstd::arithmetic::div_mod::lemma_mod_bound(pw * w, one);
    vstd::arithmetic::div_mod::lemma_mod_bound(rc * w, one);
    vstd::arithmetic::div_mod::lemma_mod_bound(eop * w, one);
    vstd::arithmetic::div_mod::lemma_mod_bound(av * w, one);
    vstd::arithmetic::div_mod::lemma_mod_bound(credit * w, one);
}

} // verus!
