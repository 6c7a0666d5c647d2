//! Decimal text form of fixed-point values: formatting and parsing with a
//! proved round trip, so that values written to an inforce file and read
//! back are identical to the last fixed-point unit.
//!
//! The canonical form is the integer part without leading zeros, a point,
//! and exactly ten fractional digits: `1.2500000000`.

use vstd::prelude::*;

use crate::fixed::RATE_ONE;

verus! {

/// ASCII digit zero.
pub const DIGIT_ZERO: u8 = 48;

/// ASCII decimal point.
pub const POINT: u8 = 46;

pub open spec fn is_ascii_digit(b: u8) -> bool {
    48 <= b <= 57
}

pub open spec fn spec_all_digits(s: Seq<u8>) -> bool {
    forall|i: int| 0 <= i < s.len() ==> is_ascii_digit(#[trigger] s[i])
}

/// The number a digit string denotes, most significant digit first.
pub open spec fn spec_digits_value(s: Seq<u8>) -> int
    decreases s.len(),
{
    if s.len() == 0 {
        0
    } else {
        spec_digits_value(s.drop_last()) * 10 + (s.last() - 48)
    }
}

/// The canonical digit string of a nonnegative number.
pub open spec fn spec_digits_of(n: int) -> Seq<u8>
    decreases n,
{
    if n < 10 {
        seq![(n + 48) as u8]
    } else {
        spec_digits_of(n / 10).push((n % 10 + 48) as u8)
    }
}

/// The canonical digits denote their number.
pub proof fn lemma_digits_of_value(n: int)
    requires
        0 <= n,
    ensures
        spec_digits_value(spec_digits_of(n)) == n,
        spec_all_digits(spec_digits_of(n)),
        spec_digits_of(n).len() >= 1,
        spec_digits_of(n)[0] != DIGIT_ZERO || spec_digits_of(n).len() == 1,
        n >= 10 ==> spec_digits_of(n).len() >= 2,
    decreases n,
{
    if n < 10 {
        assert((n + 48) as u8 == n + 48);
        assert(spec_digits_of(n).drop_last() =~= Seq::<u8>::empty());
        assert(spec_digits_of(n).last() == (n + 48) as u8);
        assert(spec_digits_value(Seq::<u8>::empty()) == 0);
        assert(spec_digits_value(spec_digits_of(n)) == 0 * 10 + (n + 48) - 48);
    } else {
        lemma_digits_of_value(n / 10);
        assert(spec_digits_of(n).drop_last() =~= spec_digits_of(n / 10));
        assert((n % 10 + 48) as u8 == n % 10 + 48) by {
            vstd::arithmetic::div_mod::lemma_mod_bound(n, 10);
        }
        assert(spec_digits_of(n).last() == (n % 10 + 48) as u8);
        assert(spec_digits_value(spec_digits_of(n)) == spec_digits_value(spec_digits_of(n / 10))
            * 10 + (n % 10));
        vstd::arithmetic::div_mod::lemma_fundamental_div_mod(n, 10);
        assert(n / 10 >= 1);
        assert(spec_digits_of(n)[0] == spec_digits_of(n / 10)[0]);
        if spec_digits_of(n / 10).len() == 1 {
            assert(n / 10 < 10);
            assert(spec_digits_of(n / 10)[0] == (n / 10 + 48) as u8);
            assert(spec_digits_of(n / 10)[0] != DIGIT_ZERO);
        }
    }
}

/// Numbers below a power of ten have at most that many digits.
pub proof fn lemma_digits_of_len(n: int, k: int, bound: int)
    requires
        0 <= n < bound,
        1 <= k,
        bound == spec_pow10(k),
    ensures
        spec_digits_of(n).len() <= k,
    decreases k,
{
    if n < 10 {
    } else {
        assert(spec_pow10(k) == 10 * spec_pow10(k - 1));
        assert(k >= 2) by {
            assert(spec_pow10(0) == 1);
            assert(spec_pow10(1) == 10);
        }
        assert(n / 10 < spec_pow10(k - 1)) by (nonlinear_arith)
            requires
                n < 10 * spec_pow10(k - 1),
                0 <= n,
        ;
        lemma_digits_of_len(n / 10, k - 1, spec_pow10(k - 1));
    }
}

/// Powers of ten.
pub open spec fn spec_pow10(k: int) -> int
    decreases k,
{
    if k <= 0 {
        1
    } else {
        10 * spec_pow10(k - 1)
    }
}

/// Leading zeros do not change the denoted number.
pub proof fn lemma_zeros_prefix_value(z: Seq<u8>, d: Seq<u8>)
    requires
        forall|i: int| 0 <= i < z.len() ==> z[i] == DIGIT_ZERO,
    ensures
        spec_digits_value(z + d) == spec_digits_value(d),
    decreases d.len(),
{
    if d.len() == 0 {
        assert(z + d =~= z);
        lemma_zeros_value(z);
    } else {
        assert((z + d).drop_last() =~= z + d.drop_last());
        lemma_zeros_prefix_value(z, d.drop_last());
        assert((z + d).last() == d.last());
    }
}

/// A string of zeros denotes zero.
pub proof fn lemma_zeros_value(z: Seq<u8>)
    requires
        forall|i: int| 0 <= i < z.len() ==> z[i] == DIGIT_ZERO,
    ensures
        spec_digits_value(z) == 0,
    decreases z.len(),
{
    if z.len() > 0 {
        lemma_zeros_value(z.drop_last());
    }
}

/// The canonical text of a fixed-point value `v`: the digits of the integer
/// part (no leading zeros), a point at position `k`, and exactly ten
/// fractional digits.
pub open spec fn spec_canonical_fixed(s: Seq<u8>, v: int) -> bool {
    exists|k: int|
        {
            &&& 1 <= k
            &&& s.len() == k + 11
            &&& (#[trigger] s[k]) == POINT
            &&& spec_all_digits(s.subrange(0, k))
            &&& spec_all_digits(s.subrange(k + 1, s.len() as int))
            &&& (s[0] != DIGIT_ZERO || k == 1)
            &&& v == spec_digits_value(s.subrange(0, k)) * RATE_ONE + spec_digits_value(
                s.subrange(k + 1, s.len() as int),
            )
        }
}

/// Appends the canonical digits of `n`.
fn push_decimal_digits(n: u64, out: &mut Vec<u8>) -> (nothing: ())
    ensures
        final(out)@ == old(out)@ + spec_digits_of(n as int),
    decreases n,
{
    if n < 10 {
        out.push((n + 48) as u8);
        proof {
            assert(out@ =~= old(out)@ + spec_digits_of(n as int));
        }
    } else {
        push_decimal_digits(n / 10, out);
        out.push((n % 10 + 48) as u8);
        proof {
            assert(out@ =~= old(out)@ + spec_digits_of(n as int));
        }
    }
}

/// Formats a fixed-point value canonically: integer part, point, and ten
/// fractional digits. Parsing the result gives back exactly `v`.
pub fn format_fixed(v: u64) -> (r: Vec<u8>)
    ensures
        spec_canonical_fixed(r@, v as int),
{
    let int_part: u64 = v / RATE_ONE;
    let frac: u64 = v % RATE_ONE;
    let mut out: Vec<u8> = Vec::new();
    push_decimal_digits(int_part, &mut out);
    let ghost k = out@.len() as int;
    out.push(POINT);
    let mut fd: Vec<u8> = Vec::new();
    push_decimal_digits(frac, &mut fd);
    proof {
        lemma_digits_of_value(int_part as int);
        lemma_digits_of_value(frac as int);
        lemma_pow10_concrete();
        lemma_digits_of_len(frac as int, 10, RATE_ONE as int);
    }
    let mut pad: usize = 10 - fd.len();
    let ghost mut zeros: Seq<u8> = Seq::empty();
    while pad > 0
        invariant
            out@ == spec_digits_of((v / RATE_ONE) as int) + seq![POINT] + zeros,
            forall|i: int| 0 <= i < zeros.len() ==> zeros[i] == DIGIT_ZERO,
            zeros.len() + pad + fd@.len() == 10,
            fd@ == spec_digits_of((v % RATE_ONE) as int),
        decreases pad,
    {
        out.push(DIGIT_ZERO);
        proof {
            zeros = zeros.push(DIGIT_ZERO);
        }
        pad -= 1;
    }
    let mut i: usize = 0;
    while i < fd.len()
        invariant
            0 <= i <= fd@.len(),
            out@ == spec_digits_of((v / RATE_ONE) as int) + seq![POINT] + zeros + fd@.subrange(
                0,
                i as int,
            ),
            forall|j: int| 0 <= j < zeros.len() ==> zeros[j] == DIGIT_ZERO,
            zeros.len() + fd@.len() == 10,
            fd@ == spec_digits_of((v % RATE_ONE) as int),
        decreases fd@.len() - i,
    {
        out.push(fd[i]);
        proof {
            assert(out@ =~= spec_digits_of((v / RATE_ONE) as int) + seq![POINT] + zeros
                + fd@.subrange(0, i as int + 1));
        }
        i += 1;
    }
    proof {
        let ints = spec_digits_of((v / RATE_ONE) as int);
        let fracs = spec_digits_of((v % RATE_ONE) as int);
        assert(fd@.subrange(0, fd@.len() as int) =~= fd@);
        let s = out@;
        let kk = ints.len() as int;
        lemma_digits_of_value((v / RATE_ONE) as int);
        lemma_digits_of_value((v % RATE_ONE) as int);
        assert(s.subrange(0, kk) =~= ints);
        assert(s[kk] == POINT);
        assert(s.subrange(kk + 1, s.len() as int) =~= zeros + fracs);
        lemma_zeros_prefix_value(zeros, fracs);
        assert(spec_all_digits(zeros + fracs)) by {
            assert(forall|i: int|
                0 <= i < (zeros + fracs).len() ==> is_ascii_digit(#[trigger] (zeros + fracs)[i]));
        }
        vstd::arithmetic::div_mod::lemma_fundamental_div_mod(v as int, RATE_ONE as int);
        assert(spec_canonical_fixed(s, v as int)) by {
            assert(1 <= kk && s.len() == kk + 11 && s[kk] == POINT && spec_all_digits(
                s.subrange(0, kk),
            ) && spec_all_digits(s.subrange(kk + 1, s.len() as int)) && (s[0] != DIGIT_ZERO || kk
                == 1) && v as int == spec_digits_value(s.subrange(0, kk)) * RATE_ONE
                + spec_digits_value(s.subrange(kk + 1, s.len() as int)));
        }
    }
    out
}

/// Parses a canonical fixed-point value. On every canonical text of a value
/// in range, the value itself comes back: the round trip is exact.
pub fn parse_fixed(s: &Vec<u8>) -> (r: Option<u64>)
    ensures
        forall|v: int|
            spec_canonical_fixed(s@, v) && 0 <= v <= u64::MAX ==> r == Some(v as u64),
{
    // Find the point; everything before it must be digits.
    let mut k: usize = 0;
    while k < s.len() && s[k] != POINT
        invariant
            0 <= k <= s@.len(),
            forall|i: int| 0 <= i < k ==> s@[i] != POINT,
        decreases s@.len() - k,
    {
        k += 1;
    }
    if k == s.len() || k == 0 || s.len() - k != 11 {
        proof {
            lemma_no_canonical(s@, k as int);
        }
        return None;
    }
    // Integer part.
    let mut acc: u128 = 0;
    let mut i: usize = 0;
    let mut ok: bool = true;
    while i < k
        invariant
            0 <= i <= k < s@.len(),
            s@.len() == k + 11,
            s@[k as int] == POINT,
            forall|j: int| 0 <= j < k ==> s@[j] != POINT,
            ok ==> acc == spec_digits_value(s@.subrange(0, i as int)),
            ok ==> spec_all_digits(s@.subrange(0, i as int)),
            ok ==> acc <= 0xffff_ffff_ffff_ffff,
            !ok ==> !spec_all_digits(s@.subrange(0, k as int)) || spec_digits_value(
                s@.subrange(0, k as int),
            ) > u64::MAX,
        decreases k - i,
    {
        let b = s[i];
        proof {
            assert(s@.subrange(0, i as int + 1).drop_last() =~= s@.subrange(0, i as int));
            assert(s@.subrange(0, i as int + 1).last() == s@[i as int]);
        }
        if ok {
            if b < 48 || b > 57 {
                ok = false;
                proof {
                    assert(s@.subrange(0, k as int)[i as int] == s@[i as int]);
                }
            } else {
                let digit: u128 = (b - 48) as u128;
                let next: u128 = acc * 10 + digit;
                if next > u64::MAX as u128 {
                    ok = false;
                    proof {
                        lemma_digit_prefix_monotone(s@, i as int + 1, k as int);
                    }
                } else {
                    acc = next;
                }
            }
        } else {
            proof {
                if spec_all_digits(s@.subrange(0, k as int)) {
                    lemma_all_digits_sub(s@, i as int, k as int);
                }
            }
        }
        i += 1;
    }
    if !ok {
        proof {
            assert(s@.subrange(0, k as int) =~= s@.subrange(0, k as int));
            lemma_no_canonical_int(s@, k as int);
        }
        return None;
    }
    let int_part: u64 = acc as u64;
    // Fractional part: exactly ten digits.
    let mut frac: u64 = 0;
    let mut j: usize = k + 1;
    while j < s.len()
        invariant
            (k + 1) as int <= j as int <= s@.len(),
            s@.len() == k + 11,
            0 < k < s@.len(),
            s@[k as int] == POINT,
            forall|jj: int| 0 <= jj < k ==> s@[jj] != POINT,
            int_part as int == spec_digits_value(s@.subrange(0, k as int)),
            spec_all_digits(s@.subrange(0, k as int)),
            frac == spec_digits_value(s@.subrange(k as int + 1, j as int)),
            spec_all_digits(s@.subrange(k as int + 1, j as int)),
            frac < spec_pow10(j - (k + 1)),
            j - (k + 1) <= 10,
        decreases s@.len() - j,
    {
        let b = s[j];
        if b < 48 || b > 57 {
            proof {
                lemma_no_canonical_frac(s@, k as int, j as int);
            }
            return None;
        }
        proof {
            assert(s@.subrange(k as int + 1, j as int + 1).drop_last() =~= s@.subrange(
                k as int + 1,
                j as int,
            ));
            assert(s@.subrange(k as int + 1, j as int + 1).last() == s@[j as int]);
            assert(spec_pow10(j as int + 1 - (k as int + 1)) == 10 * spec_pow10(
                j as int - (k as int + 1),
            ));
            lemma_pow10_concrete();
            lemma_pow10_le(j as int - (k as int + 1), 9);
        }
        frac = frac * 10 + (b - 48) as u64;
        j += 1;
    }
    proof {
        lemma_pow10_concrete();
    }
    let v128: u128 = (int_part as u128) * (RATE_ONE as u128) + frac as u128;
    if v128 > u64::MAX as u128 {
        proof {
            lemma_canonical_unique_k(s@, k as int);
        }
        return None;
    }
    proof {
        lemma_canonical_unique_k(s@, k as int);
    }
    Some(v128 as u64)
}

/// Powers of ten are monotone.
pub proof fn lemma_pow10_le(a: int, b: int)
    requires
        0 <= a <= b,
    ensures
        spec_pow10(a) <= spec_pow10(b),
    decreases b,
{
    if a < b {
        lemma_pow10_le(a, b - 1);
        assert(spec_pow10(b) == 10 * spec_pow10(b - 1));
        assert(spec_pow10(a) >= 1) by {
            lemma_pow10_pos(a);
        }
        lemma_pow10_pos(b - 1);
    }
}

/// Small powers of ten, concretely.
pub proof fn lemma_pow10_concrete()
    ensures
        spec_pow10(9) == 1_000_000_000,
        spec_pow10(10) == RATE_ONE,
{
    assert(spec_pow10(0) == 1);
    assert(spec_pow10(1) == 10);
    assert(spec_pow10(2) == 100);
    assert(spec_pow10(3) == 1_000);
    assert(spec_pow10(4) == 10_000);
    assert(spec_pow10(5) == 100_000);
    assert(spec_pow10(6) == 1_000_000);
    assert(spec_pow10(7) == 10_000_000);
    assert(spec_pow10(8) == 100_000_000);
    assert(spec_pow10(9) == 1_000_000_000);
    assert(spec_pow10(10) == 10_000_000_000);
}

pub proof fn lemma_pow10_pos(a: int)
    ensures
        spec_pow10(a) >= 1,
    decreases a,
{
    if a > 0 {
        lemma_pow10_pos(a - 1);
    }
}

/// If the scan stopped anywhere but a well-placed point, no value has this
/// text as its canonical form.
proof fn lemma_no_canonical(s: Seq<u8>, k: int)
    requires
        0 <= k <= s.len(),
        forall|i: int| 0 <= i < k ==> s[i] != POINT,
        k == s.len() || s[k] == POINT,
        k == s.len() || k == 0 || s.len() != k + 11,
    ensures
        forall|v: int| !spec_canonical_fixed(s, v),
{
    assert forall|v: int| !spec_canonical_fixed(s, v) by {
        if spec_canonical_fixed(s, v) {
            let kk = choose|kk: int|
                {
                    &&& 1 <= kk
                    &&& s.len() == kk + 11
                    &&& (#[trigger] s[kk]) == POINT
                    &&& spec_all_digits(s.subrange(0, kk))
                    &&& spec_all_digits(s.subrange(kk + 1, s.len() as int))
                    &&& (s[0] != DIGIT_ZERO || kk == 1)
                    &&& v == spec_digits_value(s.subrange(0, kk)) * RATE_ONE + spec_digits_value(
                        s.subrange(kk + 1, s.len() as int),
                    )
                };
            // The scan cannot have passed the canonical point.
            assert(k <= kk);
            if k < kk {
                assert(s.subrange(0, kk)[k] == s[k]);
                assert(is_ascii_digit(s[k]));
                assert(s[k] == POINT);
                assert(false);
            }
            assert(false);
        }
    }
}

/// A canonical text determines its point position: it is the first point.
proof fn lemma_canonical_unique_k(s: Seq<u8>, k: int)
    requires
        0 <= k < s.len(),
        forall|i: int| 0 <= i < k ==> s[i] != POINT,
        s[k] == POINT,
    ensures
        forall|v: int|
            spec_canonical_fixed(s, v) ==> v == spec_digits_value(s.subrange(0, k))
                * RATE_ONE + spec_digits_value(s.subrange(k + 1, s.len() as int)),
{
    assert forall|v: int|
        spec_canonical_fixed(s, v) implies v == spec_digits_value(s.subrange(0, k)) * RATE_ONE
        + spec_digits_value(s.subrange(k + 1, s.len() as int)) by {
        let kk = choose|kk: int|
            {
                &&& 1 <= kk
                &&& s.len() == kk + 11
                &&& (#[trigger] s[kk]) == POINT
                &&& spec_all_digits(s.subrange(0, kk))
                &&& spec_all_digits(s.subrange(kk + 1, s.len() as int))
                &&& (s[0] != DIGIT_ZERO || kk == 1)
                &&& v == spec_digits_value(s.subrange(0, kk)) * RATE_ONE + spec_digits_value(
                    s.subrange(kk + 1, s.len() as int),
                )
            };
        assert(k <= kk);
        if k < kk {
            assert(s.subrange(0, kk)[k] == s[k]);
            assert(is_ascii_digit(s[k]));
            assert(false);
        }
    }
}

/// A failed integer part rules out every canonical reading.
proof fn lemma_no_canonical_int(s: Seq<u8>, k: int)
    requires
        0 <= k < s.len(),
        forall|i: int| 0 <= i < k ==> s[i] != POINT,
        s[k] == POINT,
        !spec_all_digits(s.subrange(0, k)) || spec_digits_value(s.subrange(0, k)) > u64::MAX,
    ensures
        forall|v: int| spec_canonical_fixed(s, v) && 0 <= v <= u64::MAX ==> false,
{
    assert forall|v: int| spec_canonical_fixed(s, v) && 0 <= v <= u64::MAX implies false by {
        let kk = choose|kk: int|
            {
                &&& 1 <= kk
                &&& s.len() == kk + 11
                &&& (#[trigger] s[kk]) == POINT
                &&& spec_all_digits(s.subrange(0, kk))
                &&& spec_all_digits(s.subrange(kk + 1, s.len() as int))
                &&& (s[0] != DIGIT_ZERO || kk == 1)
                &&& v == spec_digits_value(s.subrange(0, kk)) * RATE_ONE + spec_digits_value(
                    s.subrange(kk + 1, s.len() as int),
                )
            };
        assert(k <= kk);
        if k < kk {
            assert(s.subrange(0, kk)[k] == s[k]);
            assert(is_ascii_digit(s[k]));
            assert(false);
        }
        let ints = s.subrange(0, k);
        let fracs = s.subrange(k + 1, s.len() as int);
        assert(spec_digits_value(ints) > u64::MAX);
        lemma_digits_value_nonneg(fracs);
        assert(v >= spec_digits_value(ints) * RATE_ONE);
        assert(spec_digits_value(ints) * RATE_ONE > u64::MAX) by (nonlinear_arith)
            requires
                spec_digits_value(ints) > u64::MAX,
        ;
    }
}

/// A non-digit in the fractional window rules out every canonical reading.
proof fn lemma_no_canonical_frac(s: Seq<u8>, k: int, j: int)
    requires
        0 <= k < s.len(),
        forall|i: int| 0 <= i < k ==> s[i] != POINT,
        s[k] == POINT,
        k + 1 <= j < s.len(),
        !is_ascii_digit(s[j]),
    ensures
        forall|v: int| !spec_canonical_fixed(s, v),
{
    assert forall|v: int| !spec_canonical_fixed(s, v) by {
        if spec_canonical_fixed(s, v) {
            let kk = choose|kk: int|
                {
                    &&& 1 <= kk
                    &&& s.len() == kk + 11
                    &&& (#[trigger] s[kk]) == POINT
                    &&& spec_all_digits(s.subrange(0, kk))
                    &&& spec_all_digits(s.subrange(kk + 1, s.len() as int))
                    &&& (s[0] != DIGIT_ZERO || kk == 1)
                    &&& v == spec_digits_value(s.subrange(0, kk)) * RATE_ONE
                        + spec_digits_value(s.subrange(kk + 1, s.len() as int))
                };
            assert(k <= kk);
            if k < kk {
                assert(s.subrange(0, kk)[k] == s[k]);
                assert(is_ascii_digit(s[k]));
                assert(false);
            }
            assert(s.subrange(kk + 1, s.len() as int)[j - kk - 1] == s[j]);
            assert(is_ascii_digit(s[j]));
            assert(false);
        }
    }
}

/// Digit strings denote nonnegative numbers.
pub proof fn lemma_digits_value_nonneg(s: Seq<u8>)
    requires
        spec_all_digits(s),
    ensures
        spec_digits_value(s) >= 0,
    decreases s.len(),
{
    if s.len() > 0 {
        assert(spec_all_digits(s.drop_last())) by {
            assert(forall|i: int|
                0 <= i < s.drop_last().len() ==> is_ascii_digit(#[trigger] s.drop_last()[i]));
        }
        lemma_digits_value_nonneg(s.drop_last());
        assert(is_ascii_digit(s[s.len() - 1]));
    }
}

/// A digit prefix of a longer digit string denotes no more than the longer
/// string.
proof fn lemma_digit_prefix_monotone(s: Seq<u8>, i: int, k: int)
    requires
        0 <= i <= k <= s.len(),
    ensures
        spec_all_digits(s.subrange(0, k)) ==> spec_digits_value(s.subrange(0, k))
            >= spec_digits_value(s.subrange(0, i)),
    decreases k - i,
{
    if i < k {
        lemma_digit_prefix_monotone(s, i + 1, k);
        if spec_all_digits(s.subrange(0, k)) {
            assert(s.subrange(0, i + 1).drop_last() =~= s.subrange(0, i));
            assert(s.subrange(0, i + 1).last() == s[i]);
            assert(s.subrange(0, k)[i] == s[i]);
            lemma_all_digits_sub(s, i, k);
            lemma_digits_value_nonneg(s.subrange(0, i));
            assert(spec_digits_value(s.subrange(0, i + 1)) >= spec_digits_value(
                s.subrange(0, i),
            )) by (nonlinear_arith)
                requires
                    spec_digits_value(s.subrange(0, i + 1)) == spec_digits_value(
                        s.subrange(0, i),
                    ) * 10 + (s[i] - 48),
                    spec_digits_value(s.subrange(0, i)) >= 0,
                    48 <= s[i] <= 57,
            ;
        }
    }
}

/// All-digit windows restrict to all-digit sub-windows.
proof fn lemma_all_digits_sub(s: Seq<u8>, i: int, k: int)
    requires
        0 <= i <= k <= s.len(),
        spec_all_digits(s.subrange(0, k)),
    ensures
        spec_all_digits(s.subrange(0, i)),
{
    assert forall|j: int| 0 <= j < i implies is_ascii_digit(#[trigger] s.subrange(0, i)[j]) by {
        assert(s.subrange(0, k)[j] == s[j]);
    }
}


/// A digit string's number is below the power of ten of its length.
pub proof fn lemma_digits_value_bound(s: Seq<u8>)
    requires
        spec_all_digits(s),
    ensures
        0 <= spec_digits_value(s) < spec_pow10(s.len() as int),
    decreases s.len(),
{
    if s.len() == 0 {
    } else {
        assert(spec_all_digits(s.drop_last())) by {
            assert(forall|i: int|
                0 <= i < s.drop_last().len() ==> is_ascii_digit(#[trigger] s.drop_last()[i]));
        }
        lemma_digits_value_bound(s.drop_last());
        assert(is_ascii_digit(s[s.len() - 1]));
        assert(spec_pow10(s.len() as int) == 10 * spec_pow10(s.len() - 1));
    }
}

/// A digit string with a nonzero leading digit denotes at least the power
/// of ten of its length less one.
pub proof fn lemma_digits_lead_bound(s: Seq<u8>)
    requires
        spec_all_digits(s),
        s.len() >= 1,
        s[0] != DIGIT_ZERO,
    ensures
        spec_digits_value(s) >= spec_pow10(s.len() - 1),
    decreases s.len(),
{
    if s.len() == 1 {
        assert(spec_digits_value(s.drop_last()) == 0) by {
            assert(s.drop_last() =~= Seq::<u8>::empty());
        }
        assert(is_ascii_digit(s[0]));
    } else {
        assert(spec_all_digits(s.drop_last())) by {
            assert(forall|i: int|
                0 <= i < s.drop_last().len() ==> is_ascii_digit(#[trigger] s.drop_last()[i]));
        }
        assert(s.drop_last()[0] == s[0]);
        lemma_digits_lead_bound(s.drop_last());
        assert(is_ascii_digit(s[s.len() - 1]));
        assert(spec_pow10(s.len() - 1) == 10 * spec_pow10(s.len() - 2));
    }
}

/// Dropping the last digit divides the number by ten; the last digit is the
/// remainder.
pub proof fn lemma_digits_last_decomposition(s: Seq<u8>)
    requires
        spec_all_digits(s),
        s.len() >= 1,
    ensures
        spec_digits_value(s.drop_last()) == spec_digits_value(s) / 10,
        s.last() - 48 == spec_digits_value(s) % 10,
{
    assert(spec_all_digits(s.drop_last())) by {
        assert(forall|i: int|
            0 <= i < s.drop_last().len() ==> is_ascii_digit(#[trigger] s.drop_last()[i]));
    }
    lemma_digits_value_nonneg(s.drop_last());
    assert(is_ascii_digit(s[s.len() - 1]));
    vstd::arithmetic::div_mod::lemma_fundamental_div_mod_converse(
        spec_digits_value(s),
        10,
        spec_digits_value(s.drop_last()),
        s.last() - 48,
    );
}

/// Two digit strings without leading zeros that denote the same number are
/// the same string.
pub proof fn lemma_digits_injective(a: Seq<u8>, b: Seq<u8>)
    requires
        spec_all_digits(a),
        spec_all_digits(b),
        a.len() >= 1,
        b.len() >= 1,
        a[0] != DIGIT_ZERO || a.len() == 1,
        b[0] != DIGIT_ZERO || b.len() == 1,
        spec_digits_value(a) == spec_digits_value(b),
    ensures
        a == b,
    decreases a.len() + b.len(),
{
    if a.len() > b.len() {
        lemma_digits_lead_bound(a);
        lemma_digits_value_bound(b);
        lemma_pow10_le(b.len() as int, a.len() - 1);
        assert(false);
    } else if b.len() > a.len() {
        lemma_digits_lead_bound(b);
        lemma_digits_value_bound(a);
        lemma_pow10_le(a.len() as int, b.len() - 1);
        assert(false);
    } else if a.len() == 1 {
        lemma_digits_last_decomposition(a);
        lemma_digits_last_decomposition(b);
        assert(a =~= b);
    } else {
        lemma_digits_last_decomposition(a);
        lemma_digits_last_decomposition(b);
        assert(spec_all_digits(a.drop_last())) by {
            assert(forall|i: int|
                0 <= i < a.drop_last().len() ==> is_ascii_digit(#[trigger] a.drop_last()[i]));
        }
        assert(spec_all_digits(b.drop_last())) by {
            assert(forall|i: int|
                0 <= i < b.drop_last().len() ==> is_ascii_digit(#[trigger] b.drop_last()[i]));
        }
        assert(a.drop_last()[0] == a[0]);
        assert(b.drop_last()[0] == b[0]);
        lemma_digits_injective(a.drop_last(), b.drop_last());
        assert forall|i: int| 0 <= i < a.len() implies a[i] == b[i] by {
            if i < a.len() - 1 {
                assert(a[i] == a.drop_last()[i]);
                assert(b[i] == b.drop_last()[i]);
            } else {
                assert(a[i] == a.last());
                assert(b[i] == b.last());
            }
        }
        assert(a =~= b);
    }
}

/// Two digit strings of the same length that denote the same number are the
/// same string.
pub proof fn lemma_digits_fixed_len_injective(a: Seq<u8>, b: Seq<u8>)
    requires
        spec_all_digits(a),
        spec_all_digits(b),
        a.len() == b.len(),
        spec_digits_value(a) == spec_digits_value(b),
    ensures
        a == b,
    decreases a.len(),
{
    if a.len() == 0 {
        assert(a =~= b);
    } else {
        lemma_digits_last_decomposition(a);
        lemma_digits_last_decomposition(b);
        assert(spec_all_digits(a.drop_last())) by {
            assert(forall|i: int|
                0 <= i < a.drop_last().len() ==> is_ascii_digit(#[trigger] a.drop_last()[i]));
        }
        assert(spec_all_digits(b.drop_last())) by {
            assert(forall|i: int|
                0 <= i < b.drop_last().len() ==> is_ascii_digit(#[trigger] b.drop_last()[i]));
        }
        lemma_digits_fixed_len_injective(a.drop_last(), b.drop_last());
        assert forall|i: int| 0 <= i < a.len() implies a[i] == b[i] by {
            if i < a.len() - 1 {
                assert(a[i] == a.drop_last()[i]);
                assert(b[i] == b.drop_last()[i]);
            } else {
                assert(a[i] == a.last());
                assert(b[i] == b.last());
            }
        }
        assert(a =~= b);
    }
}

/// A value has exactly one canonical text: re-emitting a loaded canonical
/// value reproduces its text byte for byte.
pub proof fn lemma_canonical_text_unique(s1: Seq<u8>, s2: Seq<u8>, v: int)
    requires
        spec_canonical_fixed(s1, v),
        spec_canonical_fixed(s2, v),
    ensures
        s1 == s2,
{
    let k1 = choose|k: int|
        {
            &&& 1 <= k
            &&& s1.len() == k + 11
            &&& (#[trigger] s1[k]) == POINT
            &&& spec_all_digits(s1.subrange(0, k))
            &&& spec_all_digits(s1.subrange(k + 1, s1.len() as int))
            &&& (s1[0] != DIGIT_ZERO || k == 1)
            &&& v == spec_digits_value(s1.subrange(0, k)) * RATE_ONE + spec_digits_value(
                s1.subrange(k + 1, s1.len() as int),
            )
        };
    let k2 = choose|k: int|
        {
            &&& 1 <= k
            &&& s2.len() == k + 11
            &&& (#[trigger] s2[k]) == POINT
            &&& spec_all_digits(s2.subrange(0, k))
            &&& spec_all_digits(s2.subrange(k + 1, s2.len() as int))
            &&& (s2[0] != DIGIT_ZERO || k == 1)
            &&& v == spec_digits_value(s2.subrange(0, k)) * RATE_ONE + spec_digits_value(
                s2.subrange(k + 1, s2.len() as int),
            )
        };
    let i1 = s1.subrange(0, k1);
    let f1 = s1.subrange(k1 + 1, s1.len() as int);
    let i2 = s2.subrange(0, k2);
    let f2 = s2.subrange(k2 + 1, s2.len() as int);
    lemma_pow10_concrete();
    lemma_digits_value_bound(f1);
    lemma_digits_value_bound(f2);
    lemma_digits_value_nonneg(i1);
    lemma_digits_value_nonneg(i2);
    // The integer and fractional parts are the quotient and remainder of the
    // value by the scale, so they agree.
    vstd::arithmetic::div_mod::lemma_fundamental_div_mod_converse(
        v,
        RATE_ONE as int,
        spec_digits_value(i1),
        spec_digits_value(f1),
    );
    vstd::arithmetic::div_mod::lemma_fundamental_div_mod_converse(
        v,
        RATE_ONE as int,
        spec_digits_value(i2),
        spec_digits_value(f2),
    );
    assert(i1[0] == s1[0]);
    assert(i2[0] == s2[0]);
    lemma_digits_injective(i1, i2);
    assert(k1 == k2);
    lemma_digits_fixed_len_injective(f1, f2);
    assert(s1 =~= s2) by {
        assert(forall|i: int|
            0 <= i < k1 ==> s1[i] == i1[i] && #[trigger] s2[i] == i2[i]);
        assert(forall|i: int|
            k1 < i < s1.len() ==> s1[i] == f1[i - k1 - 1] && #[trigger] s2[i] == f2[i - k1 - 1]);
    }
}

} // verus!
