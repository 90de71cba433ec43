//! Decimal text to fixed point.
//!
//! A price arrives as decimal text (`1234.5`, `12e-3`). Its fixed-point form is
//! the value times 10^18, cut off toward zero. The conversion works on the
//! digits alone, so that the same text gives the same integer everywhere.

use vstd::prelude::*;
use crate::error::FetchError;
use crate::PRICE_DECIMALS;

verus! {

/// The largest exponent magnitude that is told apart; a larger one acts like it.
const EXPONENT_CAP: u128 = 0x1_0000_0000_0000_0000_0000;

/// Ten to the power `n`.
pub open spec fn pow10(n: nat) -> nat
    decreases n,
{
    if n == 0 {
        1
    } else {
        10 * pow10((n - 1) as nat)
    }
}

/// Whether `b` is one of the characters `0` to `9`.
pub open spec fn is_digit(b: u8) -> bool {
    0x30 <= b <= 0x39
}

/// The number of digits that stand in `s` from position `from` on, without a gap.
pub open spec fn digit_run(s: Seq<u8>, from: int) -> nat
    decreases s.len() - from,
{
    if 0 <= from < s.len() && is_digit(s[from]) {
        1 + digit_run(s, from + 1)
    } else {
        0
    }
}

/// The number that the digits of `s` write in base ten.
pub open spec fn digits_value(s: Seq<u8>) -> nat
    decreases s.len(),
{
    if s.len() == 0 {
        0
    } else {
        digits_value(s.drop_last()) * 10 + (s.last() - 0x30) as nat
    }
}

/// Whether the text starts with a minus sign.
pub open spec fn is_negative(s: Seq<u8>) -> bool {
    s.len() > 0 && s[0] == 0x2d
}

/// Where the integer digits start.
pub open spec fn int_start(s: Seq<u8>) -> int {
    if is_negative(s) {
        1
    } else {
        0
    }
}

/// Where the integer digits end.
pub open spec fn int_end(s: Seq<u8>) -> int {
    int_start(s) + digit_run(s, int_start(s))
}

/// Whether a decimal point follows the integer digits.
pub open spec fn has_point(s: Seq<u8>) -> bool {
    int_end(s) < s.len() && s[int_end(s)] == 0x2e
}

/// Where the digits of the fraction start, if the text has a point.
pub open spec fn frac_start(s: Seq<u8>) -> int {
    int_end(s) + 1
}

/// Where the mantissa ends: after the fraction, or after the integer digits.
pub open spec fn frac_end(s: Seq<u8>) -> int {
    if has_point(s) {
        frac_start(s) + digit_run(s, frac_start(s))
    } else {
        int_end(s)
    }
}

/// Whether an exponent mark, `e` or `E`, follows the mantissa.
pub open spec fn has_exponent(s: Seq<u8>) -> bool {
    frac_end(s) < s.len() && (s[frac_end(s)] == 0x65 || s[frac_end(s)] == 0x45)
}

/// Whether the exponent carries a sign of its own.
pub open spec fn has_exponent_sign(s: Seq<u8>) -> bool {
    frac_end(s) + 1 < s.len() && (s[frac_end(s) + 1] == 0x2b || s[frac_end(s) + 1] == 0x2d)
}

/// Where the digits of the exponent start, if the text has an exponent.
pub open spec fn exp_start(s: Seq<u8>) -> int {
    if has_exponent_sign(s) {
        frac_end(s) + 2
    } else {
        frac_end(s) + 1
    }
}

/// Where the number ends.
pub open spec fn exp_end(s: Seq<u8>) -> int {
    if has_exponent(s) {
        exp_start(s) + digit_run(s, exp_start(s))
    } else {
        frac_end(s)
    }
}

/// Whether `s` is a decimal number: an optional minus sign, one or more digits,
/// then optionally a point with one or more digits, then optionally `e` or `E`
/// with an optional sign and one or more digits; and nothing else.
pub open spec fn is_decimal(s: Seq<u8>) -> bool {
    &&& int_end(s) > int_start(s)
    &&& has_point(s) ==> frac_end(s) > frac_start(s)
    &&& has_exponent(s) ==> exp_end(s) > exp_start(s)
    &&& exp_end(s) == s.len()
}

/// The digits before the point.
pub open spec fn int_digits(s: Seq<u8>) -> Seq<u8> {
    s.subrange(int_start(s), int_end(s))
}

/// The digits after the point; none where there is no point.
pub open spec fn frac_digits(s: Seq<u8>) -> Seq<u8> {
    if has_point(s) {
        s.subrange(frac_start(s), frac_end(s))
    } else {
        Seq::empty()
    }
}

/// The digits of the number, the point left out.
pub open spec fn mantissa_digits(s: Seq<u8>) -> Seq<u8> {
    int_digits(s) + frac_digits(s)
}

/// The written exponent; zero where there is none.
pub open spec fn exponent(s: Seq<u8>) -> int {
    if !has_exponent(s) {
        0
    } else if has_exponent_sign(s) && s[frac_end(s) + 1] == 0x2d {
        -(digits_value(s.subrange(exp_start(s), exp_end(s))) as int)
    } else {
        digits_value(s.subrange(exp_start(s), exp_end(s))) as int
    }
}

/// `m` times ten to the power `shift`, cut off to a whole number.
pub open spec fn shifted(m: nat, shift: int) -> nat {
    if shift >= 0 {
        m * pow10(shift as nat)
    } else {
        m / pow10((-shift) as nat)
    }
}

/// The size of the decimal number `s` in units of 10^-18, cut off to a whole
/// number of units.
pub open spec fn scaled_magnitude(s: Seq<u8>) -> nat {
    shifted(
        digits_value(mantissa_digits(s)),
        PRICE_DECIMALS + exponent(s) - frac_digits(s).len(),
    )
}

/// The fixed-point form of the decimal text `s`.
///
/// Text that is no decimal number is malformed. A number below zero has no
/// unsigned form and counts as zero. A number whose units do not fit in 128
/// bits overflows.
pub open spec fn fixed_of_decimal(s: Seq<u8>) -> Result<u128, FetchError> {
    if !is_decimal(s) {
        Err(FetchError::Malformed)
    } else if is_negative(s) {
        Ok(0u128)
    } else if scaled_magnitude(s) > u128::MAX {
        Err(FetchError::Overflow)
    } else {
        Ok(scaled_magnitude(s) as u128)
    }
}

/// Powers of ten are positive and add in the exponent.
pub proof fn lemma_pow10_adds(a: nat, b: nat)
    ensures
        pow10(a) > 0,
        pow10(a + b) == pow10(a) * pow10(b),
    decreases a,
{
    if a == 0 {
        assert(pow10(0) == 1);
        assert(pow10(0 + b) == 1 * pow10(b));
    } else {
        lemma_pow10_adds((a - 1) as nat, b);
        assert(pow10(a + b) == 10 * pow10((a - 1 + b) as nat));
        assert(10 * (pow10((a - 1) as nat) * pow10(b)) == (10 * pow10((a - 1) as nat)) * pow10(b))
            by (nonlinear_arith);
    }
}

/// A larger exponent gives a power of ten that is no smaller.
pub proof fn lemma_pow10_monotone(a: nat, b: nat)
    requires
        a <= b,
    ensures
        0 < pow10(a) <= pow10(b),
{
    lemma_pow10_adds(a, (b - a) as nat);
    lemma_pow10_adds((b - a) as nat, 0);
    assert(pow10(a) * pow10((b - a) as nat) >= pow10(a)) by (nonlinear_arith)
        requires
            pow10(a) > 0,
            pow10((b - a) as nat) > 0,
    ;
}

/// Ten to the power 39 is more than 128 bits hold.
pub proof fn lemma_pow10_39()
    ensures
        pow10(39) == 1_000_000_000_000_000_000_000_000_000_000_000_000_000nat,
        pow10(39) > u128::MAX,
{
    assert(pow10(0) == 1);
    assert(pow10(1) == 10);
    assert(pow10(2) == 100);
    assert(pow10(3) == 1_000);
    lemma_pow10_adds(3, 3);
    assert(pow10(6) == 1_000_000);
    lemma_pow10_adds(6, 6);
    assert(pow10(12) == 1_000_000_000_000);
    lemma_pow10_adds(12, 12);
    assert(pow10(24) == 1_000_000_000_000_000_000_000_000nat);
    lemma_pow10_adds(12, 3);
    assert(pow10(15) == 1_000_000_000_000_000nat);
    lemma_pow10_adds(24, 15);
    assert(pow10(39) == 1_000_000_000_000_000_000_000_000nat * 1_000_000_000_000_000nat);
}

/// `k` digits write a number below ten to the power `k`.
pub proof fn lemma_digits_value_bound(s: Seq<u8>)
    requires
        forall|i: int| 0 <= i < s.len() ==> is_digit(#[trigger] s[i]),
    ensures
        digits_value(s) < pow10(s.len()),
    decreases s.len(),
{
    if s.len() > 0 {
        lemma_digits_value_bound(s.drop_last());
        assert(pow10(s.len()) == 10 * pow10((s.len() - 1) as nat));
    }
}

/// Dropping the last `j` digits divides the number by ten to the power `j`.
pub proof fn lemma_digits_value_prefix(s: Seq<u8>, j: nat)
    requires
        j <= s.len(),
        forall|i: int| 0 <= i < s.len() ==> is_digit(#[trigger] s[i]),
    ensures
        digits_value(s.take(s.len() - j)) == digits_value(s) / pow10(j),
    decreases j,
{
    if j == 0 {
        assert(s.take(s.len() as int) =~= s);
        assert(pow10(0) == 1);
    } else {
        let t = s.drop_last();
        lemma_digits_value_prefix(t, (j - 1) as nat);
        assert(t.take(t.len() - (j - 1)) =~= s.take(s.len() - j));
        let d = (s.last() - 0x30) as nat;
        let p = pow10((j - 1) as nat);
        lemma_pow10_adds((j - 1) as nat, 0);
        assert(pow10(j) == 10 * p);
        assert(digits_value(s) == digits_value(t) * 10 + d);
        assert(d < 10);
        // (10 * v + d) / (10 * p) == v / p
        let v = digits_value(t);
        assert((v * 10 + d) / 10 == v);
        vstd::arithmetic::div_mod::lemma_div_denominator((v * 10 + d) as int, 10, p as int);
        assert(10 * p == p * 10) by (nonlinear_arith);
    }
}

/// A longer prefix of digits writes a number that is no smaller.
pub proof fn lemma_digits_value_grows(s: Seq<u8>, a: nat, b: nat)
    requires
        a <= b <= s.len(),
        forall|i: int| 0 <= i < s.len() ==> is_digit(#[trigger] s[i]),
    ensures
        digits_value(s.take(a as int)) <= digits_value(s.take(b as int)),
    decreases b - a,
{
    if a < b {
        lemma_digits_value_grows(s, a, (b - 1) as nat);
        assert(s.take(b as int).drop_last() =~= s.take(b - 1));
    }
}

/// The end of the run of digits that starts at `from`.
fn scan_digits(text: &[u8], from: usize) -> (end: usize)
    requires
        from <= text.len(),
    ensures
        end == from + digit_run(text@, from as int),
        from <= end <= text.len(),
        forall|i: int| from <= i < end ==> is_digit(#[trigger] text@[i]),
{
    let mut pos: usize = from;
    while pos < text.len() && text[pos] >= 0x30 && text[pos] <= 0x39
        invariant
            from <= pos <= text.len(),
            digit_run(text@, from as int) == (pos - from) + digit_run(text@, pos as int),
            forall|i: int| from <= i < pos ==> is_digit(#[trigger] text@[i]),
        decreases text.len() - pos,
    {
        pos += 1;
    }
    pos
}

/// The number that the digits from `from` to `end` write, or the cap if the
/// number is larger than the cap.
fn capped_value(text: &[u8], from: usize, end: usize) -> (mag: u128)
    requires
        from <= end <= text.len(),
        forall|i: int| from <= i < end ==> is_digit(#[trigger] text@[i]),
    ensures
        digits_value(text@.subrange(from as int, end as int)) <= EXPONENT_CAP ==> mag
            == digits_value(text@.subrange(from as int, end as int)),
        digits_value(text@.subrange(from as int, end as int)) > EXPONENT_CAP ==> mag
            == EXPONENT_CAP,
{
    let ghost digits = text@.subrange(from as int, end as int);
    let mut acc: u128 = 0;
    let mut pos: usize = from;
    proof {
        assert(digits.take(0) =~= Seq::<u8>::empty());
    }
    while pos < end
        invariant
            from <= pos <= end <= text.len(),
            digits == text@.subrange(from as int, end as int),
            forall|i: int| 0 <= i < digits.len() ==> is_digit(#[trigger] digits[i]),
            forall|i: int| from <= i < end ==> is_digit(#[trigger] text@[i]),
            acc <= EXPONENT_CAP,
            digits_value(digits.take(pos - from)) <= EXPONENT_CAP ==> acc == digits_value(
                digits.take(pos - from),
            ),
            digits_value(digits.take(pos - from)) > EXPONENT_CAP ==> acc == EXPONENT_CAP,
        decreases end - pos,
    {
        assert(is_digit(text@[pos as int]));
        let digit: u128 = (text[pos] - 0x30) as u128;
        proof {
            let shorter = digits.take(pos - from);
            let longer = digits.take(pos - from + 1);
            assert(longer.drop_last() =~= shorter);
            assert(longer.last() == text@[pos as int]);
            assert(digits_value(longer) == digits_value(shorter) * 10 + digit);
        }
        if acc < EXPONENT_CAP {
            let next: u128 = acc * 10 + digit;
            acc = if next > EXPONENT_CAP {
                EXPONENT_CAP
            } else {
                next
            };
        }
        pos += 1;
    }
    proof {
        assert(digits.take(end - from) =~= digits);
    }
    acc
}

/// The number that the first `take` digits of the mantissa write, where the
/// mantissa is the digits from `int_from` to `int_to` followed by those from
/// `frac_from` to `frac_to`; `None` where it does not fit in 128 bits.
fn leading_value(
    text: &[u8],
    int_from: usize,
    int_to: usize,
    frac_from: usize,
    frac_to: usize,
    take: usize,
) -> (r: Option<u128>)
    requires
        int_from <= int_to <= frac_from <= frac_to <= text.len(),
        take <= (int_to - int_from) + (frac_to - frac_from),
        forall|i: int| int_from <= i < int_to ==> is_digit(#[trigger] text@[i]),
        forall|i: int| frac_from <= i < frac_to ==> is_digit(#[trigger] text@[i]),
    ensures
        ({
            let digits = text@.subrange(int_from as int, int_to as int) + text@.subrange(
                frac_from as int,
                frac_to as int,
            );
            match r {
                Some(v) => v == digits_value(digits.take(take as int)),
                None => digits_value(digits.take(take as int)) > u128::MAX,
            }
        }),
{
    let ghost digits = text@.subrange(int_from as int, int_to as int) + text@.subrange(
        frac_from as int,
        frac_to as int,
    );
    let int_len: usize = int_to - int_from;
    let mut acc: u128 = 0;
    let mut i: usize = 0;
    proof {
        assert(digits.take(0) =~= Seq::<u8>::empty());
    }
    while i < take
        invariant
            int_from <= int_to <= frac_from <= frac_to <= text.len(),
            int_len == int_to - int_from,
            take <= digits.len(),
            i <= take,
            digits == text@.subrange(int_from as int, int_to as int) + text@.subrange(
                frac_from as int,
                frac_to as int,
            ),
            forall|k: int| 0 <= k < digits.len() ==> is_digit(#[trigger] digits[k]),
            acc == digits_value(digits.take(i as int)),
        decreases take - i,
    {
        let at: usize = if i < int_len {
            int_from + i
        } else {
            frac_from + (i - int_len)
        };
        assert(digits[i as int] == text@[at as int] && is_digit(digits[i as int]));
        let digit: u128 = (text[at] - 0x30) as u128;
        proof {
            let shorter = digits.take(i as int);
            let longer = digits.take(i + 1);
            assert(longer.drop_last() =~= shorter);
            assert(longer.last() == digits[i as int]);
            assert(digits[i as int] == text@[at as int]);
            assert(digits_value(longer) == digits_value(shorter) * 10 + digit);
            lemma_digits_value_grows(digits, (i + 1) as nat, take as nat);
        }
        let scaled: u128 = match acc.checked_mul(10) {
            Some(v) => v,
            None => {
                return None;
            },
        };
        acc = match scaled.checked_add(digit) {
            Some(v) => v,
            None => {
                return None;
            },
        };
        i += 1;
    }
    Some(acc)
}

/// `value` with `zeros` zeros written after it; `None` where that does not fit
/// in 128 bits.
fn append_zeros(value: u128, zeros: u128) -> (r: Option<u128>)
    ensures
        match r {
            Some(v) => v == value * pow10(zeros as nat),
            None => value * pow10(zeros as nat) > u128::MAX,
        },
{
    if value == 0 {
        proof {
            assert(0 * pow10(zeros as nat) == 0) by (nonlinear_arith);
        }
        return Some(0);
    }
    let mut acc: u128 = value;
    let mut written: u128 = 0;
    proof {
        assert(value * pow10(0) == value) by (nonlinear_arith)
            requires
                pow10(0) == 1,
        ;
    }
    while written < zeros
        invariant
            written <= zeros,
            value >= 1,
            acc == value * pow10(written as nat),
        decreases zeros - written,
    {
        proof {
            let p = pow10(written as nat);
            assert(pow10((written + 1) as nat) == 10 * p);
            assert(value * (10 * p) == (value * p) * 10) by (nonlinear_arith);
            lemma_pow10_monotone((written + 1) as nat, zeros as nat);
            assert(value * pow10((written + 1) as nat) <= value * pow10(zeros as nat))
                by (nonlinear_arith)
                requires
                    pow10((written + 1) as nat) <= pow10(zeros as nat),
            ;
        }
        acc = match acc.checked_mul(10) {
            Some(v) => v,
            None => {
                return None;
            },
        };
        written += 1;
    }
    Some(acc)
}

/// The mantissa times ten to the power of `e` and the decimal places of a
/// price, less the places of the fraction, cut off to a whole number. The exponent `e` is given by its sign
/// and by its magnitude, capped.
fn scale_mantissa(
    text: &[u8],
    int_from: usize,
    int_to: usize,
    frac_from: usize,
    frac_to: usize,
    exp_negative: bool,
    exp_mag: u128,
    Ghost(e): Ghost<int>,
) -> (r: Result<u128, FetchError>)
    requires
        int_from < int_to <= frac_from <= frac_to <= text.len(),
        forall|i: int| int_from <= i < int_to ==> is_digit(#[trigger] text@[i]),
        forall|i: int| frac_from <= i < frac_to ==> is_digit(#[trigger] text@[i]),
        exp_negative ==> e <= 0,
        !exp_negative ==> e >= 0,
        -EXPONENT_CAP <= e <= EXPONENT_CAP ==> exp_mag == e || exp_mag == -e,
        !(-EXPONENT_CAP <= e <= EXPONENT_CAP) ==> exp_mag == EXPONENT_CAP,
    ensures
        ({
            let digits = text@.subrange(int_from as int, int_to as int) + text@.subrange(
                frac_from as int,
                frac_to as int,
            );
            let units = shifted(
                digits_value(digits),
                PRICE_DECIMALS + e - (frac_to - frac_from),
            );
            r == if units > u128::MAX {
                Err::<u128, FetchError>(FetchError::Overflow)
            } else {
                Ok::<u128, FetchError>(units as u128)
            }
        }),
{
    let ghost digits = text@.subrange(int_from as int, int_to as int) + text@.subrange(
        frac_from as int,
        frac_to as int,
    );
    let ghost mantissa = digits_value(digits);
    let ghost shift = PRICE_DECIMALS + e - (frac_to - frac_from);
    let int_len: usize = int_to - int_from;
    let frac_len: usize = frac_to - frac_from;
    let count: usize = int_len + frac_len;
    let whole: u128 = int_len as u128 + PRICE_DECIMALS as u128;
    proof {
        assert(digits.len() == count);
        assert(digits.take(count as int) =~= digits);
        lemma_digits_value_bound(digits);
        lemma_pow10_39();
    }
    if exp_negative && exp_mag >= whole {
        proof {
            // the point lies left of every digit that is kept
            assert(-shift >= count);
            lemma_pow10_monotone(count as nat, (-shift) as nat);
            vstd::arithmetic::div_mod::lemma_basic_div(
                mantissa as int,
                pow10((-shift) as nat) as int,
            );
        }
        return Ok(0);
    }
    let kept: u128 = if exp_negative {
        whole - exp_mag
    } else {
        whole + exp_mag
    };
    let take: usize = if kept >= count as u128 {
        count
    } else {
        kept as usize
    };
    let zeros: u128 = kept - take as u128;
    let lead: u128 = match leading_value(text, int_from, int_to, frac_from, frac_to, take) {
        Some(v) => v,
        None => {
            proof {
                if kept >= count {
                    assert(shift >= 0);
                    lemma_pow10_monotone(0, shift as nat);
                    assert(mantissa * pow10(shift as nat) >= mantissa) by (nonlinear_arith)
                        requires
                            pow10(shift as nat) >= 1,
                    ;
                } else {
                    assert(shift == kept - count);
                    lemma_digits_value_prefix(digits, (count - take) as nat);
                }
            }
            return Err(FetchError::Overflow);
        },
    };
    proof {
        if kept >= count {
            assert(lead == mantissa);
            if -EXPONENT_CAP <= e <= EXPONENT_CAP {
                assert(shift == zeros);
            } else {
                // an exponent past the cap: zero stays zero, all else overflows
                assert(shift >= zeros >= 39);
                lemma_pow10_monotone(39, zeros as nat);
                lemma_pow10_monotone(39, shift as nat);
                if mantissa == 0 {
                    assert(0 * pow10(zeros as nat) == 0) by (nonlinear_arith);
                    assert(0 * pow10(shift as nat) == 0) by (nonlinear_arith);
                } else {
                    assert(mantissa * pow10(zeros as nat) >= pow10(39)) by (nonlinear_arith)
                        requires
                            mantissa >= 1,
                            pow10(zeros as nat) >= pow10(39),
                    ;
                    assert(mantissa * pow10(shift as nat) >= pow10(39)) by (nonlinear_arith)
                        requires
                            mantissa >= 1,
                            pow10(shift as nat) >= pow10(39),
                    ;
                }
            }
        } else {
            assert(zeros == 0);
            assert(shift == kept - count);
            lemma_digits_value_prefix(digits, (count - take) as nat);
            assert(lead * pow10(0) == lead) by (nonlinear_arith)
                requires
                    pow10(0) == 1,
            ;
        }
    }
    match append_zeros(lead, zeros) {
        Some(v) => Ok(v),
        None => Err(FetchError::Overflow),
    }
}

/// Converts decimal text to fixed point: the value times 10^18, cut off toward
/// zero.
///
/// The text is an optional minus sign, digits, optionally a point and digits,
/// and optionally an exponent. Other text is `Malformed`. A number below zero
/// gives zero. A number with more units than 128 bits hold gives `Overflow`.
pub fn fixed_from_decimal(text: &[u8]) -> (r: Result<u128, FetchError>)
    ensures
        r == fixed_of_decimal(text@),
{
    let n: usize = text.len();
    let negative: bool = n > 0 && text[0] == 0x2d;
    let int_from: usize = if negative {
        1
    } else {
        0
    };
    let int_to: usize = scan_digits(text, int_from);
    if int_to == int_from {
        return Err(FetchError::Malformed);
    }
    let mut frac_from: usize = int_to;
    let mut frac_to: usize = int_to;
    if int_to < n && text[int_to] == 0x2e {
        frac_from = int_to + 1;
        frac_to = scan_digits(text, frac_from);
        if frac_to == frac_from {
            return Err(FetchError::Malformed);
        }
    }
    let mut exp_negative: bool = false;
    let mut exp_mag: u128 = 0;
    let mut end: usize = frac_to;
    if frac_to < n && (text[frac_to] == 0x65 || text[frac_to] == 0x45) {
        let mut exp_from: usize = frac_to + 1;
        if exp_from < n && (text[exp_from] == 0x2b || text[exp_from] == 0x2d) {
            exp_negative = text[exp_from] == 0x2d;
            exp_from = exp_from + 1;
        }
        end = scan_digits(text, exp_from);
        if end == exp_from {
            return Err(FetchError::Malformed);
        }
        exp_mag = capped_value(text, exp_from, end);
    }
    if end != n {
        return Err(FetchError::Malformed);
    }
    if negative {
        return Ok(0);
    }
    proof {
        assert(text@.subrange(int_to as int, int_to as int) =~= Seq::<u8>::empty());
        assert(mantissa_digits(text@) == text@.subrange(int_from as int, int_to as int)
            + text@.subrange(frac_from as int, frac_to as int));
        assert(frac_digits(text@).len() == frac_to - frac_from);
    }
    scale_mantissa(
        text,
        int_from,
        int_to,
        frac_from,
        frac_to,
        exp_negative,
        exp_mag,
        Ghost(exponent(text@)),
    )
}

} // verus!
