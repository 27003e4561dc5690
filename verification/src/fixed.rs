//! Quantities as text with four decimals.
//!
//! A finite binary64 number is `significand * 2^exponent` exactly, so its
//! value in ten-thousandths, rounded to the nearest with ties to even, is a
//! matter of integers. The text is that of formatting with precision four.
use vstd::prelude::*;
use crate::decimal::{
    canonical, decimal_text, digit_char, digits_of, digits_of_u128, lemma_canonical_rest,
    lemma_canonical_unique,
    lemma_digits_of, lemma_rendered_digits, render_digits, rendered, u128_to_string, value_of,
};
use crate::scalar::{Scalar, SIGN_BIT};

verus! {

/// The number of encodings of the fraction field: `2^52`.
pub const FRACTION_SPAN: u64 = 0x10_0000_0000_0000;

/// `2^k`.
pub open spec fn two_pow(k: nat) -> nat
    decreases k,
{
    if k == 0 {
        1
    } else {
        2 * two_pow((k - 1) as nat)
    }
}

/// The integer `m` of a finite number `m * 2^x`.
pub open spec fn significand(s: Scalar) -> nat {
    let field = s.magnitude() / (FRACTION_SPAN as int);
    let fraction = s.magnitude() % (FRACTION_SPAN as int);
    if field == 0 {
        fraction as nat
    } else {
        (FRACTION_SPAN + fraction) as nat
    }
}

/// The exponent `x` of a finite number `m * 2^x`.
pub open spec fn binary_exponent(s: Scalar) -> int {
    let field = s.magnitude() / (FRACTION_SPAN as int);
    if field == 0 {
        -1074
    } else {
        field - 1075
    }
}

/// `a / p` rounded to the nearest integer, ties to the even one.
pub open spec fn round_half_even(a: nat, p: nat) -> nat {
    let q = a / p;
    let r = a % p;
    if 2 * r > p || (2 * r == p && q % 2 == 1) {
        q + 1
    } else {
        q
    }
}

/// The magnitude of a finite number in ten-thousandths, rounded to the
/// nearest integer, ties to even.
pub open spec fn ten_thousandths(s: Scalar) -> nat {
    let m = significand(s);
    let x = binary_exponent(s);
    if x >= 0 {
        m * two_pow(x as nat) * 10000
    } else {
        round_half_even(m * 10000, two_pow((-x) as nat))
    }
}

/// The four decimals of a count of ten-thousandths below one.
pub open spec fn four_digits(r: nat) -> Seq<char> {
    seq![
        digit_char((r / 1000) as int),
        digit_char((r / 100 % 10) as int),
        digit_char((r / 10 % 10) as int),
        digit_char((r % 10) as int),
    ]
}

/// The sign of a number as text: `"-"` if the sign bit is set.
pub open spec fn sign_text(s: Scalar) -> Seq<char> {
    if s.sign_negative() {
        seq!['-']
    } else {
        Seq::empty()
    }
}

/// A number with exactly four decimals: the sign, the integer part without
/// leading zeros, a point and four digits. Infinities are `inf` and `-inf`,
/// and a NaN is `NaN`.
pub open spec fn fixed4_text(s: Scalar) -> Seq<char> {
    if s.nan() {
        seq!['N', 'a', 'N']
    } else if !s.finite() {
        sign_text(s) + seq!['i', 'n', 'f']
    } else {
        let n = ten_thousandths(s);
        sign_text(s) + decimal_text(n / 10000) + seq!['.'] + four_digits(n % 10000)
    }
}

/// The digits of twice a number plus a carry, from the digits of the number.
pub open spec fn doubled(digits: Seq<u8>, carry: int) -> Seq<u8>
    decreases digits.len(),
{
    if digits.len() == 0 {
        if carry == 0 {
            Seq::empty()
        } else {
            seq![carry as u8]
        }
    } else {
        let t = 2 * digits[0] + carry;
        seq![(t % 10) as u8] + doubled(digits.drop_first(), t / 10)
    }
}

/// `doubled` denotes twice the number plus the carry, and is canonical.
pub proof fn lemma_doubled(digits: Seq<u8>, carry: int)
    requires
        canonical(digits),
        0 <= carry <= 1,
    ensures
        canonical(doubled(digits, carry)),
        value_of(doubled(digits, carry)) == 2 * value_of(digits) + carry,
        doubled(digits, carry).len() >= digits.len(),
    decreases digits.len(),
{
    let out = doubled(digits, carry);
    if digits.len() == 0 {
        if carry != 0 {
            assert(out.drop_first() =~= Seq::<u8>::empty());
            assert(value_of(out.drop_first()) == 0);
            assert(out[0] == 1);
            assert(value_of(out) == 1);
        }
    } else {
        let rest = digits.drop_first();
        let t = 2 * digits[0] + carry;
        lemma_canonical_rest(digits);
        lemma_doubled(rest, t / 10);
        let tail = doubled(rest, t / 10);
        assert(out == seq![(t % 10) as u8] + tail);
        assert(out.drop_first() =~= tail);
        assert(out[0] == (t % 10) as u8);
        assert forall|i: int| 0 <= i < out.len() implies out[i] < 10 by {
            if i > 0 {
                assert(out[i] == tail[i - 1]);
            }
        }
        if tail.len() > 0 {
            assert(out.last() == tail.last());
        } else {
            assert(rest.len() == 0);
            assert(digits.last() == digits[0]);
            assert(t / 10 == 0);
            assert(out.last() == out[0]);
        }
    }
}

/// Doubles a number given by its digits, least significant first.
pub fn double_digits(digits: &mut Vec<u8>)
    requires
        canonical(old(digits)@),
    ensures
        canonical(final(digits)@),
        value_of(final(digits)@) == 2 * value_of(old(digits)@),
{
    let n: usize = digits.len();
    let mut carry: u8 = 0;
    let mut i: usize = 0;
    let ghost before = digits@;
    proof {
        assert(before.skip(0) =~= before);
        assert(digits@.take(0) + doubled(before, 0) =~= doubled(before, 0));
    }
    while i < n
        invariant
            0 <= i <= n,
            n == before.len(),
            digits@.len() == n,
            0 <= carry <= 1,
            canonical(before),
            digits@.skip(i as int) == before.skip(i as int),
            digits@.take(i as int) + doubled(before.skip(i as int), carry as int) == doubled(
                before,
                0,
            ),
        decreases n - i,
    {
        let ghost tail = before.skip(i as int);
        assert(digits@[i as int] == tail[0]);
        assert(tail[0] == before[i as int]);
        let t: u8 = 2 * digits[i] + carry;
        let low: u8 = t % 10;
        let ghost prev = digits@;
        digits.set(i, low);
        proof {
            assert(tail.drop_first() =~= before.skip(i + 1));
            assert(digits@.skip(i + 1) =~= before.skip(i + 1)) by {
                assert forall|j: int| i < j < n implies #[trigger] digits@[j] == before[j] by {
                    assert(prev.skip(i as int)[j - i] == before.skip(i as int)[j - i]);
                }
            }
            assert(digits@.take(i + 1) =~= prev.take(i as int).push(low));
            assert(digits@.take(i + 1) + doubled(before.skip(i + 1), (t / 10) as int)
                =~= prev.take(i as int) + doubled(tail, carry as int));
        }
        carry = t / 10;
        i = i + 1;
    }
    proof {
        assert(before.skip(n as int) =~= Seq::<u8>::empty());
        assert(digits@.take(n as int) =~= digits@);
        lemma_doubled(before, 0);
    }
    if carry > 0 {
        digits.push(carry);
        assert(digits@ =~= doubled(before, 0));
    } else {
        assert(digits@ =~= doubled(before, 0));
    }
}

proof fn lemma_two_pow_grows(a: nat, b: nat)
    requires
        a <= b,
    ensures
        0 < two_pow(a) <= two_pow(b),
    decreases b,
{
    if b == 0 {
    } else if a == b {
        lemma_two_pow_grows(0, (b - 1) as nat);
    } else {
        lemma_two_pow_grows(a, (b - 1) as nat);
    }
}

proof fn lemma_two_pow_68()
    ensures
        two_pow(68) == 0x10_0000_0000_0000_0000,
{
    reveal_with_fuel(two_pow, 70);
}

/// `2^k` for `k` up to 67.
fn two_pow_u128(k: u64) -> (r: u128)
    requires
        k <= 67,
    ensures
        r == two_pow(k as nat),
        r <= 0x8_0000_0000_0000_0000,
{
    let mut p: u128 = 1;
    let mut i: u64 = 0;
    proof {
        lemma_two_pow_68();
    }
    while i < k
        invariant
            0 <= i <= k <= 67,
            p == two_pow(i as nat),
            two_pow(68) == 0x10_0000_0000_0000_0000,
        decreases k - i,
    {
        proof {
            lemma_two_pow_grows((i + 1) as nat, 67);
            assert(two_pow(68) == 2 * two_pow(67));
        }
        p = p * 2;
        i = i + 1;
    }
    proof {
        lemma_two_pow_grows(k as nat, 67);
        assert(two_pow(68) == 2 * two_pow(67));
    }
    p
}

/// Pushes the four decimals of `r`.
fn push_four_digits(text: &mut String, r: u128)
    requires
        r < 10000,
    ensures
        final(text)@ == old(text)@ + four_digits(r as nat),
{
    let d3: u8 = (r / 1000) as u8;
    let d2: u8 = (r / 100 % 10) as u8;
    let d1: u8 = (r / 10 % 10) as u8;
    let d0: u8 = (r % 10) as u8;
    text.push((48u8 + d3) as char);
    text.push((48u8 + d2) as char);
    text.push((48u8 + d1) as char);
    text.push((48u8 + d0) as char);
    assert(text@ =~= old(text)@ + four_digits(r as nat));
}

/// The number with four decimals, as formatting with precision four writes it.
pub fn format_fixed4(s: Scalar) -> (r: String)
    ensures
        r@ == fixed4_text(s),
{
    let mut text = String::new();
    if s.is_nan() {
        text.push('N');
        text.push('a');
        text.push('N');
        assert(text@ =~= fixed4_text(s));
        return text;
    }
    if s.is_sign_negative() {
        text.push('-');
    }
    assert(text@ =~= sign_text(s));
    if !s.is_finite() {
        text.push('i');
        text.push('n');
        text.push('f');
        assert(text@ =~= fixed4_text(s));
        return text;
    }
    let mag: u64 = s.magnitude_bits();
    let field: u64 = mag / FRACTION_SPAN;
    let fraction: u64 = mag % FRACTION_SPAN;
    let m: u64 = if field == 0 {
        fraction
    } else {
        FRACTION_SPAN + fraction
    };
    assert(m == significand(s));
    assert(field < 2047);
    if field >= 1075 {
        let x: u64 = field - 1075;
        let mut digits = digits_of_u128(m as u128);
        proof {
            lemma_digits_of(m as nat);
        }
        let mut i: u64 = 0;
        while i < x
            invariant
                0 <= i <= x,
                canonical(digits@),
                value_of(digits@) == m * two_pow(i as nat),
            decreases x - i,
        {
            double_digits(&mut digits);
            proof {
                assert(m * two_pow((i + 1) as nat) == 2 * (m * two_pow(i as nat))) by (nonlinear_arith)
                    requires
                        two_pow((i + 1) as nat) == 2 * two_pow(i as nat),
                ;
            }
            i = i + 1;
        }
        let whole = render_digits(&digits);
        text.append(whole.as_str());
        text.push('.');
        push_four_digits(&mut text, 0);
        proof {
            let v: nat = (m as nat) * two_pow(x as nat);
            let n = ten_thousandths(s);
            assert(binary_exponent(s) == x);
            assert(n == v * 10000);
            assert(n / 10000 == v && n % 10000 == 0) by (nonlinear_arith)
                requires
                    n == v * 10000,
            ;
            lemma_canonical_unique(digits@);
            lemma_rendered_digits(v);
            assert(text@ =~= fixed4_text(s));
        }
        text
    } else {
        let k: u64 = if field == 0 {
            1074
        } else {
            1075 - field
        };
        assert(binary_exponent(s) == -(k as int));
        let a: u128 = (m as u128) * 10000;
        let n: u128 = if k >= 68 {
            proof {
                lemma_two_pow_68();
                lemma_two_pow_grows(68, k as nat);
                let p = two_pow(k as nat);
                vstd::arithmetic::div_mod::lemma_small_mod(a as nat, p);
                vstd::arithmetic::div_mod::lemma_basic_div(a as int, p as int);
            }
            0
        } else {
            let p: u128 = two_pow_u128(k);
            proof {
                lemma_two_pow_grows(0, k as nat);
            }
            let q: u128 = a / p;
            let r: u128 = a % p;
            if 2 * r > p || (2 * r == p && q % 2 == 1) {
                q + 1
            } else {
                q
            }
        };
        assert(n == ten_thousandths(s));
        let whole = u128_to_string(n / 10000);
        text.append(whole.as_str());
        text.push('.');
        push_four_digits(&mut text, n % 10000);
        assert(text@ =~= fixed4_text(s));
        text
    }
}

} // verus!
