//! Numbers as decimal text.
use vstd::prelude::*;

verus! {

/// `String::push`: appends one character.
pub assume_specification[ String::push ](s: &mut String, c: char)
    ensures
        final(s)@ == old(s)@.push(c),
;

/// The character of a decimal digit.
pub open spec fn digit_char(d: int) -> char {
    ((48 + d) as u8) as char
}

/// The decimal text of a number, without leading zeros; `"0"` for zero.
pub open spec fn decimal_text(n: nat) -> Seq<char>
    decreases n,
{
    if n < 10 {
        seq![digit_char(n as int)]
    } else {
        decimal_text(n / 10).push(digit_char((n % 10) as int))
    }
}

/// The decimal digits of a number, least significant first; none for zero.
pub open spec fn digits_of(n: nat) -> Seq<u8>
    decreases n,
{
    if n == 0 {
        Seq::empty()
    } else {
        seq![(n % 10) as u8] + digits_of(n / 10)
    }
}

/// The number that a sequence of decimal digits, least significant first, denotes.
pub open spec fn value_of(digits: Seq<u8>) -> nat
    decreases digits.len(),
{
    if digits.len() == 0 {
        0
    } else {
        (digits[0] + 10 * value_of(digits.drop_first())) as nat
    }
}

/// Every element is a decimal digit, and the most significant one is not zero.
pub open spec fn canonical(digits: Seq<u8>) -> bool {
    &&& forall|i: int| 0 <= i < digits.len() ==> digits[i] < 10
    &&& digits.len() > 0 ==> digits.last() != 0
}

/// The text of a digit sequence: most significant digit first, `"0"` for none.
pub open spec fn rendered(digits: Seq<u8>) -> Seq<char> {
    if digits.len() == 0 {
        seq!['0']
    } else {
        Seq::new(digits.len(), |i: int| digit_char(digits[digits.len() - 1 - i] as int))
    }
}

/// The digits of a number are canonical and denote it.
pub proof fn lemma_digits_of(n: nat)
    ensures
        canonical(digits_of(n)),
        value_of(digits_of(n)) == n,
        n > 0 ==> digits_of(n).len() > 0,
    decreases n,
{
    if n > 0 {
        lemma_digits_of(n / 10);
        let d = digits_of(n);
        let rest = digits_of(n / 10);
        assert(d.drop_first() =~= rest);
        assert(d[0] == (n % 10) as u8);
        if rest.len() > 0 {
            assert(d.last() == rest.last());
        } else {
            assert(n / 10 == 0);
        }
        assert forall|i: int| 0 <= i < d.len() implies d[i] < 10 by {
            if i > 0 {
                assert(d[i] == rest[i - 1]);
            }
        }
    }
}

/// What is left of a canonical digit sequence without its least significant
/// digit is canonical.
pub proof fn lemma_canonical_rest(digits: Seq<u8>)
    requires
        canonical(digits),
        digits.len() > 0,
    ensures
        canonical(digits.drop_first()),
{
    let rest = digits.drop_first();
    assert forall|i: int| 0 <= i < rest.len() implies rest[i] < 10 by {
        assert(rest[i] == digits[i + 1]);
    }
    if rest.len() > 0 {
        assert(rest.last() == digits.last());
    }
}

/// A canonical digit sequence is the digits of the number it denotes.
pub proof fn lemma_canonical_unique(digits: Seq<u8>)
    requires
        canonical(digits),
    ensures
        digits == digits_of(value_of(digits)),
    decreases digits.len(),
{
    if digits.len() == 0 {
    } else {
        let rest = digits.drop_first();
        lemma_canonical_rest(digits);
        lemma_canonical_unique(rest);
        let v = value_of(digits);
        let r = value_of(rest);
        assert(v == digits[0] + 10 * r);
        if rest.len() == 0 {
            assert(digits.last() == digits[0]);
            assert(v / 10 == 0);
            assert(digits_of(v / 10) =~= Seq::<u8>::empty());
        } else {
            lemma_value_positive(rest);
        }
        assert(digits =~= seq![(v % 10) as u8] + digits_of(v / 10));
    }
}

/// A canonical digit sequence that is not empty denotes a number above zero.
pub proof fn lemma_value_positive(digits: Seq<u8>)
    requires
        canonical(digits),
        digits.len() > 0,
    ensures
        value_of(digits) > 0,
    decreases digits.len(),
{
    let rest = digits.drop_first();
    if rest.len() == 0 {
        assert(digits.last() == digits[0]);
    } else {
        lemma_canonical_rest(digits);
        lemma_value_positive(rest);
    }
}

/// The text of the digits of a number is the number's decimal text.
pub proof fn lemma_rendered_digits(n: nat)
    ensures
        rendered(digits_of(n)) == decimal_text(n),
    decreases n,
{
    let d = digits_of(n);
    if n == 0 {
        assert(rendered(d) =~= decimal_text(n));
    } else if n < 10 {
        assert(n / 10 == 0);
        assert(digits_of(n / 10) =~= Seq::<u8>::empty());
        assert(d =~= seq![(n % 10) as u8]);
        assert(rendered(d) =~= decimal_text(n));
    } else {
        lemma_rendered_digits(n / 10);
        lemma_digits_of(n / 10);
        let rest = digits_of(n / 10);
        assert(rest.len() > 0);
        assert(d.len() == rest.len() + 1);
        assert forall|i: int| 0 <= i < d.len() implies rendered(d)[i] == decimal_text(n / 10).push(
            digit_char((n % 10) as int),
        )[i] by {
            if i < rest.len() {
                assert(d[d.len() - 1 - i] == rest[rest.len() - 1 - i]);
                assert(rendered(rest)[i] == digit_char(rest[rest.len() - 1 - i] as int));
            } else {
                assert(d[0] == (n % 10) as u8);
            }
        }
        assert(rendered(d) =~= decimal_text(n));
    }
}

/// The decimal digits of `n`, least significant first.
pub fn digits_of_u128(n: u128) -> (r: Vec<u8>)
    ensures
        r@ == digits_of(n as nat),
{
    let mut digits: Vec<u8> = Vec::new();
    let mut rest: u128 = n;
    while rest > 0
        invariant
            digits@ + digits_of(rest as nat) == digits_of(n as nat),
        decreases rest,
    {
        let d: u8 = (rest % 10) as u8;
        proof {
            assert(digits_of(rest as nat) =~= seq![d] + digits_of((rest / 10) as nat));
            assert(digits@.push(d) + digits_of((rest / 10) as nat) =~= digits@ + digits_of(
                rest as nat,
            ));
        }
        digits.push(d);
        rest = rest / 10;
    }
    proof {
        assert(digits@ + digits_of(0) =~= digits@);
    }
    digits
}

/// The text of a digit sequence, most significant digit first.
pub fn render_digits(digits: &Vec<u8>) -> (r: String)
    requires
        forall|i: int| 0 <= i < digits@.len() ==> digits@[i] < 10,
    ensures
        r@ == rendered(digits@),
{
    let mut text = String::new();
    let n: usize = digits.len();
    if n == 0 {
        text.push('0');
        assert(text@ =~= rendered(digits@));
        return text;
    }
    let mut i: usize = 0;
    while i < n
        invariant
            0 <= i <= n,
            n == digits@.len(),
            n > 0,
            forall|j: int| 0 <= j < digits@.len() ==> digits@[j] < 10,
            text@ == rendered(digits@).take(i as int),
        decreases n - i,
    {
        let d: u8 = digits[n - 1 - i];
        let c: char = (48u8 + d) as char;
        text.push(c);
        assert(text@ =~= rendered(digits@).take(i + 1));
        i = i + 1;
    }
    assert(text@ =~= rendered(digits@));
    text
}

/// The decimal text of `n`.
pub fn u128_to_string(n: u128) -> (r: String)
    ensures
        r@ == decimal_text(n as nat),
{
    let digits = digits_of_u128(n);
    proof {
        lemma_digits_of(n as nat);
        lemma_rendered_digits(n as nat);
    }
    render_digits(&digits)
}

/// The decimal text of `n`.
pub fn usize_to_string(n: usize) -> (r: String)
    ensures
        r@ == decimal_text(n as nat),
{
    u128_to_string(n as u128)
}

} // verus!
