//! Positional digit codes shared by the compact graph identifiers and the
//! accepted-knowledge identity codes: a value written in some radix, most
//! significant digit first, padded on the left with zero digits up to a
//! minimum width.

use vstd::prelude::*;

verus! {

/// The digits of `value` in base `radix`, most significant first, with no
/// leading zero digit (the empty sequence for zero).
pub open spec fn radix_digits(value: nat, radix: nat) -> Seq<nat>
    decreases value,
{
    if radix < 2 || value == 0 {
        seq![]
    } else {
        proof {
            assert(value / radix < value) by (nonlinear_arith)
                requires
                    radix >= 2,
                    value > 0,
            ;
        }
        radix_digits(value / radix, radix).push(value % radix)
    }
}

/// `count` zero digits.
pub open spec fn zero_digits(count: nat) -> Seq<nat> {
    Seq::new(count, |i: int| 0nat)
}

/// The digits of `value` padded on the left with zeros up to `width` digits.
pub open spec fn padded_digits(value: nat, radix: nat, width: nat) -> Seq<nat> {
    let digits = radix_digits(value, radix);
    if digits.len() < width {
        zero_digits((width - digits.len()) as nat) + digits
    } else {
        digits
    }
}

/// The number that a digit sequence (most significant first) denotes.
pub open spec fn digits_value(digits: Seq<nat>, radix: nat) -> nat
    decreases digits.len(),
{
    if digits.len() == 0 {
        0
    } else {
        digits_value(digits.drop_last(), radix) * radix + digits.last()
    }
}

pub proof fn lemma_radix_digits_value(value: nat, radix: nat)
    requires
        radix >= 2,
    ensures
        digits_value(radix_digits(value, radix), radix) == value,
        forall|i: int|
            0 <= i < radix_digits(value, radix).len() ==> #[trigger] radix_digits(value, radix)[i]
                < radix,
    decreases value,
{
    if value > 0 {
        assert(value / radix < value) by (nonlinear_arith)
            requires
                radix >= 2,
                value > 0,
        ;
        lemma_radix_digits_value(value / radix, radix);
        let digits = radix_digits(value, radix);
        assert(digits.drop_last() =~= radix_digits(value / radix, radix));
        vstd::arithmetic::div_mod::lemma_fundamental_div_mod(value as int, radix as int);
        assert(value % radix < radix) by (nonlinear_arith)
            requires
                radix >= 2,
        ;
        assert((value / radix) * radix == radix * (value / radix)) by (nonlinear_arith);
    }
}

pub proof fn lemma_zero_prefix_value(count: nat, digits: Seq<nat>, radix: nat)
    ensures
        digits_value(zero_digits(count) + digits, radix) == digits_value(digits, radix),
    decreases digits.len(), count,
{
    if digits.len() == 0 {
        assert(zero_digits(count) + digits =~= zero_digits(count));
        if count > 0 {
            assert(zero_digits(count).drop_last() =~= zero_digits((count - 1) as nat));
            lemma_zero_prefix_value((count - 1) as nat, digits, radix);
            assert(zero_digits((count - 1) as nat) + digits =~= zero_digits((count - 1) as nat));
            let shorter = digits_value(zero_digits((count - 1) as nat), radix);
            assert(shorter == 0);
            assert(zero_digits(count).last() == 0);
            assert(shorter * radix == 0) by (nonlinear_arith)
                requires
                    shorter == 0,
            ;
        }
    } else {
        assert((zero_digits(count) + digits).drop_last() =~= zero_digits(count)
            + digits.drop_last());
        lemma_zero_prefix_value(count, digits.drop_last(), radix);
    }
}

/// A padded code denotes the value it was made from.
pub proof fn lemma_padded_digits_value(value: nat, radix: nat, width: nat)
    requires
        radix >= 2,
    ensures
        digits_value(padded_digits(value, radix, width), radix) == value,
        padded_digits(value, radix, width).len() >= width,
        forall|i: int|
            0 <= i < padded_digits(value, radix, width).len() ==> #[trigger] padded_digits(
                value,
                radix,
                width,
            )[i] < radix,
{
    lemma_radix_digits_value(value, radix);
    let digits = radix_digits(value, radix);
    if digits.len() < width {
        lemma_zero_prefix_value((width - digits.len()) as nat, digits, radix);
        let padded = padded_digits(value, radix, width);
        assert forall|i: int| 0 <= i < padded.len() implies #[trigger] padded[i] < radix by {
            if i >= (width - digits.len()) {
                assert(padded[i] == digits[i - (width - digits.len())]);
            }
        }
    }
}

/// Distinct values have distinct padded codes.
pub proof fn lemma_padded_digits_injective(a: nat, b: nat, radix: nat, width: nat)
    requires
        radix >= 2,
        padded_digits(a, radix, width) == padded_digits(b, radix, width),
    ensures
        a == b,
{
    lemma_padded_digits_value(a, radix, width);
    lemma_padded_digits_value(b, radix, width);
}

/// Computes the padded digits of `value` in base `radix`.
pub fn padded_radix_digits(value: u64, radix: u64, width: usize) -> (digits: Vec<u64>)
    requires
        radix >= 2,
    ensures
        digits@.len() == padded_digits(value as nat, radix as nat, width as nat).len(),
        forall|i: int|
            0 <= i < digits@.len() ==> digits@[i] as nat == #[trigger] padded_digits(
                value as nat,
                radix as nat,
                width as nat,
            )[i],
{
    let ghost given = value as nat;
    let ghost r = radix as nat;
    // Least significant digit first.
    let mut reversed: Vec<u64> = Vec::new();
    let mut rest = value;
    while rest > 0
        invariant
            radix >= 2,
            r == radix as nat,
            radix_digits(given, r).len() == radix_digits(rest as nat, r).len()
                + reversed@.len(),
            forall|i: int|
                0 <= i < reversed@.len() ==> #[trigger] reversed@[i] as nat == radix_digits(
                    given,
                    r,
                )[radix_digits(given, r).len() - 1 - i],
            forall|i: int|
                0 <= i < radix_digits(rest as nat, r).len() ==> radix_digits(given, r)[i]
                    == #[trigger] radix_digits(rest as nat, r)[i],
        decreases rest,
    {
        let digit = rest % radix;
        let next = rest / radix;
        proof {
            let current = radix_digits(rest as nat, r);
            assert(current == radix_digits(next as nat, r).push(digit as nat));
            assert(current.len() == radix_digits(next as nat, r).len() + 1);
            assert(current[current.len() - 1] == digit as nat);
            assert(radix_digits(given, r)[current.len() - 1] == digit as nat);
        }
        reversed.push(digit);
        proof {
            assert forall|i: int|
                0 <= i < radix_digits(next as nat, r).len() implies radix_digits(given, r)[i]
                == #[trigger] radix_digits(next as nat, r)[i] by {
                assert(radix_digits(rest as nat, r)[i] == radix_digits(next as nat, r)[i]);
            }
        }
        rest = next;
    }
    let count = reversed.len();
    let mut digits: Vec<u64> = Vec::new();
    let mut padding = if count < width {
        width - count
    } else {
        0
    };
    let ghost pad = padding as nat;
    proof {
        assert(radix_digits(given, r).len() == count);
        if count < width {
            assert(padded_digits(given, r, width as nat) == zero_digits(pad) + radix_digits(
                given,
                r,
            ));
        } else {
            assert(pad == 0);
            assert(padded_digits(given, r, width as nat) =~= zero_digits(pad) + radix_digits(
                given,
                r,
            ));
        }
    }
    while padding > 0
        invariant
            digits@.len() == pad - padding,
            padding <= pad,
            forall|i: int| 0 <= i < digits@.len() ==> #[trigger] digits@[i] == 0,
        decreases padding,
    {
        digits.push(0);
        padding = padding - 1;
    }
    let mut index = count;
    while index > 0
        invariant
            index <= count,
            count == reversed@.len(),
            count == radix_digits(given, r).len(),
            digits@.len() == pad + (count - index),
            forall|i: int| 0 <= i < pad ==> #[trigger] digits@[i] == 0,
            forall|i: int|
                pad <= i < digits@.len() ==> #[trigger] digits@[i] as nat == radix_digits(
                    given,
                    r,
                )[i - pad],
            forall|i: int|
                0 <= i < reversed@.len() ==> #[trigger] reversed@[i] as nat == radix_digits(
                    given,
                    r,
                )[radix_digits(given, r).len() - 1 - i],
        decreases index,
    {
        index = index - 1;
        digits.push(reversed[index]);
    }
    proof {
        let spec_digits = padded_digits(given, r, width as nat);
        assert(spec_digits == zero_digits(pad) + radix_digits(given, r));
        assert forall|i: int| 0 <= i < digits@.len() implies digits@[i] as nat
            == #[trigger] spec_digits[i] by {
            if i < pad {
            } else {
            }
        }
    }
    digits
}

} // verus!
