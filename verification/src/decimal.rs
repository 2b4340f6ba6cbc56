//! Counts given as decimal text (such as `750`), read the way `u64` parsing
//! reads them: an optional `+`, then one or more decimal digits, with a value
//! that fits a `u64`.

use vstd::prelude::*;

use crate::radix::{digits_value, lemma_padded_digits_value, padded_digits, padded_radix_digits};
use crate::text_build::string_from_chars;

verus! {

pub open spec fn is_decimal_digit(c: char) -> bool {
    '0' <= c <= '9'
}

pub open spec fn decimal_value(digits: Seq<char>) -> nat
    decreases digits.len(),
{
    if digits.len() == 0 {
        0
    } else {
        (decimal_value(digits.drop_last()) * 10 + (digits.last() as nat - 48)) as nat
    }
}

/// The digits after an optional leading `+`.
pub open spec fn decimal_digits_part(text: Seq<char>) -> Seq<char> {
    if text.len() > 0 && text[0] == '+' {
        text.drop_first()
    } else {
        text
    }
}

/// What decimal parsing of `text` yields.
pub open spec fn parsed_decimal(text: Seq<char>) -> Option<u64> {
    let digits = decimal_digits_part(text);
    if digits.len() > 0 && (forall|i: int| 0 <= i < digits.len() ==> is_decimal_digit(#[trigger] digits[i]))
        && decimal_value(digits) <= u64::MAX {
        Some(decimal_value(digits) as u64)
    } else {
        None
    }
}

proof fn lemma_decimal_value_grows(digits: Seq<char>, count: int)
    requires
        0 <= count <= digits.len(),
        forall|i: int| 0 <= i < digits.len() ==> is_decimal_digit(#[trigger] digits[i]),
    ensures
        decimal_value(digits.take(count)) <= decimal_value(digits),
    decreases digits.len() - count,
{
    if count < digits.len() {
        lemma_decimal_value_grows(digits, count + 1);
        let shorter = digits.take(count + 1);
        assert(shorter.drop_last() =~= digits.take(count));
        assert(is_decimal_digit(shorter.last()));
    } else {
        assert(digits.take(count) =~= digits);
    }
}

/// Parses decimal text such as `750`.
pub fn parse_decimal(text: &str) -> (value: Option<u64>)
    ensures
        value == parsed_decimal(text@),
{
    let length = text.unicode_len();
    let mut index: usize = 0;
    if length > 0 && text.get_char(0) == '+' {
        index = 1;
    }
    let start = index;
    let ghost digits = decimal_digits_part(text@);
    proof {
        assert(digits =~= text@.skip(start as int));
    }
    if index == length {
        return None;
    }
    let mut value: u128 = 0;
    while index < length
        invariant
            length == text@.len(),
            start <= index <= length,
            start < length,
            digits =~= text@.skip(start as int),
            digits == decimal_digits_part(text@),
            forall|i: int| 0 <= i < index - start ==> is_decimal_digit(#[trigger] digits[i]),
            value as nat == decimal_value(digits.take(index - start)),
            value <= u64::MAX,
        decreases length - index,
    {
        let c = text.get_char(index);
        if c < '0' || c > '9' {
            proof {
                assert(digits[index - start] == c);
                assert(!is_decimal_digit(digits[index - start]));
                assert(!(forall|i: int| 0 <= i < digits.len() ==> is_decimal_digit(#[trigger] digits[i])));
            }
            return None;
        }
        let digit = (c as u32 - 48) as u128;
        proof {
            assert(digits[index - start] == c);
            let taken = digits.take(index - start + 1);
            assert(taken.drop_last() =~= digits.take(index - start));
            assert(taken.last() == c);
            assert(decimal_value(taken) == decimal_value(taken.drop_last()) * 10 + (c as nat - 48));
            assert(digit as nat == c as nat - 48);
        }
        value = value * 10 + digit;
        assert(value as nat == decimal_value(digits.take(index - start + 1)));
        if value > u64::MAX as u128 {
            proof {
                if forall|i: int| 0 <= i < digits.len() ==> is_decimal_digit(#[trigger] digits[i]) {
                    lemma_decimal_value_grows(digits, index - start + 1);
                    assert(decimal_value(digits) > u64::MAX);
                }
            }
            return None;
        }
        index = index + 1;
    }
    proof {
        assert(digits.take(index - start) =~= digits);
    }
    Some(value as u64)
}

/// The character of one decimal digit.
pub open spec fn decimal_character(digit: nat) -> char {
    (48 + digit) as char
}

/// `value` written in decimal: no sign, no leading zero, `0` for zero.
pub open spec fn decimal_text(value: nat) -> Seq<char> {
    padded_digits(value, 10, 1).map_values(|digit: nat| decimal_character(digit))
}

proof fn lemma_decimal_value_of_digits(digits: Seq<nat>)
    requires
        forall|i: int| 0 <= i < digits.len() ==> #[trigger] digits[i] < 10,
    ensures
        decimal_value(digits.map_values(|digit: nat| decimal_character(digit))) == digits_value(digits, 10),
        forall|i: int| 0 <= i < digits.len() ==> #[trigger] is_decimal_digit(decimal_character(digits[i])),
    decreases digits.len(),
{
    let chars = digits.map_values(|digit: nat| decimal_character(digit));
    assert forall|i: int| 0 <= i < digits.len() implies #[trigger] is_decimal_digit(decimal_character(digits[i])) by {
        assert(digits[i] < 10);
        assert(decimal_character(digits[i]) as nat == 48 + digits[i]);
    }
    if digits.len() > 0 {
        let shorter = digits.drop_last();
        assert(chars.drop_last() =~= shorter.map_values(|digit: nat| decimal_character(digit)));
        lemma_decimal_value_of_digits(shorter);
        assert(digits.last() < 10);
        assert(chars.last() as nat == 48 + digits.last());
    }
}

/// Decimal text reads back as the value it was written from.
pub proof fn lemma_decimal_text_reads_back(value: u64)
    ensures
        parsed_decimal(decimal_text(value as nat)) == Some(value),
{
    let digits = padded_digits(value as nat, 10, 1);
    lemma_padded_digits_value(value as nat, 10, 1);
    lemma_decimal_value_of_digits(digits);
    let text = decimal_text(value as nat);
    assert(text.len() >= 1);
    assert(is_decimal_digit(decimal_character(digits[0])));
    assert(text[0] == decimal_character(digits[0]));
    assert(decimal_digits_part(text) == text);
}

/// Writes `value` in decimal.
pub fn write_decimal(value: u64) -> (text: String)
    ensures
        text@ == decimal_text(value as nat),
{
    let digits = padded_radix_digits(value, 10, 1);
    proof {
        lemma_padded_digits_value(value as nat, 10, 1);
    }
    let ghost spec_digits = padded_digits(value as nat, 10, 1);
    let mut characters: Vec<char> = Vec::new();
    let mut index: usize = 0;
    while index < digits.len()
        invariant
            index <= digits@.len(),
            digits@.len() == spec_digits.len(),
            forall|i: int| 0 <= i < digits@.len() ==> digits@[i] as nat == #[trigger] spec_digits[i],
            forall|i: int| 0 <= i < spec_digits.len() ==> #[trigger] spec_digits[i] < 10,
            characters@.len() == index,
            forall|i: int| 0 <= i < index ==> #[trigger] characters@[i] == decimal_character(spec_digits[i]),
        decreases digits@.len() - index,
    {
        let digit = digits[index];
        assert(spec_digits[index as int] < 10);
        characters.push((48u8 + digit as u8) as char);
        index = index + 1;
    }
    proof {
        assert(characters@ =~= spec_digits.map_values(|digit: nat| decimal_character(digit)));
    }
    string_from_chars(&characters)
}

} // verus!
