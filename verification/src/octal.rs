//! Socket modes given as octal text (such as `600`), parsed the way
//! `u32::from_str_radix(text, 8)` reads them: an optional `+`, then one or
//! more octal digits, with a value that fits a `u32`.

use vstd::prelude::*;

verus! {

pub open spec fn is_octal_digit(c: char) -> bool {
    '0' <= c <= '7'
}

pub open spec fn octal_value(digits: Seq<char>) -> nat
    decreases digits.len(),
{
    if digits.len() == 0 {
        0
    } else {
        (octal_value(digits.drop_last()) * 8 + (digits.last() as nat - 48)) as nat
    }
}

/// The digits after an optional leading `+`.
pub open spec fn octal_digits_part(text: Seq<char>) -> Seq<char> {
    if text.len() > 0 && text[0] == '+' {
        text.drop_first()
    } else {
        text
    }
}

/// What octal parsing of `text` yields.
pub open spec fn parsed_octal(text: Seq<char>) -> Option<u32> {
    let digits = octal_digits_part(text);
    if digits.len() > 0 && (forall|i: int| 0 <= i < digits.len() ==> is_octal_digit(#[trigger] digits[i]))
        && octal_value(digits) <= u32::MAX {
        Some(octal_value(digits) as u32)
    } else {
        None
    }
}

proof fn lemma_octal_value_grows(digits: Seq<char>, count: int)
    requires
        0 <= count <= digits.len(),
        forall|i: int| 0 <= i < digits.len() ==> is_octal_digit(#[trigger] digits[i]),
    ensures
        octal_value(digits.take(count)) <= octal_value(digits),
    decreases digits.len() - count,
{
    if count < digits.len() {
        lemma_octal_value_grows(digits, count + 1);
        let shorter = digits.take(count + 1);
        assert(shorter.drop_last() =~= digits.take(count));
        assert(is_octal_digit(shorter.last()));
    } else {
        assert(digits.take(count) =~= digits);
    }
}

/// Parses octal text such as `600`.
pub fn parse_octal(text: &str) -> (value: Option<u32>)
    ensures
        value == parsed_octal(text@),
{
    let length = text.unicode_len();
    let mut index: usize = 0;
    if length > 0 && text.get_char(0) == '+' {
        index = 1;
    }
    let start = index;
    let ghost digits = octal_digits_part(text@);
    proof {
        assert(digits =~= text@.skip(start as int));
    }
    if index == length {
        return None;
    }
    let mut value: u64 = 0;
    while index < length
        invariant
            length == text@.len(),
            start <= index <= length,
            start < length,
            digits =~= text@.skip(start as int),
            digits == octal_digits_part(text@),
            forall|i: int| 0 <= i < index - start ==> is_octal_digit(#[trigger] digits[i]),
            value as nat == octal_value(digits.take(index - start)),
            value <= u32::MAX,
        decreases length - index,
    {
        let c = text.get_char(index);
        if c < '0' || c > '7' {
            proof {
                assert(digits[index - start] == c);
                assert(!is_octal_digit(digits[index - start]));
                assert(!(forall|i: int| 0 <= i < digits.len() ==> is_octal_digit(#[trigger] digits[i])));
            }
            return None;
        }
        let digit = (c as u32 - 48) as u64;
        proof {
            assert(digits[index - start] == c);
            let taken = digits.take(index - start + 1);
            assert(taken.drop_last() =~= digits.take(index - start));
            assert(taken.last() == c);
            assert(octal_value(taken) == octal_value(taken.drop_last()) * 8 + (c as nat - 48));
            assert(digit as nat == c as nat - 48);
        }
        value = value * 8 + digit;
        assert(value as nat == octal_value(digits.take(index - start + 1)));
        if value > u32::MAX as u64 {
            proof {
                if forall|i: int| 0 <= i < digits.len() ==> is_octal_digit(#[trigger] digits[i]) {
                    lemma_octal_value_grows(digits, index - start + 1);
                    assert(octal_value(digits) > u32::MAX);
                }
            }
            return None;
        }
        index = index + 1;
    }
    proof {
        assert(digits.take(index - start) =~= digits);
    }
    Some(value as u32)
}

} // verus!
