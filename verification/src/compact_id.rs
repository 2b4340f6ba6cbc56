//! Compact graph identifiers: sequence-derived tokens such as `aaa`, `aab`,
//! `aac`, minted from the store's operation sequence.  They are base-26 numbers
//! written with the letters `a` to `z`, at least three letters long.

use vstd::prelude::*;

use crate::radix::{lemma_padded_digits_injective, lemma_padded_digits_value, padded_digits, padded_radix_digits};
use crate::text_build::string_from_chars;

verus! {

/// Radix of compact identifiers.
pub const COMPACT_RADIX: u64 = 26;

/// Minimum number of letters in a compact identifier.
pub const COMPACT_WIDTH: usize = 3;

/// The letter for one base-26 digit.
pub open spec fn compact_letter(digit: nat) -> char {
    (97 + digit) as char
}

/// The text of the compact identifier for a zero-based sequence value.
pub open spec fn compact_text(value: nat) -> Seq<char> {
    padded_digits(value, 26, 3).map_values(|digit: nat| compact_letter(digit))
}

/// A compact identifier before it is rendered as text.
#[derive(Debug, Clone, Copy, PartialEq, Eq)]
pub struct CompactGraphIdentifier {
    pub value: u64,
}

impl CompactGraphIdentifier {
    pub fn from_zero_based_sequence(value: u64) -> (identifier: Self)
        ensures
            identifier.value == value,
    {
        Self { value }
    }

    /// The identifier for a one-based sequence number (a snapshot or
    /// subscription number handed out by the store): the first one is `aaa`.
    pub fn from_one_based_sequence(value: u64) -> (identifier: Self)
        ensures
            identifier.value == if value == 0 { 0 } else { value - 1 },
    {
        Self { value: value.saturating_sub(1) }
    }

    pub fn into_string(self) -> (text: String)
        ensures
            text@ == compact_text(self.value as nat),
    {
        let digits = padded_radix_digits(self.value, COMPACT_RADIX, COMPACT_WIDTH);
        proof {
            lemma_padded_digits_value(self.value as nat, 26, 3);
        }
        let ghost spec_digits = padded_digits(self.value as nat, 26, 3);
        let mut letters: Vec<char> = Vec::new();
        let mut index: usize = 0;
        while index < digits.len()
            invariant
                index <= digits@.len(),
                digits@.len() == spec_digits.len(),
                forall|i: int| 0 <= i < digits@.len() ==> digits@[i] as nat == #[trigger] spec_digits[i],
                forall|i: int| 0 <= i < spec_digits.len() ==> #[trigger] spec_digits[i] < 26,
                letters@.len() == index,
                forall|i: int| 0 <= i < index ==> #[trigger] letters@[i] == compact_letter(spec_digits[i]),
            decreases digits@.len() - index,
        {
            let digit = digits[index];
            assert(spec_digits[index as int] < 26);
            let code: u8 = 97u8 + (digit as u8);
            letters.push(code as char);
            index = index + 1;
        }
        proof {
            assert(letters@ =~= spec_digits.map_values(|digit: nat| compact_letter(digit)));
        }
        string_from_chars(&letters)
    }
}

/// Every compact identifier is at least three lowercase letters long.
pub proof fn lemma_compact_text_shape(value: nat)
    ensures
        compact_text(value).len() >= 3,
        forall|i: int|
            0 <= i < compact_text(value).len() ==> 'a' <= #[trigger] compact_text(value)[i] <= 'z',
{
    lemma_padded_digits_value(value, 26, 3);
    let digits = padded_digits(value, 26, 3);
    assert forall|i: int| 0 <= i < compact_text(value).len() implies 'a' <= #[trigger] compact_text(
        value,
    )[i] <= 'z' by {
        assert(digits[i] < 26);
    }
}

/// Distinct sequence values never share a compact identifier: minting from a
/// growing sequence cannot collide, before or after a reopen.
pub proof fn lemma_compact_text_injective(a: nat, b: nat)
    requires
        compact_text(a) == compact_text(b),
    ensures
        a == b,
{
    lemma_padded_digits_value(a, 26, 3);
    lemma_padded_digits_value(b, 26, 3);
    let da = padded_digits(a, 26, 3);
    let db = padded_digits(b, 26, 3);
    assert(da.len() == compact_text(a).len());
    assert(db.len() == compact_text(b).len());
    assert forall|i: int| 0 <= i < da.len() implies da[i] == db[i] by {
        assert(compact_text(a)[i] == compact_text(b)[i]);
        assert(da[i] < 26 && db[i] < 26);
        assert(compact_text(a)[i] == compact_letter(da[i]));
        assert(compact_text(b)[i] == compact_letter(db[i]));
        assert(compact_letter(da[i]) == compact_letter(db[i]));
        assert(compact_letter(da[i]) as int == 97 + da[i]);
        assert(compact_letter(db[i]) as int == 97 + db[i]);
    }
    assert(da =~= db);
    lemma_padded_digits_injective(a, b, 26, 3);
}

} // verus!
