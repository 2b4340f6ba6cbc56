//! Identity codes for accepted knowledge: base-36 codes written with `0`-`9`
//! and `a`-`z`, four to seven characters long.  A fresh identity is drawn at
//! random from the shortest code length that still has room, with a
//! deterministic scan as the fallback once random draws keep colliding.

use vstd::prelude::*;

use crate::radix::{lemma_padded_digits_injective, lemma_padded_digits_value, padded_digits, padded_radix_digits, radix_digits};
use crate::text_build::string_from_chars;

verus! {

pub const KNOWLEDGE_IDENTITY_MINIMUM_CODE_LENGTH: usize = 4;

pub const KNOWLEDGE_IDENTITY_MAXIMUM_CODE_LENGTH: usize = 7;

pub const KNOWLEDGE_IDENTITY_CODE_RADIX: u64 = 36;

pub const RANDOM_IDENTITY_ATTEMPTS_PER_LENGTH: usize = 128;

/// `36` to the power `exponent`.
pub open spec fn code_radix_power(exponent: nat) -> nat
    decreases exponent,
{
    if exponent == 0 {
        1
    } else {
        36 * code_radix_power((exponent - 1) as nat)
    }
}

/// The character for one base-36 digit.
pub open spec fn code_character(digit: nat) -> char {
    if digit < 10 {
        (48 + digit) as char
    } else {
        (87 + digit) as char
    }
}

/// The identity code of a value: its base-36 digits, padded to four.
pub open spec fn knowledge_code(value: nat) -> Seq<char> {
    padded_digits(value, 36, 4).map_values(|digit: nat| code_character(digit))
}

/// The first value whose code has `code_length` characters.
pub open spec fn code_range_first(code_length: nat) -> nat {
    if code_length == 4 {
        0
    } else {
        code_radix_power((code_length - 1) as nat)
    }
}

/// How many values have codes of `code_length` characters.
pub open spec fn code_range_count(code_length: nat) -> nat {
    (code_radix_power(code_length) - code_range_first(code_length)) as nat
}

/// Whether `text` is already one of the used identities.
pub open spec fn identity_used(used: Seq<String>, text: Seq<char>) -> bool {
    exists|i: int| 0 <= i < used.len() && #[trigger] used[i]@ == text
}

pub proof fn lemma_code_radix_power_bounds(exponent: nat)
    requires
        exponent <= 12,
    ensures
        1 <= code_radix_power(exponent) <= 4738381338321616896,
        exponent >= 1 ==> code_radix_power((exponent - 1) as nat) < code_radix_power(exponent),
    decreases exponent,
{
    if exponent > 0 {
        lemma_code_radix_power_bounds((exponent - 1) as nat);
        lemma_code_radix_power_monotone(exponent, 12);
    }
    reveal_with_fuel(code_radix_power, 13);
    assert(code_radix_power(12) == 4738381338321616896);
}

pub proof fn lemma_code_radix_power_monotone(low: nat, high: nat)
    requires
        low <= high,
    ensures
        code_radix_power(low) <= code_radix_power(high),
    decreases high - low,
{
    if low < high {
        lemma_code_radix_power_monotone(low, (high - 1) as nat);
        lemma_code_radix_power_positive((high - 1) as nat);
    }
}

pub proof fn lemma_code_radix_power_positive(exponent: nat)
    ensures
        code_radix_power(exponent) >= 1,
    decreases exponent,
{
    if exponent > 0 {
        lemma_code_radix_power_positive((exponent - 1) as nat);
    }
}

proof fn lemma_radix_digits_at_most(value: nat, exponent: nat)
    requires
        value < code_radix_power(exponent),
    ensures
        radix_digits(value, 36).len() <= exponent,
    decreases exponent,
{
    if value > 0 {
        assert(exponent > 0);
        let below = code_radix_power((exponent - 1) as nat);
        assert(value / 36 < below) by (nonlinear_arith)
            requires
                value < 36 * below,
        ;
        lemma_radix_digits_at_most(value / 36, (exponent - 1) as nat);
    }
}

proof fn lemma_radix_digits_at_least(value: nat, exponent: nat)
    requires
        exponent >= 1,
        code_radix_power((exponent - 1) as nat) <= value,
    ensures
        radix_digits(value, 36).len() >= exponent,
    decreases exponent,
{
    lemma_code_radix_power_positive((exponent - 1) as nat);
    if exponent > 1 {
        let below = code_radix_power((exponent - 2) as nat);
        assert(value / 36 >= below) by (nonlinear_arith)
            requires
                value >= 36 * below,
        ;
        lemma_radix_digits_at_least(value / 36, (exponent - 1) as nat);
    }
}

/// Every code of a length's range has exactly that many characters.
pub proof fn lemma_code_range_length(code_length: nat, value: nat)
    requires
        4 <= code_length <= 7,
        code_range_first(code_length) <= value < code_radix_power(code_length),
    ensures
        knowledge_code(value).len() == code_length,
{
    lemma_radix_digits_at_most(value, code_length);
    if code_length > 4 {
        lemma_radix_digits_at_least(value, code_length);
    }
}

/// Distinct values have distinct identity codes.
pub proof fn lemma_knowledge_code_injective(a: nat, b: nat)
    requires
        knowledge_code(a) == knowledge_code(b),
    ensures
        a == b,
{
    lemma_padded_digits_value(a, 36, 4);
    lemma_padded_digits_value(b, 36, 4);
    let da = padded_digits(a, 36, 4);
    let db = padded_digits(b, 36, 4);
    assert(da.len() == knowledge_code(a).len());
    assert(db.len() == knowledge_code(b).len());
    assert forall|i: int| 0 <= i < da.len() implies da[i] == db[i] by {
        assert(knowledge_code(a)[i] == code_character(da[i]));
        assert(knowledge_code(b)[i] == code_character(db[i]));
        assert(da[i] < 36 && db[i] < 36);
        assert(code_character(da[i]) as int == if da[i] < 10 { 48 + da[i] } else { 87 + da[i] });
        assert(code_character(db[i]) as int == if db[i] < 10 { 48 + db[i] } else { 87 + db[i] });
    }
    assert(da =~= db);
    lemma_padded_digits_injective(a, b, 36, 4);
}

/// Whether `text` equals one of the strings in `used`.
pub fn contains_identity(used: &Vec<String>, text: &String) -> (found: bool)
    ensures
        found == identity_used(used@, text@),
{
    let mut index: usize = 0;
    while index < used.len()
        invariant
            index <= used@.len(),
            forall|i: int| 0 <= i < index ==> used@[i]@ != text@,
        decreases used@.len() - index,
    {
        if used[index] == *text {
            return true;
        }
        index = index + 1;
    }
    false
}

/// The values whose codes share one length.
#[derive(Debug, Clone, Copy, PartialEq, Eq)]
pub struct KnowledgeIdentityCodeRange {
    pub first_value: u64,
    pub value_count: u64,
}

impl KnowledgeIdentityCodeRange {
    /// The range of values whose codes are `code_length` characters long (the
    /// shortest length also takes in every value below it, padded).
    pub fn new(code_length: usize) -> (range: Self)
        requires
            1 <= code_length <= 12,
        ensures
            range.first_value == code_range_first(code_length as nat),
            range.value_count == code_range_count(code_length as nat),
            range.value_count >= 1,
    {
        proof {
            lemma_code_radix_power_bounds(code_length as nat);
        }
        let first_value = if code_length == KNOWLEDGE_IDENTITY_MINIMUM_CODE_LENGTH {
            0
        } else {
            Self::radix_power(code_length - 1)
        };
        let next_length_first_value = Self::radix_power(code_length);
        Self { first_value, value_count: next_length_first_value - first_value }
    }

    /// `36` to the power `exponent`.
    pub fn radix_power(exponent: usize) -> (value: u64)
        requires
            exponent <= 12,
        ensures
            value == code_radix_power(exponent as nat),
    {
        let mut value: u64 = 1;
        let mut step: usize = 0;
        while step < exponent
            invariant
                step <= exponent <= 12,
                value == code_radix_power(step as nat),
            decreases exponent - step,
        {
            proof {
                lemma_code_radix_power_bounds((step + 1) as nat);
            }
            value = value * KNOWLEDGE_IDENTITY_CODE_RADIX;
            step = step + 1;
        }
        value
    }

    /// The character for a base-36 digit.
    pub fn digit_character(digit: u8) -> (c: char)
        requires
            digit < 36,
        ensures
            c == code_character(digit as nat),
    {
        if digit < 10 {
            (48u8 + digit) as char
        } else {
            (87u8 + digit) as char
        }
    }

    /// The identity code of `value`.
    pub fn code_from_value(value: u64) -> (code: String)
        ensures
            code@ == knowledge_code(value as nat),
    {
        let digits = padded_radix_digits(value, KNOWLEDGE_IDENTITY_CODE_RADIX, KNOWLEDGE_IDENTITY_MINIMUM_CODE_LENGTH);
        proof {
            lemma_padded_digits_value(value as nat, 36, 4);
        }
        let ghost spec_digits = padded_digits(value as nat, 36, 4);
        let mut characters: Vec<char> = Vec::new();
        let mut index: usize = 0;
        while index < digits.len()
            invariant
                index <= digits@.len(),
                digits@.len() == spec_digits.len(),
                forall|i: int| 0 <= i < digits@.len() ==> digits@[i] as nat == #[trigger] spec_digits[i],
                forall|i: int| 0 <= i < spec_digits.len() ==> #[trigger] spec_digits[i] < 36,
                characters@.len() == index,
                forall|i: int| 0 <= i < index ==> #[trigger] characters@[i] == code_character(spec_digits[i]),
            decreases digits@.len() - index,
        {
            let digit = digits[index];
            assert(spec_digits[index as int] < 36);
            characters.push(Self::digit_character(digit as u8));
            index = index + 1;
        }
        proof {
            assert(characters@ =~= spec_digits.map_values(|digit: nat| code_character(digit)));
        }
        string_from_chars(&characters)
    }

    /// The identity picked by one random draw: the draw reduced into the range.
    pub fn identity_from_random_value(&self, random: u64) -> (code: String)
        requires
            self.value_count >= 1,
            self.first_value + self.value_count <= u64::MAX,
        ensures
            code@ == knowledge_code((self.first_value + random % self.value_count) as nat),
    {
        let offset = random % self.value_count;
        Self::code_from_value(self.first_value + offset)
    }

    /// The identity one draw of random bytes gives: the bytes, read most
    /// significant first, reduced into the range; a failed draw gives none.
    pub fn identity_from_draw(&self, draw: Result<[u8; 8], getrandom::Error>) -> (identity: Result<String, ()>)
        requires
            self.value_count >= 1,
            self.first_value + self.value_count <= u64::MAX,
        ensures
            match draw {
                Ok(bytes) => identity matches Ok(code) && code@ == knowledge_code(
                    (self.first_value + big_endian_value(bytes@) % (self.value_count as nat)) as nat,
                ),
                Err(_) => identity == Err::<String, ()>(()),
            },
    {
        match draw {
            Ok(bytes) => {
                let random = big_endian_u64(&bytes);
                Ok(self.identity_from_random_value(random))
            },
            Err(_) => Err(()),
        }
    }

    /// One random identity in this range.
    pub fn random_identity(&self) -> (identity: Result<String, ()>)
        requires
            self.value_count >= 1,
            self.first_value + self.value_count <= u64::MAX,
        ensures
            identity matches Ok(code) ==> exists|offset: nat|
                offset < self.value_count && code@ == #[trigger] knowledge_code(
                    (self.first_value + offset) as nat,
                ),
    {
        let draw = random_eight_bytes();
        let identity = self.identity_from_draw(draw);
        proof {
            if let Ok(bytes) = draw {
                let offset = big_endian_value(bytes@) % (self.value_count as nat);
                assert(identity matches Ok(code) && code@ == knowledge_code((self.first_value + offset) as nat));
            }
        }
        identity
    }

    /// The first code in this range that is not used yet.
    pub fn first_available_identity(&self, used: &Vec<String>) -> (identity: Option<String>)
        requires
            self.first_value + self.value_count <= u64::MAX,
        ensures
            match first_unused_value(used@, self.first_value as nat, (self.first_value + self.value_count) as nat) {
                Some(value) => identity matches Some(code) && code@ == knowledge_code(value),
                None => identity is None,
            },
    {
        let last_value = self.first_value + self.value_count;
        let mut value = self.first_value;
        while value < last_value
            invariant
                self.first_value <= value <= last_value,
                last_value == self.first_value + self.value_count,
                first_unused_value(used@, self.first_value as nat, last_value as nat) == first_unused_value(
                    used@,
                    value as nat,
                    last_value as nat,
                ),
            decreases last_value - value,
        {
            let code = Self::code_from_value(value);
            if !contains_identity(used, &code) {
                return Some(code);
            }
            value = value + 1;
        }
        None
    }
}

/// The least value in `[first, end)` whose code is not used yet.
pub open spec fn first_unused_value(used: Seq<String>, first: nat, end: nat) -> Option<nat>
    decreases end - first,
{
    if first >= end {
        None
    } else if !identity_used(used, knowledge_code(first)) {
        Some(first)
    } else {
        first_unused_value(used, first + 1, end)
    }
}

/// The least unused value is unused and in range, and everything below it is
/// used; with none, every value of the range is used.
pub proof fn lemma_first_unused_value(used: Seq<String>, first: nat, end: nat)
    ensures
        first_unused_value(used, first, end) matches Some(value) ==> first <= value < end
            && !identity_used(used, knowledge_code(value)) && forall|earlier: nat|
            first <= earlier < value ==> identity_used(used, #[trigger] knowledge_code(earlier)),
        first_unused_value(used, first, end) is None ==> forall|value: nat|
            first <= value < end ==> identity_used(used, #[trigger] knowledge_code(value)),
    decreases end - first,
{
    if first < end && identity_used(used, knowledge_code(first)) {
        lemma_first_unused_value(used, first + 1, end);
        assert forall|value: nat| first <= value < first + 1 implies identity_used(
            used,
            #[trigger] knowledge_code(value),
        ) by {
            assert(value == first);
        }
    }
}

/// The code one successful draw picks among the codes of `code_length`
/// characters.
pub open spec fn drawn_code(code_length: nat, bytes: Seq<u8>) -> Seq<char> {
    knowledge_code(
        (code_range_first(code_length) + big_endian_value(bytes) % code_range_count(code_length)) as nat,
    )
}

/// What minting a code of `code_length` characters gives when the random
/// source answers `draws`, from the draw at `from` on: a failed draw is an
/// error; the first drawn code not in use is the identity; once the draws
/// run out, or after as many draws as the attempts allow, the least unused
/// code of that length, or none when every one is used.
pub open spec fn minted_from_draws(
    used: Seq<String>,
    code_length: nat,
    draws: Seq<Result<[u8; 8], getrandom::Error>>,
    from: nat,
) -> Result<Option<Seq<char>>, ()>
    decreases draws.len() - from,
{
    if from >= draws.len() || from >= RANDOM_IDENTITY_ATTEMPTS_PER_LENGTH {
        match first_unused_value(used, code_range_first(code_length), code_radix_power(code_length)) {
            Some(value) => Ok(Some(knowledge_code(value))),
            None => Ok(None),
        }
    } else {
        match draws[from as int] {
            Err(_) => Err(()),
            Ok(bytes) => if !identity_used(used, drawn_code(code_length, bytes@)) {
                Ok(Some(drawn_code(code_length, bytes@)))
            } else {
                minted_from_draws(used, code_length, draws, from + 1)
            },
        }
    }
}

/// What minting gives across the code lengths from `code_length` to seven,
/// `draw_sets[k]` being the draws made for length `4 + k`: an error as soon as
/// one length fails, the first identity found, and an error once every
/// length is full.
pub open spec fn next_identity_from_draws(
    used: Seq<String>,
    draw_sets: Seq<Seq<Result<[u8; 8], getrandom::Error>>>,
    code_length: nat,
) -> Result<Seq<char>, ()>
    decreases 8 - code_length,
{
    if code_length < 4 || code_length > 7 {
        Err(())
    } else {
        match minted_from_draws(used, code_length, draw_sets[code_length - 4], 0) {
            Err(()) => Err(()),
            Ok(Some(code)) => Ok(code),
            Ok(None) => next_identity_from_draws(used, draw_sets, code_length + 1),
        }
    }
}

/// An identity minted for one length, taken by its text.
pub open spec fn minted_text(identity: Result<Option<String>, ()>) -> Result<Option<Seq<char>>, ()> {
    match identity {
        Ok(Some(code)) => Ok(Some(code@)),
        Ok(None) => Ok(None),
        Err(()) => Err(()),
    }
}

/// An identity minted over all lengths, taken by its text.
pub open spec fn next_identity_text(identity: Result<String, ()>) -> Result<Seq<char>, ()> {
    match identity {
        Ok(code) => Ok(code@),
        Err(()) => Err(()),
    }
}

/// Whether every draw in `draws` succeeded.
pub open spec fn draws_all_succeed(draws: Seq<Result<[u8; 8], getrandom::Error>>) -> bool {
    forall|i: int| 0 <= i < draws.len() ==> #[trigger] draws[i] is Ok
}

/// What minting one length gives: a fresh code of that length, or none when
/// all are used; an error only where a draw failed.
pub proof fn lemma_minted_from_draws(
    used: Seq<String>,
    code_length: nat,
    draws: Seq<Result<[u8; 8], getrandom::Error>>,
    from: nat,
)
    requires
        4 <= code_length <= 7,
    ensures
        minted_from_draws(used, code_length, draws, from) matches Ok(Some(code)) ==> !identity_used(used, code)
            && exists|value: nat|
            code_range_first(code_length) <= value < code_radix_power(code_length) && code
                == #[trigger] knowledge_code(value),
        minted_from_draws(used, code_length, draws, from) == Ok::<Option<Seq<char>>, ()>(None) ==> forall|value: nat|
            code_range_first(code_length) <= value < code_radix_power(code_length) ==> identity_used(
                used,
                #[trigger] knowledge_code(value),
            ),
        draws_all_succeed(draws) ==> minted_from_draws(used, code_length, draws, from) is Ok,
    decreases draws.len() - from,
{
    lemma_code_radix_power_bounds(code_length);
    lemma_code_radix_power_monotone((code_length - 1) as nat, code_length);
    lemma_first_unused_value(used, code_range_first(code_length), code_radix_power(code_length));
    if from < draws.len() && from < RANDOM_IDENTITY_ATTEMPTS_PER_LENGTH {
        if draws_all_succeed(draws) {
            assert(draws[from as int] is Ok);
        }
        match draws[from as int] {
            Err(_) => {},
            Ok(bytes) => {
                let value = (code_range_first(code_length) + big_endian_value(bytes@) % code_range_count(
                    code_length,
                )) as nat;
                assert(code_range_first(code_length) <= value < code_radix_power(code_length));
                assert(drawn_code(code_length, bytes@) == knowledge_code(value));
                lemma_minted_from_draws(used, code_length, draws, from + 1);
            },
        }
    }
}

/// The identity codes already in use, collected from the accepted records.
#[derive(Debug)]
pub struct KnowledgeIdentityMint {
    pub used_identities: Vec<String>,
}

/// Whether `text` is an identity code of four to seven characters.
pub open spec fn is_knowledge_identity(text: Seq<char>) -> bool {
    exists|value: nat| value < code_radix_power(7) && text == #[trigger] knowledge_code(value)
}

impl KnowledgeIdentityMint {
    pub fn from_identities(used_identities: Vec<String>) -> (mint: Self)
        ensures
            mint.used_identities == used_identities,
    {
        Self { used_identities }
    }

    /// The identity for the given code length that the random source's
    /// answers `draws` give (see `minted_from_draws`).
    pub fn identity_for_draws(
        &self,
        code_length: usize,
        draws: &Vec<Result<[u8; 8], getrandom::Error>>,
    ) -> (identity: Result<Option<String>, ()>)
        requires
            4 <= code_length <= 7,
        ensures
            minted_text(identity) == minted_from_draws(self.used_identities@, code_length as nat, draws@, 0),
    {
        let range = KnowledgeIdentityCodeRange::new(code_length);
        proof {
            lemma_code_radix_power_bounds(code_length as nat);
            lemma_code_radix_power_monotone((code_length - 1) as nat, code_length as nat);
        }
        let ghost used = self.used_identities@;
        let mut index: usize = 0;
        while index < draws.len() && index < RANDOM_IDENTITY_ATTEMPTS_PER_LENGTH
            invariant
                4 <= code_length <= 7,
                used == self.used_identities@,
                range.first_value == code_range_first(code_length as nat),
                range.value_count == code_range_count(code_length as nat),
                range.value_count >= 1,
                range.first_value + range.value_count == code_radix_power(code_length as nat),
                code_radix_power(code_length as nat) <= 4738381338321616896,
                index <= draws@.len(),
                minted_from_draws(used, code_length as nat, draws@, 0) == minted_from_draws(
                    used,
                    code_length as nat,
                    draws@,
                    index as nat,
                ),
            decreases draws@.len() - index,
        {
            match &draws[index] {
                Ok(bytes) => {
                    let code = range.identity_from_random_value(big_endian_u64(bytes));
                    assert(code@ == drawn_code(code_length as nat, bytes@));
                    if !contains_identity(&self.used_identities, &code) {
                        return Ok(Some(code));
                    }
                },
                Err(_) => {
                    return Err(());
                },
            }
            index = index + 1;
        }
        Ok(range.first_available_identity(&self.used_identities))
    }

    /// A fresh identity for the given code length: random draws first, then
    /// the first unused code of that length.  The draws are made one by one
    /// until one fails, one gives an unused code, or the attempts run out;
    /// what they give is then `identity_for_draws` of them.
    pub fn identity_for_code_length(&self, code_length: usize) -> (identity: Result<Option<String>, ()>)
        requires
            4 <= code_length <= 7,
        ensures
            exists|draws: Seq<Result<[u8; 8], getrandom::Error>>|
                draws.len() <= RANDOM_IDENTITY_ATTEMPTS_PER_LENGTH && minted_text(identity)
                    == #[trigger] minted_from_draws(self.used_identities@, code_length as nat, draws, 0),
            identity matches Ok(Some(code)) ==> !identity_used(self.used_identities@, code@)
                && exists|value: nat|
                code_range_first(code_length as nat) <= value < code_radix_power(code_length as nat)
                    && code@ == #[trigger] knowledge_code(value),
            identity matches Ok(None) ==> forall|value: nat|
                code_range_first(code_length as nat) <= value < code_radix_power(code_length as nat)
                    ==> identity_used(self.used_identities@, #[trigger] knowledge_code(value)),
            identity matches Ok(Some(code)) ==> code@.len() == code_length,
    {
        let range = KnowledgeIdentityCodeRange::new(code_length);
        proof {
            lemma_code_radix_power_bounds(code_length as nat);
            lemma_code_radix_power_monotone((code_length - 1) as nat, code_length as nat);
        }
        let mut draws: Vec<Result<[u8; 8], getrandom::Error>> = Vec::new();
        while draws.len() < RANDOM_IDENTITY_ATTEMPTS_PER_LENGTH
            invariant
                range.first_value == code_range_first(code_length as nat),
                range.value_count == code_range_count(code_length as nat),
                range.value_count >= 1,
                range.first_value + range.value_count == code_radix_power(code_length as nat),
                code_radix_power(code_length as nat) <= 4738381338321616896,
                draws@.len() <= RANDOM_IDENTITY_ATTEMPTS_PER_LENGTH,
            decreases RANDOM_IDENTITY_ATTEMPTS_PER_LENGTH - draws@.len(),
        {
            let draw = random_eight_bytes();
            let keep_drawing = match &draw {
                Ok(bytes) => {
                    let code = range.identity_from_random_value(big_endian_u64(bytes));
                    contains_identity(&self.used_identities, &code)
                },
                Err(_) => false,
            };
            draws.push(draw);
            if !keep_drawing {
                break;
            }
        }
        let identity = self.identity_for_draws(code_length, &draws);
        proof {
            lemma_minted_from_draws(self.used_identities@, code_length as nat, draws@, 0);
            if let Ok(Some(code)) = &identity {
                let value = choose|value: nat|
                    code_range_first(code_length as nat) <= value < code_radix_power(code_length as nat)
                        && code@ == #[trigger] knowledge_code(value);
                lemma_code_range_length(code_length as nat, value);
            }
        }
        identity
    }

    /// A fresh identity: the shortest code length that still has an unused
    /// code is tried first.  Fails when randomness is unavailable or every code
    /// of four to seven characters is taken.
    pub fn next_identity(&self) -> (identity: Result<String, ()>)
        ensures
            exists|draw_sets: Seq<Seq<Result<[u8; 8], getrandom::Error>>>|
                draw_sets.len() == 4 && next_identity_text(identity) == #[trigger] next_identity_from_draws(
                    self.used_identities@,
                    draw_sets,
                    4,
                ),
            identity matches Ok(code) ==> !identity_used(self.used_identities@, code@)
                && is_knowledge_identity(code@),
            identity matches Ok(code) ==> exists|length: nat, value: nat|
                #![trigger code_radix_power(length), knowledge_code(value)]
                4 <= length <= 7 && code_range_first(length) <= value < code_radix_power(length)
                    && code@ == knowledge_code(value) && forall|shorter: nat|
                    shorter < code_range_first(length) ==> identity_used(
                        self.used_identities@,
                        #[trigger] knowledge_code(shorter),
                    ),
            (forall|value: nat|
                value < code_radix_power(7) ==> identity_used(self.used_identities@, #[trigger] knowledge_code(value)))
                ==> identity is Err,
    {
        let ghost used = self.used_identities@;
        let ghost mut sets: Seq<Seq<Result<[u8; 8], getrandom::Error>>> = Seq::empty();
        let mut code_length: usize = KNOWLEDGE_IDENTITY_MINIMUM_CODE_LENGTH;
        while code_length <= KNOWLEDGE_IDENTITY_MAXIMUM_CODE_LENGTH
            invariant
                4 <= code_length <= 8,
                used == self.used_identities@,
                sets.len() == code_length - 4,
                forall|shorter: nat|
                    shorter < code_range_first(code_length as nat) ==> identity_used(
                        self.used_identities@,
                        #[trigger] knowledge_code(shorter),
                    ),
                forall|all: Seq<Seq<Result<[u8; 8], getrandom::Error>>>|
                    all.len() == 4 && all.subrange(0, code_length - 4) == sets ==> next_identity_from_draws(
                        used,
                        all,
                        4,
                    ) == #[trigger] next_identity_from_draws(used, all, code_length as nat),
            decreases 8 - code_length,
        {
            let found = self.identity_for_code_length(code_length);
            let ghost draws = choose|draws: Seq<Result<[u8; 8], getrandom::Error>>|
                draws.len() <= RANDOM_IDENTITY_ATTEMPTS_PER_LENGTH && minted_text(found)
                    == #[trigger] minted_from_draws(used, code_length as nat, draws, 0);
            let ghost padded = sets.push(draws) + Seq::new(
                (7 - code_length) as nat,
                |i: int| Seq::<Result<[u8; 8], getrandom::Error>>::empty(),
            );
            proof {
                assert(padded.len() == 4);
                assert(padded.subrange(0, code_length - 4) =~= sets);
                assert(padded[code_length - 4] == draws);
                assert(next_identity_from_draws(used, padded, 4) == next_identity_from_draws(
                    used,
                    padded,
                    code_length as nat,
                ));
            }
            match found {
                Ok(Some(code)) => {
                    proof {
                        lemma_code_radix_power_monotone(code_length as nat, 7);
                        let value = choose|value: nat|
                            code_range_first(code_length as nat) <= value < code_radix_power(
                                code_length as nat,
                            ) && code@ == #[trigger] knowledge_code(value);
                        assert(value < code_radix_power(7));
                        assert(code_range_first(code_length as nat) <= value < code_radix_power(code_length as nat)
                            && code@ == knowledge_code(value));
                        assert(next_identity_text(Ok(code)) == next_identity_from_draws(used, padded, 4));
                    }
                    return Ok(code);
                },
                Ok(None) => {
                    proof {
                        assert forall|shorter: nat|
                            shorter < code_range_first((code_length + 1) as nat) implies identity_used(
                            self.used_identities@,
                            #[trigger] knowledge_code(shorter),
                        ) by {
                            if shorter >= code_range_first(code_length as nat) {
                                assert(shorter < code_radix_power(code_length as nat));
                            }
                        }
                        let next_sets = sets.push(draws);
                        assert forall|all: Seq<Seq<Result<[u8; 8], getrandom::Error>>>|
                            all.len() == 4 && all.subrange(0, code_length + 1 - 4) == next_sets implies next_identity_from_draws(
                            used,
                            all,
                            4,
                        ) == #[trigger] next_identity_from_draws(used, all, (code_length + 1) as nat) by {
                            assert(all.subrange(0, code_length - 4) =~= sets);
                            assert(all[code_length - 4] == all.subrange(0, code_length + 1 - 4)[code_length - 4]);
                            assert(all[code_length - 4] == draws);
                            assert(next_identity_from_draws(used, all, 4) == next_identity_from_draws(
                                used,
                                all,
                                code_length as nat,
                            ));
                        }
                        sets = next_sets;
                    }
                },
                Err(()) => {
                    proof {
                        assert(next_identity_text(Err(())) == next_identity_from_draws(used, padded, 4));
                    }
                    return Err(());
                },
            }
            code_length = code_length + 1;
        }
        proof {
            assert(sets.subrange(0, 4) =~= sets);
            assert(next_identity_from_draws(used, sets, 4) == next_identity_from_draws(used, sets, 8));
        }
        Err(())
    }
}

/// Minting from length `code_length` on, with every draw successful, fails
/// exactly when every code from that length up to seven characters is used.
proof fn lemma_next_identity_fails_only_when_full(
    used: Seq<String>,
    draw_sets: Seq<Seq<Result<[u8; 8], getrandom::Error>>>,
    code_length: nat,
)
    requires
        4 <= code_length <= 8,
        draw_sets.len() == 4,
        forall|k: int| 0 <= k < 4 ==> draws_all_succeed(#[trigger] draw_sets[k]),
    ensures
        next_identity_from_draws(used, draw_sets, code_length) is Err <==> forall|value: nat|
            code_range_first(code_length) <= value < code_radix_power(7) ==> identity_used(
                used,
                #[trigger] knowledge_code(value),
            ),
    decreases 8 - code_length,
{
    if code_length <= 7 {
        let draws = draw_sets[code_length - 4];
        assert(draws_all_succeed(draws));
        lemma_minted_from_draws(used, code_length, draws, 0);
        lemma_code_radix_power_monotone(code_length, 7);
        lemma_next_identity_fails_only_when_full(used, draw_sets, code_length + 1);
        match minted_from_draws(used, code_length, draws, 0) {
            Ok(Some(code)) => {
                let value = choose|value: nat|
                    code_range_first(code_length) <= value < code_radix_power(code_length) && code
                        == #[trigger] knowledge_code(value);
                assert(!identity_used(used, knowledge_code(value)));
            },
            Ok(None) => {
                assert(code_range_first(code_length + 1) == code_radix_power(code_length));
                assert forall|value: nat|
                    code_range_first(code_length) <= value < code_radix_power(7) && forall|later: nat|
                        code_range_first(code_length + 1) <= later < code_radix_power(7) ==> identity_used(
                            used,
                            #[trigger] knowledge_code(later),
                        ) implies identity_used(used, #[trigger] knowledge_code(value)) by {
                    if value >= code_radix_power(code_length) {
                        assert(identity_used(used, knowledge_code(value)));
                    }
                }
            },
            Err(()) => {},
        }
    } else {
        assert(code_range_first(8) == code_radix_power(7));
    }
}

/// With a random source that answers every draw, minting an identity fails
/// exactly when every code of four to seven characters is already used.
pub proof fn law_minting_fails_only_when_codes_run_out(
    used: Seq<String>,
    draw_sets: Seq<Seq<Result<[u8; 8], getrandom::Error>>>,
)
    requires
        draw_sets.len() == 4,
        forall|k: int| 0 <= k < 4 ==> draws_all_succeed(#[trigger] draw_sets[k]),
    ensures
        next_identity_from_draws(used, draw_sets, 4) is Err <==> forall|value: nat|
            value < code_radix_power(7) ==> identity_used(used, #[trigger] knowledge_code(value)),
{
    lemma_next_identity_fails_only_when_full(used, draw_sets, 4);
}

/// The number that eight bytes denote, most significant byte first.
pub open spec fn big_endian_value(bytes: Seq<u8>) -> nat
    decreases bytes.len(),
{
    if bytes.len() == 0 {
        0
    } else {
        (big_endian_value(bytes.drop_last()) * 256 + bytes.last()) as nat
    }
}

/// `u64::from_be_bytes`, computed.
pub fn big_endian_u64(bytes: &[u8; 8]) -> (value: u64)
    ensures
        value as nat == big_endian_value(bytes@),
{
    let mut value: u64 = 0;
    let mut index: usize = 0;
    proof {
        vstd::arithmetic::power::lemma_pow0(256);
    }
    while index < 8
        invariant
            index <= 8,
            bytes@.len() == 8,
            value as nat == big_endian_value(bytes@.subrange(0, index as int)),
            value < vstd::arithmetic::power::pow(256, index as nat),
        decreases 8 - index,
    {
        proof {
            assert(bytes@.subrange(0, index + 1).drop_last() =~= bytes@.subrange(0, index as int));
            vstd::arithmetic::power::lemma_pow_adds(256, index as nat, 1);
            vstd::arithmetic::power::lemma_pow1(256);
            reveal_with_fuel(vstd::arithmetic::power::pow, 9);
            assert(vstd::arithmetic::power::pow(256, 8) == 18446744073709551616);
            vstd::arithmetic::power::lemma_pow_increases(256, (index + 1) as nat, 8);
            let p = vstd::arithmetic::power::pow(256, index as nat);
            assert(value * 256 + 255 < p * 256) by (nonlinear_arith)
                requires
                    value < p,
            ;
        }
        value = value * 256 + bytes[index] as u64;
        index = index + 1;
    }
    proof {
        assert(bytes@.subrange(0, 8) =~= bytes@);
    }
    value
}

/// Eight random bytes from the operating system.
///
/// Trusted: calls `getrandom::fill` on an eight-byte buffer.  Nothing is
/// claimed of the bytes: they come from the system's random source.
#[verifier::external_body]
fn random_eight_bytes() -> (bytes: Result<[u8; 8], getrandom::Error>) {
    let mut bytes = [0_u8; 8];
    match getrandom::fill(&mut bytes) {
        Ok(()) => Ok(bytes),
        Err(error) => Err(error),
    }
}

#[verifier::external_type_specification]
#[verifier::external_body]
pub struct ExRandomError(getrandom::Error);

} // verus!
