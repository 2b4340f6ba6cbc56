//! NOTA blocks as the configuration writer reads them.
//!
//! A block is an atom (a bare word, path or number) or a delimited list of
//! blocks.  Records are parenthesised lists whose first entry names the
//! record; a reader checks the delimiter and the entries before it builds a
//! value.

use vstd::prelude::*;

use crate::decimal::{parse_decimal, parsed_decimal};
use crate::text::NotaDecodeError;

verus! {

#[derive(Debug, Clone, Copy, PartialEq, Eq, Structural)]
pub enum NotaDelimiter {
    Parenthesis,
    Bracket,
    Brace,
}

#[derive(Debug)]
pub enum NotaBlock {
    Atom(String),
    Delimited(NotaDelimiter, Vec<NotaBlock>),
}

/// The text of an atom.
pub open spec fn atom_text(block: NotaBlock) -> Option<String> {
    match block {
        NotaBlock::Atom(text) => Some(text),
        _ => None,
    }
}

/// The entries of a parenthesised list.
pub open spec fn record_entries(block: NotaBlock) -> Option<Seq<NotaBlock>> {
    match block {
        NotaBlock::Delimited(NotaDelimiter::Parenthesis, entries) => Some(entries@),
        _ => None,
    }
}

/// What reading a text field from `block` gives.
pub open spec fn decoded_text(block: NotaBlock, kind_name: &'static str) -> Result<String, NotaDecodeError> {
    match atom_text(block) {
        Some(text) => Ok(text),
        None => Err(NotaDecodeError::ExpectedAtom { kind_name }),
    }
}

/// What reading a count from `block` gives.
pub open spec fn decoded_count(block: NotaBlock, kind_name: &'static str) -> Result<u64, NotaDecodeError> {
    match atom_text(block) {
        Some(text) => match parsed_decimal(text@) {
            Some(value) => Ok(value),
            None => Err(NotaDecodeError::InvalidNumber { kind_name }),
        },
        None => Err(NotaDecodeError::ExpectedAtom { kind_name }),
    }
}

impl NotaBlock {
    /// The text of an atom; a list has none.
    pub fn demote_to_string(&self) -> (text: Option<&String>)
        ensures
            match atom_text(*self) {
                Some(t) => text matches Some(s) && *s == t,
                None => text is None,
            },
    {
        match self {
            NotaBlock::Atom(text) => Some(text),
            NotaBlock::Delimited(_, _) => None,
        }
    }

    /// The entries of a record named `kind_name`: the block must be a
    /// parenthesised list.
    pub fn expect_record(&self, kind_name: &'static str) -> (entries: Result<&Vec<NotaBlock>, NotaDecodeError>)
        ensures
            match record_entries(*self) {
                Some(e) => entries matches Ok(found) && found@ == e,
                None => entries == Err::<&Vec<NotaBlock>, NotaDecodeError>(NotaDecodeError::ExpectedRecord { kind_name }),
            },
    {
        match self {
            NotaBlock::Delimited(NotaDelimiter::Parenthesis, entries) => Ok(entries),
            _ => Err(NotaDecodeError::ExpectedRecord { kind_name }),
        }
    }

    /// Reads a text field.
    pub fn decode_text(&self, kind_name: &'static str) -> (text: Result<String, NotaDecodeError>)
        ensures
            text == decoded_text(*self, kind_name),
    {
        match self {
            NotaBlock::Atom(text) => Ok(text.clone()),
            NotaBlock::Delimited(_, _) => Err(NotaDecodeError::ExpectedAtom { kind_name }),
        }
    }

    /// Reads a count written in decimal.
    pub fn decode_count(&self, kind_name: &'static str) -> (count: Result<u64, NotaDecodeError>)
        ensures
            count == decoded_count(*self, kind_name),
    {
        match self {
            NotaBlock::Atom(text) => match parse_decimal(text.as_str()) {
                Some(value) => Ok(value),
                None => Err(NotaDecodeError::InvalidNumber { kind_name }),
            },
            NotaBlock::Delimited(_, _) => Err(NotaDecodeError::ExpectedAtom { kind_name }),
        }
    }
}

} // verus!
