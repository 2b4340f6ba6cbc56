//! Reading and writing mind's NOTA text forms as blocks.
//!
//! A bare enum is an atom holding its variant name.  A variant record is a
//! parenthesised list: the variant name, then its fields in declaration order.
//! A reader takes the head first, rejects an unknown head, then checks the
//! number of fields, then reads each field.  Writing a value and reading the
//! block back gives the same value.

use vstd::prelude::*;

use crate::decimal::{decimal_text, lemma_decimal_text_reads_back, parse_decimal, parsed_decimal, write_decimal};
use crate::nota_block::{atom_text, decoded_text, record_entries, NotaBlock, NotaDelimiter};
use crate::text::{
    edge_kind_name, edge_kind_named, item_kind_name, item_kind_named, item_status_name, item_status_named,
    lemma_bare_enum_names_round_trip, Alias, BeadsTask, ByAlias, ByItem, ByKind, ByStatus, Blocked, Display, EdgeKindText,
    EdgeTargetText, File, GitCommit, ItemKindText, ItemReferenceTarget, ItemReferenceText, ItemStatusText, ItemTarget,
    AliasAssignment, Link, LinkTargetText, MindTextRequest, NotaDecodeError, NoteSubmission, Open, Opening, Query,
    QueryKindText, Ready, RecentEvents, Report, Stable, StatusChange, TextOptionalString,
};
use crate::text_build::str_equal;

verus! {

/// The record heads' lengths and first letters, which tell them apart.
pub proof fn lemma_record_heads()
    ensures
        "Stable"@.len() == 6 && "Stable"@[0] == 'S' && "Stable"@[1] == 't' && "Stable"@[2] == 'a',
        "Display"@.len() == 7 && "Display"@[0] == 'D' && "Display"@[1] == 'i' && "Display"@[2] == 's',
        "Alias"@.len() == 5 && "Alias"@[0] == 'A' && "Alias"@[1] == 'l' && "Alias"@[2] == 'i',
        "ItemReferenceTarget"@.len() == 19 && "ItemReferenceTarget"@[0] == 'I' && "ItemReferenceTarget"@[1] == 't' && "ItemReferenceTarget"@[2] == 'e',
        "Report"@.len() == 6 && "Report"@[0] == 'R' && "Report"@[1] == 'e' && "Report"@[2] == 'p',
        "GitCommit"@.len() == 9 && "GitCommit"@[0] == 'G' && "GitCommit"@[1] == 'i' && "GitCommit"@[2] == 't',
        "BeadsTask"@.len() == 9 && "BeadsTask"@[0] == 'B' && "BeadsTask"@[1] == 'e' && "BeadsTask"@[2] == 'a',
        "File"@.len() == 4 && "File"@[0] == 'F' && "File"@[1] == 'i' && "File"@[2] == 'l',
        "ItemTarget"@.len() == 10 && "ItemTarget"@[0] == 'I' && "ItemTarget"@[1] == 't' && "ItemTarget"@[2] == 'e',
        "Ready"@.len() == 5 && "Ready"@[0] == 'R' && "Ready"@[1] == 'e' && "Ready"@[2] == 'a',
        "Blocked"@.len() == 7 && "Blocked"@[0] == 'B' && "Blocked"@[1] == 'l' && "Blocked"@[2] == 'o',
        "Open"@.len() == 4 && "Open"@[0] == 'O' && "Open"@[1] == 'p' && "Open"@[2] == 'e',
        "RecentEvents"@.len() == 12 && "RecentEvents"@[0] == 'R' && "RecentEvents"@[1] == 'e' && "RecentEvents"@[2] == 'c',
        "ByItem"@.len() == 6 && "ByItem"@[0] == 'B' && "ByItem"@[1] == 'y' && "ByItem"@[2] == 'I',
        "ByKind"@.len() == 6 && "ByKind"@[0] == 'B' && "ByKind"@[1] == 'y' && "ByKind"@[2] == 'K',
        "ByStatus"@.len() == 8 && "ByStatus"@[0] == 'B' && "ByStatus"@[1] == 'y' && "ByStatus"@[2] == 'S',
        "ByAlias"@.len() == 7 && "ByAlias"@[0] == 'B' && "ByAlias"@[1] == 'y' && "ByAlias"@[2] == 'A',
        "None"@.len() == 4 && "None"@[0] == 'N' && "None"@[1] == 'o' && "None"@[2] == 'n',
        "String"@.len() == 6 && "String"@[0] == 'S' && "String"@[1] == 't' && "String"@[2] == 'r',
        "variant head"@.len() == 12 && "variant head"@[0] == 'v' && "variant head"@[1] == 'a' && "variant head"@[2] == 'r',
        "NoteSubmission"@.len() == 14 && "NoteSubmission"@[0] == 'N' && "NoteSubmission"@[1] == 'o' && "NoteSubmission"@[2] == 't',
        "Link"@.len() == 4 && "Link"@[0] == 'L' && "Link"@[1] == 'i' && "Link"@[2] == 'n',
        "StatusChange"@.len() == 12 && "StatusChange"@[0] == 'S' && "StatusChange"@[1] == 't' && "StatusChange"@[2] == 'a',
        "AliasAssignment"@.len() == 15 && "AliasAssignment"@[0] == 'A' && "AliasAssignment"@[1] == 'l' && "AliasAssignment"@[2] == 'i',
        "MindTextRequest"@.len() == 15 && "MindTextRequest"@[0] == 'M' && "MindTextRequest"@[1] == 'i' && "MindTextRequest"@[2] == 'n',
        "Opening"@.len() == 7 && "Opening"@[0] == 'O' && "Opening"@[1] == 'p' && "Opening"@[2] == 'e',
        "Query"@.len() == 5 && "Query"@[0] == 'Q' && "Query"@[1] == 'u' && "Query"@[2] == 'e',
{
    reveal_strlit("Stable");
    reveal_strlit("Display");
    reveal_strlit("Alias");
    reveal_strlit("ItemReferenceTarget");
    reveal_strlit("Report");
    reveal_strlit("GitCommit");
    reveal_strlit("BeadsTask");
    reveal_strlit("File");
    reveal_strlit("ItemTarget");
    reveal_strlit("Ready");
    reveal_strlit("Blocked");
    reveal_strlit("Open");
    reveal_strlit("RecentEvents");
    reveal_strlit("ByItem");
    reveal_strlit("ByKind");
    reveal_strlit("ByStatus");
    reveal_strlit("ByAlias");
    reveal_strlit("None");
    reveal_strlit("String");
    reveal_strlit("variant head");
    reveal_strlit("NoteSubmission");
    reveal_strlit("Link");
    reveal_strlit("StatusChange");
    reveal_strlit("AliasAssignment");
    reveal_strlit("MindTextRequest");
    reveal_strlit("Opening");
    reveal_strlit("Query");
}

/// The head of the variant record `block`.
pub open spec fn record_head(block: NotaBlock, enum_name: &'static str) -> Result<String, NotaDecodeError> {
    match record_entries(block) {
        None => Err(NotaDecodeError::ExpectedRecord { kind_name: enum_name }),
        Some(children) => if children.len() == 0 {
            Err(NotaDecodeError::ExpectedRootCount { kind_name: enum_name, expected: 1, found: 0 })
        } else {
            match atom_text(children[0]) {
                Some(head) => Ok(head),
                None => Err(NotaDecodeError::ExpectedAtom { kind_name: "variant head" }),
            }
        },
    }
}

/// The fields of a variant record: its entries after the head.
pub open spec fn record_fields(block: NotaBlock) -> Seq<NotaBlock> {
    match record_entries(block) {
        Some(children) => children.drop_first(),
        None => Seq::empty(),
    }
}

/// The error for a record whose field count is not the one its head needs.
pub open spec fn field_count_error(enum_name: &'static str, fields: Seq<NotaBlock>, expected: usize) -> NotaDecodeError {
    NotaDecodeError::ExpectedRootCount { kind_name: enum_name, expected, found: fields.len() as usize }
}

/// Reads the head of a variant record; hands back the head and all entries.
fn variant_record<'a>(block: &'a NotaBlock, enum_name: &'static str) -> (record: Result<(&'a String, &'a Vec<NotaBlock>), NotaDecodeError>)
    ensures
        match record_head(*block, enum_name) {
            Ok(head) => record matches Ok((h, entries)) && *h == head && record_entries(*block) == Some(entries@)
                && entries@.len() >= 1,
            Err(error) => record matches Err(e) && e == error,
        },
{
    let entries = match block.expect_record(enum_name) {
        Ok(entries) => entries,
        Err(error) => return Err(error),
    };
    if entries.len() == 0 {
        return Err(NotaDecodeError::ExpectedRootCount { kind_name: enum_name, expected: 1, found: 0 });
    }
    match entries[0].demote_to_string() {
        Some(head) => Ok((head, entries)),
        None => Err(NotaDecodeError::ExpectedAtom { kind_name: "variant head" }),
    }
}

/// A variant record with the given fields.
fn record_of(head: &'static str, fields: Vec<NotaBlock>) -> (block: NotaBlock)
    ensures
        record_entries(block) is Some,
        record_entries(block).unwrap().len() == fields@.len() + 1,
        atom_text(record_entries(block).unwrap()[0]) matches Some(h) && h@ == head@,
        record_entries(block).unwrap().drop_first() == fields@,
{
    let mut entries: Vec<NotaBlock> = Vec::new();
    entries.push(NotaBlock::Atom(String::from_str(head)));
    let mut rest = fields;
    entries.append(&mut rest);
    proof {
        assert(entries@.drop_first() =~= fields@);
    }
    NotaBlock::Delimited(NotaDelimiter::Parenthesis, entries)
}

/// A variant record with one atom field.
fn record_with_text(head: &'static str, field: &String) -> (block: NotaBlock)
    ensures
        record_entries(block) is Some,
        record_entries(block).unwrap().len() == 2,
        atom_text(record_entries(block).unwrap()[0]) matches Some(h) && h@ == head@,
        record_entries(block).unwrap()[1] == NotaBlock::Atom(*field),
{
    let mut entries: Vec<NotaBlock> = Vec::new();
    entries.push(NotaBlock::Atom(String::from_str(head)));
    entries.push(NotaBlock::Atom(field.clone()));
    NotaBlock::Delimited(NotaDelimiter::Parenthesis, entries)
}

/// A variant record with one record field.
fn record_with_block(head: &'static str, field: NotaBlock) -> (block: NotaBlock)
    ensures
        record_entries(block) is Some,
        record_entries(block).unwrap().len() == 2,
        atom_text(record_entries(block).unwrap()[0]) matches Some(h) && h@ == head@,
        record_entries(block).unwrap()[1] == field,
{
    let mut entries: Vec<NotaBlock> = Vec::new();
    entries.push(NotaBlock::Atom(String::from_str(head)));
    entries.push(field);
    NotaBlock::Delimited(NotaDelimiter::Parenthesis, entries)
}

/// A variant record with no fields.
fn record_without_fields(head: &'static str) -> (block: NotaBlock)
    ensures
        record_entries(block) is Some,
        record_entries(block).unwrap().len() == 1,
        atom_text(record_entries(block).unwrap()[0]) matches Some(h) && h@ == head@,
{
    let mut entries: Vec<NotaBlock> = Vec::new();
    entries.push(NotaBlock::Atom(String::from_str(head)));
    NotaBlock::Delimited(NotaDelimiter::Parenthesis, entries)
}

// ---------------------------------------------------------------------------
// Bare enums.

pub open spec fn decoded_item_kind(block: NotaBlock) -> Result<ItemKindText, NotaDecodeError> {
    match atom_text(block) {
        None => Err(NotaDecodeError::ExpectedAtom { kind_name: "ItemKindText" }),
        Some(name) => match item_kind_named(name@) {
            Some(kind) => Ok(kind),
            None => Err(NotaDecodeError::UnknownVariant { enum_name: "ItemKindText", variant: name }),
        },
    }
}

pub open spec fn decoded_item_status(block: NotaBlock) -> Result<ItemStatusText, NotaDecodeError> {
    match atom_text(block) {
        None => Err(NotaDecodeError::ExpectedAtom { kind_name: "ItemStatusText" }),
        Some(name) => match item_status_named(name@) {
            Some(status) => Ok(status),
            None => Err(NotaDecodeError::UnknownVariant { enum_name: "ItemStatusText", variant: name }),
        },
    }
}

pub open spec fn decoded_edge_kind(block: NotaBlock) -> Result<EdgeKindText, NotaDecodeError> {
    match atom_text(block) {
        None => Err(NotaDecodeError::ExpectedAtom { kind_name: "EdgeKindText" }),
        Some(name) => match edge_kind_named(name@) {
            Some(kind) => Ok(kind),
            None => Err(NotaDecodeError::UnknownVariant { enum_name: "EdgeKindText", variant: name }),
        },
    }
}

impl ItemKindText {
    pub fn from_nota_block(block: &NotaBlock) -> (kind: Result<Self, NotaDecodeError>)
        ensures
            kind == decoded_item_kind(*block),
    {
        let name = match block.demote_to_string() {
            Some(name) => name,
            None => return Err(NotaDecodeError::ExpectedAtom { kind_name: "ItemKindText" }),
        };
        match Self::from_variant_name(name.as_str()) {
            Ok(kind) => Ok(kind),
            Err(_) => Err(NotaDecodeError::UnknownVariant { enum_name: "ItemKindText", variant: name.clone() }),
        }
    }

    /// The atom this kind is written as; it reads back as the same kind.
    pub fn to_nota_block(&self) -> (block: NotaBlock)
        ensures
            atom_text(block) matches Some(name) && name@ == item_kind_name(*self),
            decoded_item_kind(block) == Ok::<ItemKindText, NotaDecodeError>(*self),
    {
        proof {
            lemma_bare_enum_names_round_trip(*self, ItemStatusText::Open, EdgeKindText::DependsOn);
        }
        NotaBlock::Atom(String::from_str(self.to_nota()))
    }
}

impl ItemStatusText {
    pub fn from_nota_block(block: &NotaBlock) -> (status: Result<Self, NotaDecodeError>)
        ensures
            status == decoded_item_status(*block),
    {
        let name = match block.demote_to_string() {
            Some(name) => name,
            None => return Err(NotaDecodeError::ExpectedAtom { kind_name: "ItemStatusText" }),
        };
        match Self::from_variant_name(name.as_str()) {
            Ok(status) => Ok(status),
            Err(_) => Err(NotaDecodeError::UnknownVariant { enum_name: "ItemStatusText", variant: name.clone() }),
        }
    }

    /// The atom this status is written as; it reads back as the same status.
    pub fn to_nota_block(&self) -> (block: NotaBlock)
        ensures
            atom_text(block) matches Some(name) && name@ == item_status_name(*self),
            decoded_item_status(block) == Ok::<ItemStatusText, NotaDecodeError>(*self),
    {
        proof {
            lemma_bare_enum_names_round_trip(ItemKindText::Task, *self, EdgeKindText::DependsOn);
        }
        NotaBlock::Atom(String::from_str(self.to_nota()))
    }
}

impl EdgeKindText {
    pub fn from_nota_block(block: &NotaBlock) -> (kind: Result<Self, NotaDecodeError>)
        ensures
            kind == decoded_edge_kind(*block),
    {
        let name = match block.demote_to_string() {
            Some(name) => name,
            None => return Err(NotaDecodeError::ExpectedAtom { kind_name: "EdgeKindText" }),
        };
        match Self::from_variant_name(name.as_str()) {
            Ok(kind) => Ok(kind),
            Err(_) => Err(NotaDecodeError::UnknownVariant { enum_name: "EdgeKindText", variant: name.clone() }),
        }
    }

    /// The atom this kind is written as; it reads back as the same kind.
    pub fn to_nota_block(&self) -> (block: NotaBlock)
        ensures
            atom_text(block) matches Some(name) && name@ == edge_kind_name(*self),
            decoded_edge_kind(block) == Ok::<EdgeKindText, NotaDecodeError>(*self),
    {
        proof {
            lemma_bare_enum_names_round_trip(ItemKindText::Task, ItemStatusText::Open, *self);
        }
        NotaBlock::Atom(String::from_str(self.to_nota()))
    }
}


// ---------------------------------------------------------------------------
// Item references.

pub open spec fn is_item_reference_head(head: Seq<char>) -> bool {
    head == "Stable"@ || head == "Display"@ || head == "Alias"@
}

pub open spec fn decoded_item_reference(block: NotaBlock) -> Result<ItemReferenceText, NotaDecodeError> {
    match record_head(block, "ItemReferenceText") {
        Err(error) => Err(error),
        Ok(head) => {
            let fields = record_fields(block);
            if !is_item_reference_head(head@) {
                Err(NotaDecodeError::UnknownVariant { enum_name: "ItemReferenceText", variant: head })
            } else if fields.len() != 1 {
                Err(field_count_error("ItemReferenceText", fields, 1))
            } else {
                match decoded_text(fields[0], "String") {
                    Err(error) => Err(error),
                    Ok(text) => Ok(
                        if head@ == "Stable"@ {
                            ItemReferenceText::Stable(Stable { id: text })
                        } else if head@ == "Display"@ {
                            ItemReferenceText::Display(Display { id: text })
                        } else {
                            ItemReferenceText::Alias(Alias { alias: text })
                        },
                    ),
                }
            }
        },
    }
}

impl ItemReferenceText {
    pub fn from_nota_block(block: &NotaBlock) -> (reference: Result<Self, NotaDecodeError>)
        ensures
            reference == decoded_item_reference(*block),
    {
        let (head, entries) = match variant_record(block, "ItemReferenceText") {
            Ok(record) => record,
            Err(error) => return Err(error),
        };
        proof {
            assert(record_fields(*block) =~= entries@.drop_first());
        }
        let is_stable = str_equal(head.as_str(), "Stable");
        let is_display = str_equal(head.as_str(), "Display");
        let is_alias = str_equal(head.as_str(), "Alias");
        if !(is_stable || is_display || is_alias) {
            return Err(NotaDecodeError::UnknownVariant { enum_name: "ItemReferenceText", variant: head.clone() });
        }
        if entries.len() != 2 {
            return Err(NotaDecodeError::ExpectedRootCount { kind_name: "ItemReferenceText", expected: 1, found: entries.len() - 1 });
        }
        let text = match entries[1].decode_text("String") {
            Ok(text) => text,
            Err(error) => return Err(error),
        };
        if is_stable {
            Ok(ItemReferenceText::Stable(Stable { id: text }))
        } else if is_display {
            Ok(ItemReferenceText::Display(Display { id: text }))
        } else {
            Ok(ItemReferenceText::Alias(Alias { alias: text }))
        }
    }

    /// The record this reference is written as; it reads back as the same
    /// reference.
    pub fn to_nota_block(&self) -> (block: NotaBlock)
        ensures
            decoded_item_reference(block) == Ok::<ItemReferenceText, NotaDecodeError>(*self),
    {
        proof {
            lemma_record_heads();
        }
        let block = match self {
            ItemReferenceText::Stable(stable) => record_with_text("Stable", &stable.id),
            ItemReferenceText::Display(display) => record_with_text("Display", &display.id),
            ItemReferenceText::Alias(alias) => record_with_text("Alias", &alias.alias),
        };
        proof {
            assert(record_fields(block) =~= record_entries(block).unwrap().drop_first());
        }
        block
    }
}

// ---------------------------------------------------------------------------
// Link and edge targets.

pub open spec fn is_link_target_head(head: Seq<char>) -> bool {
    head == "ItemReferenceTarget"@ || head == "Report"@ || head == "GitCommit"@ || head == "BeadsTask"@ || head == "File"@
}

pub open spec fn decoded_link_target(block: NotaBlock) -> Result<LinkTargetText, NotaDecodeError> {
    match record_head(block, "LinkTargetText") {
        Err(error) => Err(error),
        Ok(head) => {
            let fields = record_fields(block);
            if !is_link_target_head(head@) {
                Err(NotaDecodeError::UnknownVariant { enum_name: "LinkTargetText", variant: head })
            } else if fields.len() != 1 {
                Err(field_count_error("LinkTargetText", fields, 1))
            } else if head@ == "ItemReferenceTarget"@ {
                match decoded_item_reference(fields[0]) {
                    Err(error) => Err(error),
                    Ok(item) => Ok(LinkTargetText::ItemReferenceTarget(ItemReferenceTarget { item })),
                }
            } else {
                match decoded_text(fields[0], "String") {
                    Err(error) => Err(error),
                    Ok(text) => Ok(
                        if head@ == "Report"@ {
                            LinkTargetText::Report(Report { path: text })
                        } else if head@ == "GitCommit"@ {
                            LinkTargetText::GitCommit(GitCommit { hash: text })
                        } else if head@ == "BeadsTask"@ {
                            LinkTargetText::BeadsTask(BeadsTask { token: text })
                        } else {
                            LinkTargetText::File(File { path: text })
                        },
                    ),
                }
            }
        },
    }
}

impl LinkTargetText {
    pub fn from_nota_block(block: &NotaBlock) -> (target: Result<Self, NotaDecodeError>)
        ensures
            target == decoded_link_target(*block),
    {
        let (head, entries) = match variant_record(block, "LinkTargetText") {
            Ok(record) => record,
            Err(error) => return Err(error),
        };
        proof {
            assert(record_fields(*block) =~= entries@.drop_first());
        }
        let is_item = str_equal(head.as_str(), "ItemReferenceTarget");
        let is_report = str_equal(head.as_str(), "Report");
        let is_commit = str_equal(head.as_str(), "GitCommit");
        let is_task = str_equal(head.as_str(), "BeadsTask");
        let is_file = str_equal(head.as_str(), "File");
        if !(is_item || is_report || is_commit || is_task || is_file) {
            return Err(NotaDecodeError::UnknownVariant { enum_name: "LinkTargetText", variant: head.clone() });
        }
        if entries.len() != 2 {
            return Err(NotaDecodeError::ExpectedRootCount { kind_name: "LinkTargetText", expected: 1, found: entries.len() - 1 });
        }
        if is_item {
            return match ItemReferenceText::from_nota_block(&entries[1]) {
                Ok(item) => Ok(LinkTargetText::ItemReferenceTarget(ItemReferenceTarget { item })),
                Err(error) => Err(error),
            };
        }
        let text = match entries[1].decode_text("String") {
            Ok(text) => text,
            Err(error) => return Err(error),
        };
        if is_report {
            Ok(LinkTargetText::Report(Report { path: text }))
        } else if is_commit {
            Ok(LinkTargetText::GitCommit(GitCommit { hash: text }))
        } else if is_task {
            Ok(LinkTargetText::BeadsTask(BeadsTask { token: text }))
        } else {
            Ok(LinkTargetText::File(File { path: text }))
        }
    }

    /// The record this target is written as; it reads back as the same
    /// target.
    pub fn to_nota_block(&self) -> (block: NotaBlock)
        ensures
            decoded_link_target(block) == Ok::<LinkTargetText, NotaDecodeError>(*self),
    {
        proof {
            lemma_record_heads();
        }
        let block = match self {
            LinkTargetText::ItemReferenceTarget(target) => record_with_block("ItemReferenceTarget", target.item.to_nota_block()),
            LinkTargetText::Report(report) => record_with_text("Report", &report.path),
            LinkTargetText::GitCommit(commit) => record_with_text("GitCommit", &commit.hash),
            LinkTargetText::BeadsTask(task) => record_with_text("BeadsTask", &task.token),
            LinkTargetText::File(file) => record_with_text("File", &file.path),
        };
        proof {
            assert(record_fields(block) =~= record_entries(block).unwrap().drop_first());
        }
        block
    }
}

pub open spec fn is_edge_target_head(head: Seq<char>) -> bool {
    head == "ItemTarget"@ || head == "Report"@ || head == "GitCommit"@ || head == "BeadsTask"@ || head == "File"@
}

pub open spec fn decoded_edge_target(block: NotaBlock) -> Result<EdgeTargetText, NotaDecodeError> {
    match record_head(block, "EdgeTargetText") {
        Err(error) => Err(error),
        Ok(head) => {
            let fields = record_fields(block);
            if !is_edge_target_head(head@) {
                Err(NotaDecodeError::UnknownVariant { enum_name: "EdgeTargetText", variant: head })
            } else if fields.len() != 1 {
                Err(field_count_error("EdgeTargetText", fields, 1))
            } else {
                match decoded_text(fields[0], "String") {
                    Err(error) => Err(error),
                    Ok(text) => Ok(
                        if head@ == "ItemTarget"@ {
                            EdgeTargetText::ItemTarget(ItemTarget { id: text })
                        } else if head@ == "Report"@ {
                            EdgeTargetText::Report(Report { path: text })
                        } else if head@ == "GitCommit"@ {
                            EdgeTargetText::GitCommit(GitCommit { hash: text })
                        } else if head@ == "BeadsTask"@ {
                            EdgeTargetText::BeadsTask(BeadsTask { token: text })
                        } else {
                            EdgeTargetText::File(File { path: text })
                        },
                    ),
                }
            }
        },
    }
}

impl EdgeTargetText {
    pub fn from_nota_block(block: &NotaBlock) -> (target: Result<Self, NotaDecodeError>)
        ensures
            target == decoded_edge_target(*block),
    {
        let (head, entries) = match variant_record(block, "EdgeTargetText") {
            Ok(record) => record,
            Err(error) => return Err(error),
        };
        proof {
            assert(record_fields(*block) =~= entries@.drop_first());
        }
        let is_item = str_equal(head.as_str(), "ItemTarget");
        let is_report = str_equal(head.as_str(), "Report");
        let is_commit = str_equal(head.as_str(), "GitCommit");
        let is_task = str_equal(head.as_str(), "BeadsTask");
        let is_file = str_equal(head.as_str(), "File");
        if !(is_item || is_report || is_commit || is_task || is_file) {
            return Err(NotaDecodeError::UnknownVariant { enum_name: "EdgeTargetText", variant: head.clone() });
        }
        if entries.len() != 2 {
            return Err(NotaDecodeError::ExpectedRootCount { kind_name: "EdgeTargetText", expected: 1, found: entries.len() - 1 });
        }
        let text = match entries[1].decode_text("String") {
            Ok(text) => text,
            Err(error) => return Err(error),
        };
        if is_item {
            Ok(EdgeTargetText::ItemTarget(ItemTarget { id: text }))
        } else if is_report {
            Ok(EdgeTargetText::Report(Report { path: text }))
        } else if is_commit {
            Ok(EdgeTargetText::GitCommit(GitCommit { hash: text }))
        } else if is_task {
            Ok(EdgeTargetText::BeadsTask(BeadsTask { token: text }))
        } else {
            Ok(EdgeTargetText::File(File { path: text }))
        }
    }

    /// The record this target is written as; it reads back as the same
    /// target.
    pub fn to_nota_block(&self) -> (block: NotaBlock)
        ensures
            decoded_edge_target(block) == Ok::<EdgeTargetText, NotaDecodeError>(*self),
    {
        proof {
            lemma_record_heads();
        }
        let block = match self {
            EdgeTargetText::ItemTarget(target) => record_with_text("ItemTarget", &target.id),
            EdgeTargetText::Report(report) => record_with_text("Report", &report.path),
            EdgeTargetText::GitCommit(commit) => record_with_text("GitCommit", &commit.hash),
            EdgeTargetText::BeadsTask(task) => record_with_text("BeadsTask", &task.token),
            EdgeTargetText::File(file) => record_with_text("File", &file.path),
        };
        proof {
            assert(record_fields(block) =~= record_entries(block).unwrap().drop_first());
        }
        block
    }
}


// ---------------------------------------------------------------------------
// Query kinds.

pub open spec fn is_query_kind_head(head: Seq<char>) -> bool {
    head == "Ready"@ || head == "Blocked"@ || head == "Open"@ || head == "RecentEvents"@ || head == "ByItem"@
        || head == "ByKind"@ || head == "ByStatus"@ || head == "ByAlias"@
}

/// How many fields the query kind named `head` has.
pub open spec fn query_kind_arity(head: Seq<char>) -> usize {
    if head == "Ready"@ || head == "Blocked"@ || head == "Open"@ || head == "RecentEvents"@ {
        0
    } else {
        1
    }
}

pub open spec fn decoded_query_kind(block: NotaBlock) -> Result<QueryKindText, NotaDecodeError> {
    match record_head(block, "QueryKindText") {
        Err(error) => Err(error),
        Ok(head) => {
            let fields = record_fields(block);
            if !is_query_kind_head(head@) {
                Err(NotaDecodeError::UnknownVariant { enum_name: "QueryKindText", variant: head })
            } else if fields.len() != query_kind_arity(head@) {
                Err(field_count_error("QueryKindText", fields, query_kind_arity(head@)))
            } else if head@ == "Ready"@ {
                Ok(QueryKindText::Ready(Ready {}))
            } else if head@ == "Blocked"@ {
                Ok(QueryKindText::Blocked(Blocked {}))
            } else if head@ == "Open"@ {
                Ok(QueryKindText::Open(Open {}))
            } else if head@ == "RecentEvents"@ {
                Ok(QueryKindText::RecentEvents(RecentEvents {}))
            } else if head@ == "ByItem"@ {
                match decoded_item_reference(fields[0]) {
                    Err(error) => Err(error),
                    Ok(item) => Ok(QueryKindText::ByItem(ByItem { item })),
                }
            } else if head@ == "ByKind"@ {
                match decoded_item_kind(fields[0]) {
                    Err(error) => Err(error),
                    Ok(kind) => Ok(QueryKindText::ByKind(ByKind { kind })),
                }
            } else if head@ == "ByStatus"@ {
                match decoded_item_status(fields[0]) {
                    Err(error) => Err(error),
                    Ok(status) => Ok(QueryKindText::ByStatus(ByStatus { status })),
                }
            } else {
                match decoded_text(fields[0], "String") {
                    Err(error) => Err(error),
                    Ok(alias) => Ok(QueryKindText::ByAlias(ByAlias { alias })),
                }
            }
        },
    }
}

impl QueryKindText {
    pub fn from_nota_block(block: &NotaBlock) -> (query: Result<Self, NotaDecodeError>)
        ensures
            query == decoded_query_kind(*block),
    {
        let (head, entries) = match variant_record(block, "QueryKindText") {
            Ok(record) => record,
            Err(error) => return Err(error),
        };
        proof {
            assert(record_fields(*block) =~= entries@.drop_first());
        }
        let text = head.as_str();
        let without_fields = str_equal(text, "Ready") || str_equal(text, "Blocked") || str_equal(text, "Open")
            || str_equal(text, "RecentEvents");
        let with_field = str_equal(text, "ByItem") || str_equal(text, "ByKind") || str_equal(text, "ByStatus")
            || str_equal(text, "ByAlias");
        if !(without_fields || with_field) {
            return Err(NotaDecodeError::UnknownVariant { enum_name: "QueryKindText", variant: head.clone() });
        }
        let expected: usize = if without_fields { 0 } else { 1 };
        if entries.len() - 1 != expected {
            return Err(NotaDecodeError::ExpectedRootCount { kind_name: "QueryKindText", expected, found: entries.len() - 1 });
        }
        if str_equal(text, "Ready") {
            Ok(QueryKindText::Ready(Ready {}))
        } else if str_equal(text, "Blocked") {
            Ok(QueryKindText::Blocked(Blocked {}))
        } else if str_equal(text, "Open") {
            Ok(QueryKindText::Open(Open {}))
        } else if str_equal(text, "RecentEvents") {
            Ok(QueryKindText::RecentEvents(RecentEvents {}))
        } else if str_equal(text, "ByItem") {
            match ItemReferenceText::from_nota_block(&entries[1]) {
                Ok(item) => Ok(QueryKindText::ByItem(ByItem { item })),
                Err(error) => Err(error),
            }
        } else if str_equal(text, "ByKind") {
            match ItemKindText::from_nota_block(&entries[1]) {
                Ok(kind) => Ok(QueryKindText::ByKind(ByKind { kind })),
                Err(error) => Err(error),
            }
        } else if str_equal(text, "ByStatus") {
            match ItemStatusText::from_nota_block(&entries[1]) {
                Ok(status) => Ok(QueryKindText::ByStatus(ByStatus { status })),
                Err(error) => Err(error),
            }
        } else {
            match entries[1].decode_text("String") {
                Ok(alias) => Ok(QueryKindText::ByAlias(ByAlias { alias })),
                Err(error) => Err(error),
            }
        }
    }

    /// The record this query kind is written as; it reads back as the same
    /// query kind.
    pub fn to_nota_block(&self) -> (block: NotaBlock)
        ensures
            decoded_query_kind(block) == Ok::<QueryKindText, NotaDecodeError>(*self),
    {
        proof {
            lemma_record_heads();
        }
        let block = match self {
            QueryKindText::Ready(_) => record_without_fields("Ready"),
            QueryKindText::Blocked(_) => record_without_fields("Blocked"),
            QueryKindText::Open(_) => record_without_fields("Open"),
            QueryKindText::RecentEvents(_) => record_without_fields("RecentEvents"),
            QueryKindText::ByItem(query) => record_with_block("ByItem", query.item.to_nota_block()),
            QueryKindText::ByKind(query) => record_with_block("ByKind", query.kind.to_nota_block()),
            QueryKindText::ByStatus(query) => record_with_block("ByStatus", query.status.to_nota_block()),
            QueryKindText::ByAlias(query) => record_with_text("ByAlias", &query.alias),
        };
        proof {
            assert(record_fields(block) =~= record_entries(block).unwrap().drop_first());
        }
        block
    }
}

// ---------------------------------------------------------------------------
// Optional strings.

pub open spec fn decoded_optional_string(block: NotaBlock) -> Result<TextOptionalString, NotaDecodeError> {
    match atom_text(block) {
        Some(text) => if text@ == "None"@ {
            Ok(TextOptionalString { value: None })
        } else {
            Ok(TextOptionalString { value: Some(text) })
        },
        None => Err(NotaDecodeError::ExpectedAtom { kind_name: "String" }),
    }
}

impl TextOptionalString {
    pub fn from_nota_block(block: &NotaBlock) -> (text: Result<Self, NotaDecodeError>)
        ensures
            text == decoded_optional_string(*block),
    {
        match block.decode_text("String") {
            Ok(atom) => Ok(TextOptionalString::from_atom(atom)),
            Err(error) => Err(error),
        }
    }

    /// The atom this optional string is written as.  It reads back as the
    /// same value, except the present string `None`, which reads back as
    /// absent.
    pub fn to_nota_block(&self) -> (block: NotaBlock)
        ensures
            atom_text(block) matches Some(text) && text@ == match self.value {
                Some(value) => value@,
                None => "None"@,
            },
            !(self.value matches Some(value) && value@ == "None"@) ==> decoded_optional_string(block) == Ok::<
                TextOptionalString,
                NotaDecodeError,
            >(*self),
    {
        match &self.value {
            Some(value) => NotaBlock::Atom(value.clone()),
            None => NotaBlock::Atom(String::from_str("None")),
        }
    }
}


// ---------------------------------------------------------------------------
// Request records.  Each is written as the `MindTextRequest` variant of the
// same name.

pub open spec fn decoded_note_submission(block: NotaBlock) -> Result<NoteSubmission, NotaDecodeError> {
    match record_head(block, "MindTextRequest") {
        Err(error) => Err(error),
        Ok(head) => {
            let fields = record_fields(block);
            if head@ != "NoteSubmission"@ {
                Err(NotaDecodeError::UnknownVariant { enum_name: "MindTextRequest", variant: head })
            } else if fields.len() != 2 {
                Err(field_count_error("MindTextRequest", fields, 2))
            } else {
                match decoded_item_reference(fields[0]) {
                    Err(error) => Err(error),
                    Ok(item) => match decoded_text(fields[1], "String") {
                        Err(error) => Err(error),
                        Ok(body) => Ok(NoteSubmission { item, body }),
                    },
                }
            }
        },
    }
}

pub open spec fn decoded_link(block: NotaBlock) -> Result<Link, NotaDecodeError> {
    match record_head(block, "MindTextRequest") {
        Err(error) => Err(error),
        Ok(head) => {
            let fields = record_fields(block);
            if head@ != "Link"@ {
                Err(NotaDecodeError::UnknownVariant { enum_name: "MindTextRequest", variant: head })
            } else if fields.len() != 4 {
                Err(field_count_error("MindTextRequest", fields, 4))
            } else {
                match decoded_item_reference(fields[0]) {
                    Err(error) => Err(error),
                    Ok(source) => match decoded_edge_kind(fields[1]) {
                        Err(error) => Err(error),
                        Ok(kind) => match decoded_link_target(fields[2]) {
                            Err(error) => Err(error),
                            Ok(target) => match decoded_optional_string(fields[3]) {
                                Err(error) => Err(error),
                                Ok(body) => Ok(Link { source, kind, target, body: body.value }),
                            },
                        },
                    },
                }
            }
        },
    }
}

pub open spec fn decoded_status_change(block: NotaBlock) -> Result<StatusChange, NotaDecodeError> {
    match record_head(block, "MindTextRequest") {
        Err(error) => Err(error),
        Ok(head) => {
            let fields = record_fields(block);
            if head@ != "StatusChange"@ {
                Err(NotaDecodeError::UnknownVariant { enum_name: "MindTextRequest", variant: head })
            } else if fields.len() != 3 {
                Err(field_count_error("MindTextRequest", fields, 3))
            } else {
                match decoded_item_reference(fields[0]) {
                    Err(error) => Err(error),
                    Ok(item) => match decoded_item_status(fields[1]) {
                        Err(error) => Err(error),
                        Ok(status) => match decoded_optional_string(fields[2]) {
                            Err(error) => Err(error),
                            Ok(body) => Ok(StatusChange { item, status, body: body.value }),
                        },
                    },
                }
            }
        },
    }
}

pub open spec fn decoded_alias_assignment(block: NotaBlock) -> Result<AliasAssignment, NotaDecodeError> {
    match record_head(block, "MindTextRequest") {
        Err(error) => Err(error),
        Ok(head) => {
            let fields = record_fields(block);
            if head@ != "AliasAssignment"@ {
                Err(NotaDecodeError::UnknownVariant { enum_name: "MindTextRequest", variant: head })
            } else if fields.len() != 2 {
                Err(field_count_error("MindTextRequest", fields, 2))
            } else {
                match decoded_item_reference(fields[0]) {
                    Err(error) => Err(error),
                    Ok(item) => match decoded_text(fields[1], "String") {
                        Err(error) => Err(error),
                        Ok(alias) => Ok(AliasAssignment { item, alias }),
                    },
                }
            }
        },
    }
}

/// Whether an optional body survives being written and read back: every
/// value does but the present text `None`.
pub open spec fn body_reads_back(body: Option<String>) -> bool {
    !(body matches Some(text) && text@ == "None"@)
}

impl NoteSubmission {
    pub fn from_nota_block(block: &NotaBlock) -> (submission: Result<Self, NotaDecodeError>)
        ensures
            submission == decoded_note_submission(*block),
    {
        let (head, entries) = match variant_record(block, "MindTextRequest") {
            Ok(record) => record,
            Err(error) => return Err(error),
        };
        proof {
            assert(record_fields(*block) =~= entries@.drop_first());
        }
        if !str_equal(head.as_str(), "NoteSubmission") {
            return Err(NotaDecodeError::UnknownVariant { enum_name: "MindTextRequest", variant: head.clone() });
        }
        if entries.len() != 3 {
            return Err(NotaDecodeError::ExpectedRootCount { kind_name: "MindTextRequest", expected: 2, found: entries.len() - 1 });
        }
        let item = match ItemReferenceText::from_nota_block(&entries[1]) {
            Ok(item) => item,
            Err(error) => return Err(error),
        };
        let body = match entries[2].decode_text("String") {
            Ok(body) => body,
            Err(error) => return Err(error),
        };
        Ok(NoteSubmission { item, body })
    }

    /// The request record this submission is written as; it reads back as
    /// the same submission.
    pub fn to_nota_block(&self) -> (block: NotaBlock)
        ensures
            decoded_note_submission(block) == Ok::<NoteSubmission, NotaDecodeError>(*self),
    {
        proof {
            lemma_record_heads();
        }
        let mut fields: Vec<NotaBlock> = Vec::new();
        fields.push(self.item.to_nota_block());
        fields.push(NotaBlock::Atom(self.body.clone()));
        let block = record_of("NoteSubmission", fields);
        proof {
            assert(record_fields(block) =~= record_entries(block).unwrap().drop_first());
        }
        block
    }
}

impl Link {
    pub fn from_nota_block(block: &NotaBlock) -> (link: Result<Self, NotaDecodeError>)
        ensures
            link == decoded_link(*block),
    {
        let (head, entries) = match variant_record(block, "MindTextRequest") {
            Ok(record) => record,
            Err(error) => return Err(error),
        };
        proof {
            assert(record_fields(*block) =~= entries@.drop_first());
        }
        if !str_equal(head.as_str(), "Link") {
            return Err(NotaDecodeError::UnknownVariant { enum_name: "MindTextRequest", variant: head.clone() });
        }
        if entries.len() != 5 {
            return Err(NotaDecodeError::ExpectedRootCount { kind_name: "MindTextRequest", expected: 4, found: entries.len() - 1 });
        }
        let source = match ItemReferenceText::from_nota_block(&entries[1]) {
            Ok(source) => source,
            Err(error) => return Err(error),
        };
        let kind = match EdgeKindText::from_nota_block(&entries[2]) {
            Ok(kind) => kind,
            Err(error) => return Err(error),
        };
        let target = match LinkTargetText::from_nota_block(&entries[3]) {
            Ok(target) => target,
            Err(error) => return Err(error),
        };
        let body = match TextOptionalString::from_nota_block(&entries[4]) {
            Ok(body) => body,
            Err(error) => return Err(error),
        };
        Ok(Link { source, kind, target, body: body.into_inner() })
    }

    /// The request record this link is written as; it reads back as the
    /// same link unless its body is the text `None`.
    pub fn to_nota_block(&self) -> (block: NotaBlock)
        ensures
            body_reads_back(self.body) ==> decoded_link(block) == Ok::<Link, NotaDecodeError>(*self),
    {
        proof {
            lemma_record_heads();
        }
        let mut fields: Vec<NotaBlock> = Vec::new();
        fields.push(self.source.to_nota_block());
        fields.push(self.kind.to_nota_block());
        fields.push(self.target.to_nota_block());
        fields.push(TextOptionalString::from_option(&self.body).to_nota_block());
        let block = record_of("Link", fields);
        proof {
            assert(record_fields(block) =~= record_entries(block).unwrap().drop_first());
        }
        block
    }
}

impl StatusChange {
    pub fn from_nota_block(block: &NotaBlock) -> (change: Result<Self, NotaDecodeError>)
        ensures
            change == decoded_status_change(*block),
    {
        let (head, entries) = match variant_record(block, "MindTextRequest") {
            Ok(record) => record,
            Err(error) => return Err(error),
        };
        proof {
            assert(record_fields(*block) =~= entries@.drop_first());
        }
        if !str_equal(head.as_str(), "StatusChange") {
            return Err(NotaDecodeError::UnknownVariant { enum_name: "MindTextRequest", variant: head.clone() });
        }
        if entries.len() != 4 {
            return Err(NotaDecodeError::ExpectedRootCount { kind_name: "MindTextRequest", expected: 3, found: entries.len() - 1 });
        }
        let item = match ItemReferenceText::from_nota_block(&entries[1]) {
            Ok(item) => item,
            Err(error) => return Err(error),
        };
        let status = match ItemStatusText::from_nota_block(&entries[2]) {
            Ok(status) => status,
            Err(error) => return Err(error),
        };
        let body = match TextOptionalString::from_nota_block(&entries[3]) {
            Ok(body) => body,
            Err(error) => return Err(error),
        };
        Ok(StatusChange { item, status, body: body.into_inner() })
    }

    /// The request record this change is written as; it reads back as the
    /// same change unless its body is the text `None`.
    pub fn to_nota_block(&self) -> (block: NotaBlock)
        ensures
            body_reads_back(self.body) ==> decoded_status_change(block) == Ok::<StatusChange, NotaDecodeError>(*self),
    {
        proof {
            lemma_record_heads();
        }
        let mut fields: Vec<NotaBlock> = Vec::new();
        fields.push(self.item.to_nota_block());
        fields.push(self.status.to_nota_block());
        fields.push(TextOptionalString::from_option(&self.body).to_nota_block());
        let block = record_of("StatusChange", fields);
        proof {
            assert(record_fields(block) =~= record_entries(block).unwrap().drop_first());
        }
        block
    }
}

impl AliasAssignment {
    pub fn from_nota_block(block: &NotaBlock) -> (assignment: Result<Self, NotaDecodeError>)
        ensures
            assignment == decoded_alias_assignment(*block),
    {
        let (head, entries) = match variant_record(block, "MindTextRequest") {
            Ok(record) => record,
            Err(error) => return Err(error),
        };
        proof {
            assert(record_fields(*block) =~= entries@.drop_first());
        }
        if !str_equal(head.as_str(), "AliasAssignment") {
            return Err(NotaDecodeError::UnknownVariant { enum_name: "MindTextRequest", variant: head.clone() });
        }
        if entries.len() != 3 {
            return Err(NotaDecodeError::ExpectedRootCount { kind_name: "MindTextRequest", expected: 2, found: entries.len() - 1 });
        }
        let item = match ItemReferenceText::from_nota_block(&entries[1]) {
            Ok(item) => item,
            Err(error) => return Err(error),
        };
        let alias = match entries[2].decode_text("String") {
            Ok(alias) => alias,
            Err(error) => return Err(error),
        };
        Ok(AliasAssignment { item, alias })
    }

    /// The request record this assignment is written as; it reads back as
    /// the same assignment.
    pub fn to_nota_block(&self) -> (block: NotaBlock)
        ensures
            decoded_alias_assignment(block) == Ok::<AliasAssignment, NotaDecodeError>(*self),
    {
        proof {
            lemma_record_heads();
        }
        let mut fields: Vec<NotaBlock> = Vec::new();
        fields.push(self.item.to_nota_block());
        fields.push(NotaBlock::Atom(self.alias.clone()));
        let block = record_of("AliasAssignment", fields);
        proof {
            assert(record_fields(block) =~= record_entries(block).unwrap().drop_first());
        }
        block
    }
}

// ---------------------------------------------------------------------------
// Openings, queries, and the request as a whole.

pub open spec fn decoded_opening(block: NotaBlock) -> Result<Opening, NotaDecodeError> {
    match record_head(block, "MindTextRequest") {
        Err(error) => Err(error),
        Ok(head) => {
            let fields = record_fields(block);
            if head@ != "Opening"@ {
                Err(NotaDecodeError::UnknownVariant { enum_name: "MindTextRequest", variant: head })
            } else if fields.len() != 4 {
                Err(field_count_error("MindTextRequest", fields, 4))
            } else {
                match decoded_item_kind(fields[0]) {
                    Err(error) => Err(error),
                    Ok(kind) => match decoded_text(fields[1], "Magnitude") {
                        Err(error) => Err(error),
                        Ok(priority) => match decoded_text(fields[2], "String") {
                            Err(error) => Err(error),
                            Ok(title) => match decoded_text(fields[3], "String") {
                                Err(error) => Err(error),
                                Ok(body) => Ok(Opening { kind, priority, title, body }),
                            },
                        },
                    },
                }
            }
        },
    }
}

/// What reading a query limit gives: a decimal count that fits sixteen bits.
pub open spec fn decoded_query_limit(block: NotaBlock) -> Result<u16, NotaDecodeError> {
    match atom_text(block) {
        None => Err(NotaDecodeError::ExpectedAtom { kind_name: "QueryLimit" }),
        Some(text) => match parsed_decimal(text@) {
            Some(value) => if value <= u16::MAX {
                Ok(value as u16)
            } else {
                Err(NotaDecodeError::InvalidNumber { kind_name: "QueryLimit" })
            },
            None => Err(NotaDecodeError::InvalidNumber { kind_name: "QueryLimit" }),
        },
    }
}

pub open spec fn decoded_query(block: NotaBlock) -> Result<Query, NotaDecodeError> {
    match record_head(block, "MindTextRequest") {
        Err(error) => Err(error),
        Ok(head) => {
            let fields = record_fields(block);
            if head@ != "Query"@ {
                Err(NotaDecodeError::UnknownVariant { enum_name: "MindTextRequest", variant: head })
            } else if fields.len() != 2 {
                Err(field_count_error("MindTextRequest", fields, 2))
            } else {
                match decoded_query_kind(fields[0]) {
                    Err(error) => Err(error),
                    Ok(kind) => match decoded_query_limit(fields[1]) {
                        Err(error) => Err(error),
                        Ok(limit) => Ok(Query { kind, limit }),
                    },
                }
            }
        },
    }
}

/// What reading a request gives: the variant its head names, read as that
/// variant's record; any other head is an unknown variant.
pub open spec fn decoded_mind_text_request(block: NotaBlock) -> Result<MindTextRequest, NotaDecodeError> {
    match record_head(block, "MindTextRequest") {
        Err(error) => Err(error),
        Ok(head) => if head@ == "Opening"@ {
            match decoded_opening(block) {
                Ok(opening) => Ok(MindTextRequest::Opening(opening)),
                Err(error) => Err(error),
            }
        } else if head@ == "NoteSubmission"@ {
            match decoded_note_submission(block) {
                Ok(submission) => Ok(MindTextRequest::NoteSubmission(submission)),
                Err(error) => Err(error),
            }
        } else if head@ == "Link"@ {
            match decoded_link(block) {
                Ok(link) => Ok(MindTextRequest::Link(link)),
                Err(error) => Err(error),
            }
        } else if head@ == "StatusChange"@ {
            match decoded_status_change(block) {
                Ok(change) => Ok(MindTextRequest::StatusChange(change)),
                Err(error) => Err(error),
            }
        } else if head@ == "AliasAssignment"@ {
            match decoded_alias_assignment(block) {
                Ok(assignment) => Ok(MindTextRequest::AliasAssignment(assignment)),
                Err(error) => Err(error),
            }
        } else if head@ == "Query"@ {
            match decoded_query(block) {
                Ok(query) => Ok(MindTextRequest::Query(query)),
                Err(error) => Err(error),
            }
        } else {
            Err(NotaDecodeError::UnknownVariant { enum_name: "MindTextRequest", variant: head })
        },
    }
}

/// Whether a request survives being written and read back: every request
/// does but one whose optional body is the present text `None`.
pub open spec fn request_reads_back(request: MindTextRequest) -> bool {
    match request {
        MindTextRequest::Link(link) => body_reads_back(link.body),
        MindTextRequest::StatusChange(change) => body_reads_back(change.body),
        _ => true,
    }
}

impl Opening {
    pub fn from_nota_block(block: &NotaBlock) -> (opening: Result<Self, NotaDecodeError>)
        ensures
            opening == decoded_opening(*block),
    {
        let (head, entries) = match variant_record(block, "MindTextRequest") {
            Ok(record) => record,
            Err(error) => return Err(error),
        };
        proof {
            assert(record_fields(*block) =~= entries@.drop_first());
        }
        if !str_equal(head.as_str(), "Opening") {
            return Err(NotaDecodeError::UnknownVariant { enum_name: "MindTextRequest", variant: head.clone() });
        }
        if entries.len() != 5 {
            return Err(NotaDecodeError::ExpectedRootCount { kind_name: "MindTextRequest", expected: 4, found: entries.len() - 1 });
        }
        let kind = match ItemKindText::from_nota_block(&entries[1]) {
            Ok(kind) => kind,
            Err(error) => return Err(error),
        };
        let priority = match entries[2].decode_text("Magnitude") {
            Ok(priority) => priority,
            Err(error) => return Err(error),
        };
        let title = match entries[3].decode_text("String") {
            Ok(title) => title,
            Err(error) => return Err(error),
        };
        let body = match entries[4].decode_text("String") {
            Ok(body) => body,
            Err(error) => return Err(error),
        };
        Ok(Opening { kind, priority, title, body })
    }

    /// The request record this opening is written as; it reads back as the
    /// same opening.
    pub fn to_nota_block(&self) -> (block: NotaBlock)
        ensures
            decoded_opening(block) == Ok::<Opening, NotaDecodeError>(*self),
    {
        proof {
            lemma_record_heads();
        }
        let mut fields: Vec<NotaBlock> = Vec::new();
        fields.push(self.kind.to_nota_block());
        fields.push(NotaBlock::Atom(self.priority.clone()));
        fields.push(NotaBlock::Atom(self.title.clone()));
        fields.push(NotaBlock::Atom(self.body.clone()));
        let block = record_of("Opening", fields);
        proof {
            assert(record_fields(block) =~= record_entries(block).unwrap().drop_first());
        }
        block
    }
}

/// Reads a query limit.
fn decode_query_limit(block: &NotaBlock) -> (limit: Result<u16, NotaDecodeError>)
    ensures
        limit == decoded_query_limit(*block),
{
    let text = match block.demote_to_string() {
        Some(text) => text,
        None => return Err(NotaDecodeError::ExpectedAtom { kind_name: "QueryLimit" }),
    };
    match parse_decimal(text.as_str()) {
        Some(value) => if value <= 65535 {
            Ok(value as u16)
        } else {
            Err(NotaDecodeError::InvalidNumber { kind_name: "QueryLimit" })
        },
        None => Err(NotaDecodeError::InvalidNumber { kind_name: "QueryLimit" }),
    }
}

impl Query {
    pub fn from_nota_block(block: &NotaBlock) -> (query: Result<Self, NotaDecodeError>)
        ensures
            query == decoded_query(*block),
    {
        let (head, entries) = match variant_record(block, "MindTextRequest") {
            Ok(record) => record,
            Err(error) => return Err(error),
        };
        proof {
            assert(record_fields(*block) =~= entries@.drop_first());
        }
        if !str_equal(head.as_str(), "Query") {
            return Err(NotaDecodeError::UnknownVariant { enum_name: "MindTextRequest", variant: head.clone() });
        }
        if entries.len() != 3 {
            return Err(NotaDecodeError::ExpectedRootCount { kind_name: "MindTextRequest", expected: 2, found: entries.len() - 1 });
        }
        let kind = match QueryKindText::from_nota_block(&entries[1]) {
            Ok(kind) => kind,
            Err(error) => return Err(error),
        };
        let limit = match decode_query_limit(&entries[2]) {
            Ok(limit) => limit,
            Err(error) => return Err(error),
        };
        Ok(Query { kind, limit })
    }

    /// The request record this query is written as, its limit in decimal;
    /// it reads back as the same query.
    pub fn to_nota_block(&self) -> (block: NotaBlock)
        ensures
            decoded_query(block) == Ok::<Query, NotaDecodeError>(*self),
    {
        proof {
            lemma_record_heads();
            lemma_decimal_text_reads_back(self.limit as u64);
        }
        let mut fields: Vec<NotaBlock> = Vec::new();
        fields.push(self.kind.to_nota_block());
        let limit_block = NotaBlock::Atom(write_decimal(self.limit as u64));
        assert(decoded_query_limit(limit_block) == Ok::<u16, NotaDecodeError>(self.limit));
        fields.push(limit_block);
        let block = record_of("Query", fields);
        proof {
            assert(record_fields(block) =~= record_entries(block).unwrap().drop_first());
        }
        block
    }
}

impl MindTextRequest {
    /// Reads a request: the head names the variant, whose record is then
    /// read; any other head is an unknown variant of `MindTextRequest`.
    pub fn from_nota_block(block: &NotaBlock) -> (request: Result<Self, NotaDecodeError>)
        ensures
            request == decoded_mind_text_request(*block),
    {
        let (head, _entries) = match variant_record(block, "MindTextRequest") {
            Ok(record) => record,
            Err(error) => return Err(error),
        };
        let text = head.as_str();
        if str_equal(text, "Opening") {
            match Opening::from_nota_block(block) {
                Ok(opening) => Ok(MindTextRequest::Opening(opening)),
                Err(error) => Err(error),
            }
        } else if str_equal(text, "NoteSubmission") {
            match NoteSubmission::from_nota_block(block) {
                Ok(submission) => Ok(MindTextRequest::NoteSubmission(submission)),
                Err(error) => Err(error),
            }
        } else if str_equal(text, "Link") {
            match Link::from_nota_block(block) {
                Ok(link) => Ok(MindTextRequest::Link(link)),
                Err(error) => Err(error),
            }
        } else if str_equal(text, "StatusChange") {
            match StatusChange::from_nota_block(block) {
                Ok(change) => Ok(MindTextRequest::StatusChange(change)),
                Err(error) => Err(error),
            }
        } else if str_equal(text, "AliasAssignment") {
            match AliasAssignment::from_nota_block(block) {
                Ok(assignment) => Ok(MindTextRequest::AliasAssignment(assignment)),
                Err(error) => Err(error),
            }
        } else if str_equal(text, "Query") {
            match Query::from_nota_block(block) {
                Ok(query) => Ok(MindTextRequest::Query(query)),
                Err(error) => Err(error),
            }
        } else {
            Err(NotaDecodeError::UnknownVariant { enum_name: "MindTextRequest", variant: head.clone() })
        }
    }

    /// The record this request is written as, headed by its variant's name;
    /// it reads back as the same request unless an optional body in it is
    /// the text `None`.
    pub fn to_nota_block(&self) -> (block: NotaBlock)
        ensures
            request_reads_back(*self) ==> decoded_mind_text_request(block) == Ok::<MindTextRequest, NotaDecodeError>(
                *self,
            ),
    {
        proof {
            lemma_record_heads();
        }
        match self {
            MindTextRequest::Opening(opening) => opening.to_nota_block(),
            MindTextRequest::NoteSubmission(submission) => submission.to_nota_block(),
            MindTextRequest::Link(link) => link.to_nota_block(),
            MindTextRequest::StatusChange(change) => change.to_nota_block(),
            MindTextRequest::AliasAssignment(assignment) => assignment.to_nota_block(),
            MindTextRequest::Query(query) => query.to_nota_block(),
        }
    }
}

// ---------------------------------------------------------------------------
// What each record head means.

/// A one-field record is read as the variant its head names, with the field
/// as that variant's text: `(Stable x)` is the stable reference `x`, `(Report
/// p)` the report at `p`, `(ByAlias a)` the query by alias `a`, and so on.
pub proof fn law_record_heads_name_their_variants(block: NotaBlock, head: String, text: String)
    requires
        record_entries(block) == Some(Seq::empty().push(NotaBlock::Atom(head)).push(NotaBlock::Atom(text))),
    ensures
        head@ == "Stable"@ ==> decoded_item_reference(block) == Ok::<ItemReferenceText, NotaDecodeError>(
            ItemReferenceText::Stable(Stable { id: text }),
        ),
        head@ == "Display"@ ==> decoded_item_reference(block) == Ok::<ItemReferenceText, NotaDecodeError>(
            ItemReferenceText::Display(Display { id: text }),
        ),
        head@ == "Alias"@ ==> decoded_item_reference(block) == Ok::<ItemReferenceText, NotaDecodeError>(
            ItemReferenceText::Alias(Alias { alias: text }),
        ),
        head@ == "Report"@ ==> decoded_link_target(block) == Ok::<LinkTargetText, NotaDecodeError>(
            LinkTargetText::Report(Report { path: text }),
        ) && decoded_edge_target(block) == Ok::<EdgeTargetText, NotaDecodeError>(
            EdgeTargetText::Report(Report { path: text }),
        ),
        head@ == "GitCommit"@ ==> decoded_link_target(block) == Ok::<LinkTargetText, NotaDecodeError>(
            LinkTargetText::GitCommit(GitCommit { hash: text }),
        ) && decoded_edge_target(block) == Ok::<EdgeTargetText, NotaDecodeError>(
            EdgeTargetText::GitCommit(GitCommit { hash: text }),
        ),
        head@ == "BeadsTask"@ ==> decoded_link_target(block) == Ok::<LinkTargetText, NotaDecodeError>(
            LinkTargetText::BeadsTask(BeadsTask { token: text }),
        ) && decoded_edge_target(block) == Ok::<EdgeTargetText, NotaDecodeError>(
            EdgeTargetText::BeadsTask(BeadsTask { token: text }),
        ),
        head@ == "File"@ ==> decoded_link_target(block) == Ok::<LinkTargetText, NotaDecodeError>(
            LinkTargetText::File(File { path: text }),
        ) && decoded_edge_target(block) == Ok::<EdgeTargetText, NotaDecodeError>(
            EdgeTargetText::File(File { path: text }),
        ),
        head@ == "ItemTarget"@ ==> decoded_edge_target(block) == Ok::<EdgeTargetText, NotaDecodeError>(
            EdgeTargetText::ItemTarget(ItemTarget { id: text }),
        ),
        head@ == "ByAlias"@ ==> decoded_query_kind(block) == Ok::<QueryKindText, NotaDecodeError>(
            QueryKindText::ByAlias(ByAlias { alias: text }),
        ),
{
    lemma_record_heads();
    assert(record_fields(block) =~= Seq::empty().push(NotaBlock::Atom(text)));
}

/// A record with no fields names a query kind by its head alone.
pub proof fn law_query_heads_name_their_kinds(block: NotaBlock, head: String)
    requires
        record_entries(block) == Some(Seq::empty().push(NotaBlock::Atom(head))),
    ensures
        head@ == "Ready"@ ==> decoded_query_kind(block) == Ok::<QueryKindText, NotaDecodeError>(
            QueryKindText::Ready(Ready {}),
        ),
        head@ == "Blocked"@ ==> decoded_query_kind(block) == Ok::<QueryKindText, NotaDecodeError>(
            QueryKindText::Blocked(Blocked {}),
        ),
        head@ == "Open"@ ==> decoded_query_kind(block) == Ok::<QueryKindText, NotaDecodeError>(
            QueryKindText::Open(Open {}),
        ),
        head@ == "RecentEvents"@ ==> decoded_query_kind(block) == Ok::<QueryKindText, NotaDecodeError>(
            QueryKindText::RecentEvents(RecentEvents {}),
        ),
{
    lemma_record_heads();
    assert(record_fields(block) =~= Seq::<NotaBlock>::empty());
}

} // verus!
