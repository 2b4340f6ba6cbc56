//! The NOTA text forms of mind's work-item requests and replies.
//!
//! Bare enums are written as their variant name (`Task`, `InProgress`).
//! Variant records are written as a parenthesised list whose head is the
//! variant name and whose remaining entries are its fields, in declaration
//! order; a decoder checks the head and the number of fields before reading
//! them.  An optional string is written as the string, or as `None`.

use vstd::prelude::*;

use crate::text_build::str_equal;

verus! {

/// Why a block did not decode.
#[derive(Debug)]
pub enum NotaDecodeError {
    ExpectedRootCount { kind_name: &'static str, expected: usize, found: usize },
    UnknownVariant { enum_name: &'static str, variant: String },
    ExpectedAtom { kind_name: &'static str },
    /// A record was expected and the block is not a parenthesised list.
    ExpectedRecord { kind_name: &'static str },
    /// A count was expected and the atom is not a decimal number that fits.
    InvalidNumber { kind_name: &'static str },
}

fn unknown_variant(enum_name: &'static str, variant: &str) -> (error: NotaDecodeError)
    ensures
        error == (NotaDecodeError::UnknownVariant { enum_name, variant: error->variant })
            && error->variant@ == variant@,
{
    NotaDecodeError::UnknownVariant { enum_name, variant: variant.to_owned() }
}

// ---------------------------------------------------------------------------
// Bare enums.

#[derive(Debug, Clone, Copy, PartialEq, Eq, Structural)]
pub enum ItemKindText {
    Task,
    Defect,
    Question,
    Decision,
    Note,
    Handoff,
}

pub open spec fn item_kind_name(kind: ItemKindText) -> Seq<char> {
    match kind {
        ItemKindText::Task => "Task"@,
        ItemKindText::Defect => "Defect"@,
        ItemKindText::Question => "Question"@,
        ItemKindText::Decision => "Decision"@,
        ItemKindText::Note => "Note"@,
        ItemKindText::Handoff => "Handoff"@,
    }
}

pub open spec fn item_kind_named(name: Seq<char>) -> Option<ItemKindText> {
    if name == "Task"@ {
        Some(ItemKindText::Task)
    } else if name == "Defect"@ {
        Some(ItemKindText::Defect)
    } else if name == "Question"@ {
        Some(ItemKindText::Question)
    } else if name == "Decision"@ {
        Some(ItemKindText::Decision)
    } else if name == "Note"@ {
        Some(ItemKindText::Note)
    } else if name == "Handoff"@ {
        Some(ItemKindText::Handoff)
    } else {
        None
    }
}

impl ItemKindText {
    pub fn to_nota(&self) -> (name: &'static str)
        ensures
            name@ == item_kind_name(*self),
    {
        match self {
            ItemKindText::Task => "Task",
            ItemKindText::Defect => "Defect",
            ItemKindText::Question => "Question",
            ItemKindText::Decision => "Decision",
            ItemKindText::Note => "Note",
            ItemKindText::Handoff => "Handoff",
        }
    }

    pub fn from_variant_name(name: &str) -> (kind: Result<Self, NotaDecodeError>)
        ensures
            match item_kind_named(name@) {
                Some(k) => kind == Ok::<Self, NotaDecodeError>(k),
                None => kind matches Err(NotaDecodeError::UnknownVariant { enum_name, variant })
                    && enum_name@ == "ItemKindText"@ && variant@ == name@,
            },
    {
        if str_equal(name, "Task") {
            Ok(ItemKindText::Task)
        } else if str_equal(name, "Defect") {
            Ok(ItemKindText::Defect)
        } else if str_equal(name, "Question") {
            Ok(ItemKindText::Question)
        } else if str_equal(name, "Decision") {
            Ok(ItemKindText::Decision)
        } else if str_equal(name, "Note") {
            Ok(ItemKindText::Note)
        } else if str_equal(name, "Handoff") {
            Ok(ItemKindText::Handoff)
        } else {
            Err(unknown_variant("ItemKindText", name))
        }
    }
}

#[derive(Debug, Clone, Copy, PartialEq, Eq, Structural)]
pub enum ItemStatusText {
    Open,
    InProgress,
    Blocked,
    Closed,
    Deferred,
}

pub open spec fn item_status_name(status: ItemStatusText) -> Seq<char> {
    match status {
        ItemStatusText::Open => "Open"@,
        ItemStatusText::InProgress => "InProgress"@,
        ItemStatusText::Blocked => "Blocked"@,
        ItemStatusText::Closed => "Closed"@,
        ItemStatusText::Deferred => "Deferred"@,
    }
}

pub open spec fn item_status_named(name: Seq<char>) -> Option<ItemStatusText> {
    if name == "Open"@ {
        Some(ItemStatusText::Open)
    } else if name == "InProgress"@ {
        Some(ItemStatusText::InProgress)
    } else if name == "Blocked"@ {
        Some(ItemStatusText::Blocked)
    } else if name == "Closed"@ {
        Some(ItemStatusText::Closed)
    } else if name == "Deferred"@ {
        Some(ItemStatusText::Deferred)
    } else {
        None
    }
}

impl ItemStatusText {
    pub fn to_nota(&self) -> (name: &'static str)
        ensures
            name@ == item_status_name(*self),
    {
        match self {
            ItemStatusText::Open => "Open",
            ItemStatusText::InProgress => "InProgress",
            ItemStatusText::Blocked => "Blocked",
            ItemStatusText::Closed => "Closed",
            ItemStatusText::Deferred => "Deferred",
        }
    }

    pub fn from_variant_name(name: &str) -> (status: Result<Self, NotaDecodeError>)
        ensures
            match item_status_named(name@) {
                Some(s) => status == Ok::<Self, NotaDecodeError>(s),
                None => status matches Err(NotaDecodeError::UnknownVariant { enum_name, variant })
                    && enum_name@ == "ItemStatusText"@ && variant@ == name@,
            },
    {
        if str_equal(name, "Open") {
            Ok(ItemStatusText::Open)
        } else if str_equal(name, "InProgress") {
            Ok(ItemStatusText::InProgress)
        } else if str_equal(name, "Blocked") {
            Ok(ItemStatusText::Blocked)
        } else if str_equal(name, "Closed") {
            Ok(ItemStatusText::Closed)
        } else if str_equal(name, "Deferred") {
            Ok(ItemStatusText::Deferred)
        } else {
            Err(unknown_variant("ItemStatusText", name))
        }
    }
}

#[derive(Debug, Clone, Copy, PartialEq, Eq, Structural)]
pub enum EdgeKindText {
    DependsOn,
    ParentOf,
    RelatesTo,
    Duplicates,
    Supersedes,
    Answers,
    References,
}

pub open spec fn edge_kind_name(kind: EdgeKindText) -> Seq<char> {
    match kind {
        EdgeKindText::DependsOn => "DependsOn"@,
        EdgeKindText::ParentOf => "ParentOf"@,
        EdgeKindText::RelatesTo => "RelatesTo"@,
        EdgeKindText::Duplicates => "Duplicates"@,
        EdgeKindText::Supersedes => "Supersedes"@,
        EdgeKindText::Answers => "Answers"@,
        EdgeKindText::References => "References"@,
    }
}

pub open spec fn edge_kind_named(name: Seq<char>) -> Option<EdgeKindText> {
    if name == "DependsOn"@ {
        Some(EdgeKindText::DependsOn)
    } else if name == "ParentOf"@ {
        Some(EdgeKindText::ParentOf)
    } else if name == "RelatesTo"@ {
        Some(EdgeKindText::RelatesTo)
    } else if name == "Duplicates"@ {
        Some(EdgeKindText::Duplicates)
    } else if name == "Supersedes"@ {
        Some(EdgeKindText::Supersedes)
    } else if name == "Answers"@ {
        Some(EdgeKindText::Answers)
    } else if name == "References"@ {
        Some(EdgeKindText::References)
    } else {
        None
    }
}

impl EdgeKindText {
    pub fn to_nota(&self) -> (name: &'static str)
        ensures
            name@ == edge_kind_name(*self),
    {
        match self {
            EdgeKindText::DependsOn => "DependsOn",
            EdgeKindText::ParentOf => "ParentOf",
            EdgeKindText::RelatesTo => "RelatesTo",
            EdgeKindText::Duplicates => "Duplicates",
            EdgeKindText::Supersedes => "Supersedes",
            EdgeKindText::Answers => "Answers",
            EdgeKindText::References => "References",
        }
    }

    pub fn from_variant_name(name: &str) -> (kind: Result<Self, NotaDecodeError>)
        ensures
            match edge_kind_named(name@) {
                Some(k) => kind == Ok::<Self, NotaDecodeError>(k),
                None => kind matches Err(NotaDecodeError::UnknownVariant { enum_name, variant })
                    && enum_name@ == "EdgeKindText"@ && variant@ == name@,
            },
    {
        if str_equal(name, "DependsOn") {
            Ok(EdgeKindText::DependsOn)
        } else if str_equal(name, "ParentOf") {
            Ok(EdgeKindText::ParentOf)
        } else if str_equal(name, "RelatesTo") {
            Ok(EdgeKindText::RelatesTo)
        } else if str_equal(name, "Duplicates") {
            Ok(EdgeKindText::Duplicates)
        } else if str_equal(name, "Supersedes") {
            Ok(EdgeKindText::Supersedes)
        } else if str_equal(name, "Answers") {
            Ok(EdgeKindText::Answers)
        } else if str_equal(name, "References") {
            Ok(EdgeKindText::References)
        } else {
            Err(unknown_variant("EdgeKindText", name))
        }
    }
}

/// Reading back a bare enum's name gives the enum.
pub proof fn lemma_bare_enum_names_round_trip(kind: ItemKindText, status: ItemStatusText, edge: EdgeKindText)
    ensures
        item_kind_named(item_kind_name(kind)) == Some(kind),
        item_status_named(item_status_name(status)) == Some(status),
        edge_kind_named(edge_kind_name(edge)) == Some(edge),
{
    reveal_strlit("Task");
    assert("Task"@.len() == 4 && "Task"@[0] == 'T');
    reveal_strlit("Defect");
    assert("Defect"@.len() == 6 && "Defect"@[0] == 'D');
    reveal_strlit("Question");
    assert("Question"@.len() == 8 && "Question"@[0] == 'Q');
    reveal_strlit("Decision");
    assert("Decision"@.len() == 8 && "Decision"@[0] == 'D');
    reveal_strlit("Note");
    assert("Note"@.len() == 4 && "Note"@[0] == 'N');
    reveal_strlit("Handoff");
    assert("Handoff"@.len() == 7 && "Handoff"@[0] == 'H');
    reveal_strlit("Open");
    assert("Open"@.len() == 4 && "Open"@[0] == 'O');
    reveal_strlit("InProgress");
    assert("InProgress"@.len() == 10 && "InProgress"@[0] == 'I');
    reveal_strlit("Blocked");
    assert("Blocked"@.len() == 7 && "Blocked"@[0] == 'B');
    reveal_strlit("Closed");
    assert("Closed"@.len() == 6 && "Closed"@[0] == 'C');
    reveal_strlit("Deferred");
    assert("Deferred"@.len() == 8 && "Deferred"@[0] == 'D');
    reveal_strlit("DependsOn");
    assert("DependsOn"@.len() == 9 && "DependsOn"@[0] == 'D');
    reveal_strlit("ParentOf");
    assert("ParentOf"@.len() == 8 && "ParentOf"@[0] == 'P');
    reveal_strlit("RelatesTo");
    assert("RelatesTo"@.len() == 9 && "RelatesTo"@[0] == 'R');
    reveal_strlit("Duplicates");
    assert("Duplicates"@.len() == 10 && "Duplicates"@[0] == 'D');
    reveal_strlit("Supersedes");
    assert("Supersedes"@.len() == 10 && "Supersedes"@[0] == 'S');
    reveal_strlit("Answers");
    assert("Answers"@.len() == 7 && "Answers"@[0] == 'A');
    reveal_strlit("References");
    assert("References"@.len() == 10 && "References"@[0] == 'R');
}

/// Each bare enum variant is written as its own name, and that name reads
/// back as that variant; any other text names none of them.
pub proof fn law_bare_enum_variants_are_written_by_name(text: Seq<char>)
    ensures
        item_kind_name(ItemKindText::Task) == "Task"@ && item_kind_named("Task"@) == Some(ItemKindText::Task),
        item_kind_name(ItemKindText::Defect) == "Defect"@ && item_kind_named("Defect"@) == Some(ItemKindText::Defect),
        item_kind_name(ItemKindText::Question) == "Question"@ && item_kind_named("Question"@) == Some(ItemKindText::Question),
        item_kind_name(ItemKindText::Decision) == "Decision"@ && item_kind_named("Decision"@) == Some(ItemKindText::Decision),
        item_kind_name(ItemKindText::Note) == "Note"@ && item_kind_named("Note"@) == Some(ItemKindText::Note),
        item_kind_name(ItemKindText::Handoff) == "Handoff"@ && item_kind_named("Handoff"@) == Some(ItemKindText::Handoff),
        item_status_name(ItemStatusText::Open) == "Open"@ && item_status_named("Open"@) == Some(ItemStatusText::Open),
        item_status_name(ItemStatusText::InProgress) == "InProgress"@ && item_status_named("InProgress"@) == Some(ItemStatusText::InProgress),
        item_status_name(ItemStatusText::Blocked) == "Blocked"@ && item_status_named("Blocked"@) == Some(ItemStatusText::Blocked),
        item_status_name(ItemStatusText::Closed) == "Closed"@ && item_status_named("Closed"@) == Some(ItemStatusText::Closed),
        item_status_name(ItemStatusText::Deferred) == "Deferred"@ && item_status_named("Deferred"@) == Some(ItemStatusText::Deferred),
        edge_kind_name(EdgeKindText::DependsOn) == "DependsOn"@ && edge_kind_named("DependsOn"@) == Some(EdgeKindText::DependsOn),
        edge_kind_name(EdgeKindText::ParentOf) == "ParentOf"@ && edge_kind_named("ParentOf"@) == Some(EdgeKindText::ParentOf),
        edge_kind_name(EdgeKindText::RelatesTo) == "RelatesTo"@ && edge_kind_named("RelatesTo"@) == Some(EdgeKindText::RelatesTo),
        edge_kind_name(EdgeKindText::Duplicates) == "Duplicates"@ && edge_kind_named("Duplicates"@) == Some(EdgeKindText::Duplicates),
        edge_kind_name(EdgeKindText::Supersedes) == "Supersedes"@ && edge_kind_named("Supersedes"@) == Some(EdgeKindText::Supersedes),
        edge_kind_name(EdgeKindText::Answers) == "Answers"@ && edge_kind_named("Answers"@) == Some(EdgeKindText::Answers),
        edge_kind_name(EdgeKindText::References) == "References"@ && edge_kind_named("References"@) == Some(EdgeKindText::References),
        item_kind_named(text) is Some <==> (text == "Task"@ || text == "Defect"@ || text == "Question"@
            || text == "Decision"@ || text == "Note"@ || text == "Handoff"@),
        item_status_named(text) is Some <==> (text == "Open"@ || text == "InProgress"@ || text == "Blocked"@
            || text == "Closed"@ || text == "Deferred"@),
        edge_kind_named(text) is Some <==> (text == "DependsOn"@ || text == "ParentOf"@ || text == "RelatesTo"@
            || text == "Duplicates"@ || text == "Supersedes"@ || text == "Answers"@ || text == "References"@),
{
    reveal_strlit("Task");
    assert("Task"@.len() == 4 && "Task"@[0] == 'T');
    reveal_strlit("Defect");
    assert("Defect"@.len() == 6 && "Defect"@[0] == 'D');
    reveal_strlit("Question");
    assert("Question"@.len() == 8 && "Question"@[0] == 'Q');
    reveal_strlit("Decision");
    assert("Decision"@.len() == 8 && "Decision"@[0] == 'D');
    reveal_strlit("Note");
    assert("Note"@.len() == 4 && "Note"@[0] == 'N');
    reveal_strlit("Handoff");
    assert("Handoff"@.len() == 7 && "Handoff"@[0] == 'H');
    reveal_strlit("Open");
    assert("Open"@.len() == 4 && "Open"@[0] == 'O');
    reveal_strlit("InProgress");
    assert("InProgress"@.len() == 10 && "InProgress"@[0] == 'I');
    reveal_strlit("Blocked");
    assert("Blocked"@.len() == 7 && "Blocked"@[0] == 'B');
    reveal_strlit("Closed");
    assert("Closed"@.len() == 6 && "Closed"@[0] == 'C');
    reveal_strlit("Deferred");
    assert("Deferred"@.len() == 8 && "Deferred"@[0] == 'D');
    reveal_strlit("DependsOn");
    assert("DependsOn"@.len() == 9 && "DependsOn"@[0] == 'D');
    reveal_strlit("ParentOf");
    assert("ParentOf"@.len() == 8 && "ParentOf"@[0] == 'P');
    reveal_strlit("RelatesTo");
    assert("RelatesTo"@.len() == 9 && "RelatesTo"@[0] == 'R');
    reveal_strlit("Duplicates");
    assert("Duplicates"@.len() == 10 && "Duplicates"@[0] == 'D');
    reveal_strlit("Supersedes");
    assert("Supersedes"@.len() == 10 && "Supersedes"@[0] == 'S');
    reveal_strlit("Answers");
    assert("Answers"@.len() == 7 && "Answers"@[0] == 'A');
    reveal_strlit("References");
    assert("References"@.len() == 10 && "References"@[0] == 'R');
    assert("Decision"@[2] == 'c' && "Defect"@[2] == 'f');
    assert("Duplicates"@[1] == 'u' && "DependsOn"@[1] == 'e');
    assert("Supersedes"@[0] == 'S' && "References"@[0] == 'R');
}

// ---------------------------------------------------------------------------
// Records.

#[derive(Debug)]
pub struct Stable {
    pub id: String,
}

#[derive(Debug)]
pub struct Display {
    pub id: String,
}

#[derive(Debug)]
pub struct Alias {
    pub alias: String,
}

/// How a request names a work item: by stable identifier, by display
/// identifier, or by an external alias.
#[derive(Debug)]
pub enum ItemReferenceText {
    Stable(Stable),
    Display(Display),
    Alias(Alias),
}

#[derive(Debug)]
pub struct ItemReferenceTarget {
    pub item: ItemReferenceText,
}

#[derive(Debug)]
pub struct Report {
    pub path: String,
}

#[derive(Debug)]
pub struct GitCommit {
    pub hash: String,
}

#[derive(Debug)]
pub struct BeadsTask {
    pub token: String,
}

#[derive(Debug)]
pub struct File {
    pub path: String,
}

/// What a link request points at: another item or an external reference.
#[derive(Debug)]
pub enum LinkTargetText {
    ItemReferenceTarget(ItemReferenceTarget),
    Report(Report),
    GitCommit(GitCommit),
    BeadsTask(BeadsTask),
    File(File),
}

/// A new work item to open.  `priority` is the name of its magnitude as
/// written; the names themselves belong to the wire contract, which checks
/// them when the request is handed to it.
#[derive(Debug)]
pub struct Opening {
    pub kind: ItemKindText,
    pub priority: String,
    pub title: String,
    pub body: String,
}

#[derive(Debug)]
pub struct NoteSubmission {
    pub item: ItemReferenceText,
    pub body: String,
}

#[derive(Debug)]
pub struct Link {
    pub source: ItemReferenceText,
    pub kind: EdgeKindText,
    pub target: LinkTargetText,
    pub body: Option<String>,
}

#[derive(Debug)]
pub struct StatusChange {
    pub item: ItemReferenceText,
    pub status: ItemStatusText,
    pub body: Option<String>,
}

#[derive(Debug)]
pub struct AliasAssignment {
    pub item: ItemReferenceText,
    pub alias: String,
}

#[derive(Debug, Clone, Copy, PartialEq, Eq, Structural)]
pub struct Ready {}

#[derive(Debug, Clone, Copy, PartialEq, Eq, Structural)]
pub struct Blocked {}

#[derive(Debug, Clone, Copy, PartialEq, Eq, Structural)]
pub struct Open {}

#[derive(Debug, Clone, Copy, PartialEq, Eq, Structural)]
pub struct RecentEvents {}

#[derive(Debug)]
pub struct ByItem {
    pub item: ItemReferenceText,
}

#[derive(Debug, Clone, Copy, PartialEq, Eq, Structural)]
pub struct ByKind {
    pub kind: ItemKindText,
}

#[derive(Debug, Clone, Copy, PartialEq, Eq, Structural)]
pub struct ByStatus {
    pub status: ItemStatusText,
}

#[derive(Debug)]
pub struct ByAlias {
    pub alias: String,
}

/// Which work items a query asks for.
#[derive(Debug)]
pub enum QueryKindText {
    Ready(Ready),
    Blocked(Blocked),
    Open(Open),
    RecentEvents(RecentEvents),
    ByItem(ByItem),
    ByKind(ByKind),
    ByStatus(ByStatus),
    ByAlias(ByAlias),
}

/// A query for work items, with the most records it may return.
#[derive(Debug)]
pub struct Query {
    pub kind: QueryKindText,
    pub limit: u16,
}

/// A request to mind in its text form.
#[derive(Debug)]
pub enum MindTextRequest {
    Opening(Opening),
    NoteSubmission(NoteSubmission),
    Link(Link),
    StatusChange(StatusChange),
    AliasAssignment(AliasAssignment),
    Query(Query),
}

#[derive(Debug)]
pub struct Note {
    pub event: u64,
    pub item: String,
    pub author: String,
    pub body: String,
}

#[derive(Debug)]
pub struct ItemTarget {
    pub id: String,
}

/// What a stored edge points at.
#[derive(Debug)]
pub enum EdgeTargetText {
    ItemTarget(ItemTarget),
    Report(Report),
    GitCommit(GitCommit),
    BeadsTask(BeadsTask),
    File(File),
}

#[derive(Debug)]
pub struct Edge {
    pub event: u64,
    pub source: String,
    pub kind: EdgeKindText,
    pub target: EdgeTargetText,
    pub body: Option<String>,
}

#[derive(Debug)]
pub struct EventHeader {
    pub event: u64,
    pub operation: String,
    pub actor: String,
}

#[derive(Debug)]
pub struct NoteAddedEvent {
    pub header: EventHeader,
    pub note: Note,
}

#[derive(Debug)]
pub struct EdgeAddedEvent {
    pub header: EventHeader,
    pub edge: Edge,
}

#[derive(Debug)]
pub struct StatusChangedEvent {
    pub header: EventHeader,
    pub item: String,
    pub status: ItemStatusText,
    pub body: Option<String>,
}

#[derive(Debug)]
pub struct AliasAddedEvent {
    pub header: EventHeader,
    pub item: String,
    pub alias: String,
}

#[derive(Debug)]
pub struct NoteReceipt {
    pub event: NoteAddedEvent,
}

#[derive(Debug)]
pub struct LinkReceipt {
    pub event: EdgeAddedEvent,
}

#[derive(Debug)]
pub struct StatusReceipt {
    pub event: StatusChangedEvent,
}

#[derive(Debug)]
pub struct AliasReceipt {
    pub event: AliasAddedEvent,
}

#[derive(Debug, Clone, Copy, PartialEq, Eq, Structural)]
pub enum RejectionReasonText {
    UnknownItem,
    DuplicateAlias,
    InvalidEdge,
    PersistenceRejected,
    UnsupportedQuery,
    CollisionUnresolved,
}

#[derive(Debug, Clone, Copy, PartialEq, Eq, Structural)]
pub struct Rejection {
    pub reason: RejectionReasonText,
}

/// An optional string field: the string, or the atom `None`.
#[derive(Debug)]
pub struct TextOptionalString {
    pub value: Option<String>,
}

impl TextOptionalString {
    pub fn from_option(value: &Option<String>) -> (text: Self)
        ensures
            text.value == *value,
    {
        Self {
            value: match value {
                Some(s) => Some(s.clone()),
                None => None,
            },
        }
    }

    pub fn into_inner(self) -> (value: Option<String>)
        ensures
            value == self.value,
    {
        self.value
    }

    /// Reads an optional string from its atom: `None` is the absent value.
    pub fn from_atom(atom: String) -> (text: Self)
        ensures
            atom@ == "None"@ ==> text.value is None,
            atom@ != "None"@ ==> text.value == Some(atom),
    {
        if str_equal(atom.as_str(), "None") {
            Self { value: None }
        } else {
            Self { value: Some(atom) }
        }
    }
}

/// A variant record being written: its head and its already written fields.
#[derive(Debug)]
pub struct TextVariantEncoding {
    pub variant: &'static str,
    pub fields: Vec<String>,
}

impl TextVariantEncoding {
    pub fn new(variant: &'static str, fields: Vec<String>) -> (encoding: Self)
        ensures
            encoding.variant == variant,
            encoding.fields == fields,
    {
        Self { variant, fields }
    }
}

} // verus!
