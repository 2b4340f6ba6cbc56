//! The typed graph records that mind stores and serves: thoughts and the
//! relations between them, technical nodes and the relations between those.
//! Each record carries, as plain values, the fields that selection, ordering
//! and admission read; identifiers are compact graph identifiers, times are
//! nanoseconds since the Unix epoch.

use vstd::prelude::*;

verus! {

/// The kind of a thought relation.  Only `Belongs` (membership in a goal or
/// memory) and `Supersedes` (correction) carry meaning for selection; every
/// other kind of the contract is carried by its contract tag.
#[derive(Debug, Clone, Copy, PartialEq, Eq, Structural)]
pub enum RelationKind {
    Belongs,
    Supersedes,
    Other(u64),
}

/// A typed thought.  `kind` is the contract's thought-kind tag; `body` is the
/// thought's content, which selection does not read.
#[derive(Debug)]
pub struct Thought {
    pub id: String,
    pub kind: u64,
    pub body: String,
    pub author: String,
    pub occurred_at: u64,
}

/// A typed relation between two thoughts.
#[derive(Debug)]
pub struct Relation {
    pub id: String,
    pub kind: RelationKind,
    pub source: String,
    pub target: String,
    pub author: String,
    pub occurred_at: u64,
    pub note: Option<String>,
}

/// Where a technical artifact lives.  Report locators are the ones that a
/// report node also answers to; every other locator of the contract is carried
/// by its tag and text.
#[derive(Debug)]
pub enum TechnicalSourceLocator {
    Report(String),
    Other { tag: u64, text: String },
}

/// The part of a technical node's body that source-locator selection reads.
#[derive(Debug)]
pub enum TechnicalNodeBody {
    SourceArtifact { locator: TechnicalSourceLocator },
    Witness { witness_locator: Option<TechnicalSourceLocator> },
    Report { path: String },
    Other,
}

/// A technical memory node, addressed by its stable key (such as
/// `component:mind`).
#[derive(Debug)]
pub struct TechnicalNode {
    pub identifier: String,
    pub stable_key: String,
    pub kind: u64,
    pub body: TechnicalNodeBody,
    pub author: String,
    pub occurred_at: u64,
}

/// One end of a technical relation.
#[derive(Debug)]
pub struct TechnicalRelationEndpoint {
    pub identifier: String,
    pub stable_key: String,
}

/// A typed relation between two technical nodes.
#[derive(Debug)]
pub struct TechnicalRelation {
    pub identifier: String,
    pub kind: u64,
    pub source: TechnicalRelationEndpoint,
    pub target: TechnicalRelationEndpoint,
    pub author: String,
    pub occurred_at: u64,
    pub note: Option<String>,
}

/// Equality of locators, by value.
pub open spec fn same_locator(a: TechnicalSourceLocator, b: TechnicalSourceLocator) -> bool {
    match (a, b) {
        (TechnicalSourceLocator::Report(x), TechnicalSourceLocator::Report(y)) => x@ == y@,
        (
            TechnicalSourceLocator::Other { tag: ta, text: xa },
            TechnicalSourceLocator::Other { tag: tb, text: xb },
        ) => ta == tb && xa@ == xb@,
        _ => false,
    }
}

pub fn locators_equal(a: &TechnicalSourceLocator, b: &TechnicalSourceLocator) -> (equal: bool)
    ensures
        equal == same_locator(*a, *b),
{
    match (a, b) {
        (TechnicalSourceLocator::Report(x), TechnicalSourceLocator::Report(y)) => *x == *y,
        (
            TechnicalSourceLocator::Other { tag: ta, text: xa },
            TechnicalSourceLocator::Other { tag: tb, text: xb },
        ) => *ta == *tb && *xa == *xb,
        _ => false,
    }
}

pub fn option_string_copy(value: &Option<String>) -> (copy: Option<String>)
    ensures
        copy == *value,
{
    match value {
        Some(text) => Some(text.clone()),
        None => None,
    }
}

impl TechnicalSourceLocator {
    pub fn duplicate(&self) -> (copy: Self)
        ensures
            copy == *self,
    {
        match self {
            TechnicalSourceLocator::Report(path) => TechnicalSourceLocator::Report(path.clone()),
            TechnicalSourceLocator::Other { tag, text } => TechnicalSourceLocator::Other {
                tag: *tag,
                text: text.clone(),
            },
        }
    }
}

impl TechnicalNodeBody {
    pub fn duplicate(&self) -> (copy: Self)
        ensures
            copy == *self,
    {
        match self {
            TechnicalNodeBody::SourceArtifact { locator } => TechnicalNodeBody::SourceArtifact {
                locator: locator.duplicate(),
            },
            TechnicalNodeBody::Witness { witness_locator } => TechnicalNodeBody::Witness {
                witness_locator: match witness_locator {
                    Some(l) => Some(l.duplicate()),
                    None => None,
                },
            },
            TechnicalNodeBody::Report { path } => TechnicalNodeBody::Report { path: path.clone() },
            TechnicalNodeBody::Other => TechnicalNodeBody::Other,
        }
    }
}

impl Thought {
    pub fn duplicate(&self) -> (copy: Self)
        ensures
            copy == *self,
    {
        Thought {
            id: self.id.clone(),
            kind: self.kind,
            body: self.body.clone(),
            author: self.author.clone(),
            occurred_at: self.occurred_at,
        }
    }
}

impl Relation {
    pub fn duplicate(&self) -> (copy: Self)
        ensures
            copy == *self,
    {
        Relation {
            id: self.id.clone(),
            kind: self.kind,
            source: self.source.clone(),
            target: self.target.clone(),
            author: self.author.clone(),
            occurred_at: self.occurred_at,
            note: option_string_copy(&self.note),
        }
    }
}

impl TechnicalRelationEndpoint {
    pub fn duplicate(&self) -> (copy: Self)
        ensures
            copy == *self,
    {
        TechnicalRelationEndpoint {
            identifier: self.identifier.clone(),
            stable_key: self.stable_key.clone(),
        }
    }
}

impl TechnicalNode {
    pub fn duplicate(&self) -> (copy: Self)
        ensures
            copy == *self,
    {
        TechnicalNode {
            identifier: self.identifier.clone(),
            stable_key: self.stable_key.clone(),
            kind: self.kind,
            body: self.body.duplicate(),
            author: self.author.clone(),
            occurred_at: self.occurred_at,
        }
    }
}

impl TechnicalRelation {
    pub fn duplicate(&self) -> (copy: Self)
        ensures
            copy == *self,
    {
        TechnicalRelation {
            identifier: self.identifier.clone(),
            kind: self.kind,
            source: self.source.duplicate(),
            target: self.target.duplicate(),
            author: self.author.clone(),
            occurred_at: self.occurred_at,
            note: option_string_copy(&self.note),
        }
    }
}

/// A record with the commit time by which query results are ordered.
pub trait GraphRecord: Sized {
    spec fn time(&self) -> u64;

    fn occurred_at_time(&self) -> (time: u64)
        ensures
            time == self.time(),
    ;
}

impl GraphRecord for Thought {
    open spec fn time(&self) -> u64 {
        self.occurred_at
    }

    fn occurred_at_time(&self) -> (time: u64) {
        self.occurred_at
    }
}

impl GraphRecord for Relation {
    open spec fn time(&self) -> u64 {
        self.occurred_at
    }

    fn occurred_at_time(&self) -> (time: u64) {
        self.occurred_at
    }
}

impl GraphRecord for TechnicalNode {
    open spec fn time(&self) -> u64 {
        self.occurred_at
    }

    fn occurred_at_time(&self) -> (time: u64) {
        self.occurred_at
    }
}

impl GraphRecord for TechnicalRelation {
    open spec fn time(&self) -> u64 {
        self.occurred_at
    }

    fn occurred_at_time(&self) -> (time: u64) {
        self.occurred_at
    }
}

} // verus!
