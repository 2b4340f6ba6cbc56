//! Admission of new graph records: the checks a submission must pass before
//! the store mints it an identifier and commits it.
//!
//! Checks that read the contract's own vocabulary (whether a stable key is in
//! canonical form, which node kind a key's prefix names, whether a body fits a
//! kind, which endpoint kinds a relation kind allows) are decided by the
//! contract; their outcomes are inputs here, and this module fixes the order
//! in which they apply and the answer each one gives.

use vstd::prelude::*;

use crate::compact_id::{compact_text, lemma_compact_text_injective, lemma_compact_text_shape, CompactGraphIdentifier};
use crate::records::{Relation, RelationKind, TechnicalNode, TechnicalNodeBody, TechnicalRelation, TechnicalRelationEndpoint, Thought};

verus! {

/// The identifier minted for the next record, from the store's next
/// (one-based) snapshot number.
pub fn next_graph_token(next_snapshot: u64) -> (token: String)
    ensures
        token@ == compact_text(if next_snapshot == 0 { 0 } else { (next_snapshot - 1) as nat }),
{
    CompactGraphIdentifier::from_one_based_sequence(next_snapshot).into_string()
}

/// Tokens minted from two different snapshot numbers differ, and each is at
/// least three lowercase letters with no type prefix: a growing snapshot
/// sequence never mints the same identifier twice, across reopens too.
pub proof fn law_graph_tokens_never_collide(first: u64, second: u64)
    requires
        1 <= first,
        1 <= second,
        first != second,
    ensures
        compact_text((first - 1) as nat) != compact_text((second - 1) as nat),
        compact_text((first - 1) as nat).len() >= 3,
        forall|i: int|
            0 <= i < compact_text((first - 1) as nat).len() ==> 'a' <= #[trigger] compact_text((first - 1) as nat)[i]
                <= 'z',
{
    lemma_compact_text_shape((first - 1) as nat);
    if compact_text((first - 1) as nat) == compact_text((second - 1) as nat) {
        lemma_compact_text_injective((first - 1) as nat, (second - 1) as nat);
    }
}

/// Why a thought or relation submission failed.
#[derive(Debug)]
pub enum GraphAdmissionError {
    /// The submission declared one thought kind and carried a body of another.
    ThoughtKindMismatch { declared: u64, actual: u64 },
    /// A relation endpoint names no stored thought.
    MissingRecord { record: String },
    /// The relation kind does not allow the kinds of its endpoint thoughts.
    RelationKindMismatch(RelationKindMismatch),
}

/// A relation kind and the endpoint thought kinds that it does not allow.
#[derive(Debug, Clone, Copy, PartialEq, Eq, Structural)]
pub struct RelationKindMismatch {
    pub relation_kind: RelationKind,
    pub source_kind: u64,
    pub target_kind: u64,
}

/// A relation submission whose endpoints resolved: the contract's verdict on
/// whether the relation kind allows the endpoint kinds (`endpoint_check`)
/// decides.
pub fn check_relation_kind(endpoint_check: Result<(), RelationKindMismatch>) -> (checked: Result<(), GraphAdmissionError>)
    ensures
        match endpoint_check {
            Ok(()) => checked is Ok,
            Err(mismatch) => checked == Err::<(), GraphAdmissionError>(GraphAdmissionError::RelationKindMismatch(mismatch)),
        },
{
    match endpoint_check {
        Ok(()) => Ok(()),
        Err(mismatch) => Err(GraphAdmissionError::RelationKindMismatch(mismatch)),
    }
}

/// A thought submission: the declared kind and the kind of the body it
/// carries.
pub fn check_thought_kind(declared: u64, actual: u64) -> (checked: Result<(), GraphAdmissionError>)
    ensures
        declared == actual <==> checked is Ok,
        checked matches Err(error) ==> error == (GraphAdmissionError::ThoughtKindMismatch { declared, actual }),
{
    if declared != actual {
        return Err(GraphAdmissionError::ThoughtKindMismatch { declared, actual });
    }
    Ok(())
}

/// The thought that a checked submission commits as.
pub fn committed_thought(id: String, kind: u64, body: String, author: String, occurred_at: u64) -> (thought: Thought)
    ensures
        thought == (Thought { id, kind, body, author, occurred_at }),
{
    Thought { id, kind, body, author, occurred_at }
}

/// The position of the first stored thought with identifier `id`.
pub open spec fn thought_position(thoughts: Seq<Thought>, id: Seq<char>) -> Option<int> {
    if exists|i: int| 0 <= i < thoughts.len() && (#[trigger] thoughts[i]).id@ == id {
        Some(
            choose|i: int|
                0 <= i < thoughts.len() && (#[trigger] thoughts[i]).id@ == id && forall|k: int|
                    0 <= k < i ==> (#[trigger] thoughts[k]).id@ != id,
        )
    } else {
        None
    }
}

/// Reads a stored thought by identifier.
pub fn find_thought(thoughts: &Vec<Thought>, id: &String) -> (found: Result<usize, GraphAdmissionError>)
    ensures
        match thought_position(thoughts@, id@) {
            Some(i) => found == Ok::<usize, GraphAdmissionError>(i as usize),
            None => found == Err::<usize, GraphAdmissionError>(GraphAdmissionError::MissingRecord { record: *id }),
        },
{
    let mut index: usize = 0;
    while index < thoughts.len()
        invariant
            index <= thoughts@.len(),
            forall|k: int| 0 <= k < index ==> (#[trigger] thoughts@[k]).id@ != id@,
        decreases thoughts@.len() - index,
    {
        if thoughts[index].id == *id {
            proof {
                let chosen = choose|i: int|
                    0 <= i < thoughts@.len() && (#[trigger] thoughts@[i]).id@ == id@ && forall|k: int|
                        0 <= k < i ==> (#[trigger] thoughts@[k]).id@ != id@;
                assert(thoughts@[index as int].id@ == id@);
                if chosen < index {
                    assert(thoughts@[chosen].id@ != id@);
                } else if chosen > index {
                    assert(thoughts@[index as int].id@ != id@);
                }
            }
            return Ok(index);
        }
        index = index + 1;
    }
    Err(GraphAdmissionError::MissingRecord { record: id.clone() })
}

/// Both endpoints of a relation submission, source first: the positions of
/// the stored thoughts, or the first endpoint that names none.
pub fn resolve_relation_endpoints(thoughts: &Vec<Thought>, source: &String, target: &String) -> (endpoints: Result<(usize, usize), GraphAdmissionError>)
    ensures
        match (thought_position(thoughts@, source@), thought_position(thoughts@, target@)) {
            (Some(s), Some(t)) => endpoints == Ok::<(usize, usize), GraphAdmissionError>((s as usize, t as usize)),
            (None, _) => endpoints == Err::<(usize, usize), GraphAdmissionError>(GraphAdmissionError::MissingRecord { record: *source }),
            (Some(_), None) => endpoints == Err::<(usize, usize), GraphAdmissionError>(GraphAdmissionError::MissingRecord { record: *target }),
        },
{
    let source_index = find_thought(thoughts, source)?;
    let target_index = find_thought(thoughts, target)?;
    Ok((source_index, target_index))
}

/// The relation that a checked submission commits as.
pub fn committed_relation(
    id: String,
    kind: RelationKind,
    source: String,
    target: String,
    author: String,
    occurred_at: u64,
    note: Option<String>,
) -> (relation: Relation)
    ensures
        relation == (Relation { id, kind, source, target, author, occurred_at, note }),
{
    Relation { id, kind, source, target, author, occurred_at, note }
}

/// A declared node kind that does not fit.
#[derive(Debug, Clone, Copy, PartialEq, Eq, Structural)]
pub struct TechnicalNodeKindMismatch {
    pub expected_kind: u64,
    pub got_body_kind: u64,
}

/// Endpoint kinds that a relation kind does not allow.
#[derive(Debug, Clone, Copy, PartialEq, Eq, Structural)]
pub struct TechnicalEndpointKindMismatch {
    pub relation_kind: u64,
    pub source_kind: u64,
    pub target_kind: u64,
}

#[derive(Debug)]
pub enum TechnicalNodeRejectionReason {
    /// The stable key is not in canonical form; the text is the contract's
    /// account of why.
    InvalidStableNodeKey(String),
    KindBodyMismatch(TechnicalNodeKindMismatch),
    DuplicateStableNodeKey(String),
    PersistenceRejected,
}

#[derive(Debug)]
pub enum TechnicalRelationRejectionReason {
    MissingEndpoint(String),
    DomainRangeViolation(TechnicalEndpointKindMismatch),
    DuplicateRelation,
    PersistenceRejected,
}

/// Whether a stored node already has the stable key.
pub open spec fn stable_key_taken(nodes: Seq<TechnicalNode>, key: Seq<char>) -> bool {
    exists|i: int| 0 <= i < nodes.len() && (#[trigger] nodes[i]).stable_key@ == key
}

pub fn stable_key_in_use(nodes: &Vec<TechnicalNode>, key: &String) -> (taken: bool)
    ensures
        taken == stable_key_taken(nodes@, key@),
{
    let mut index: usize = 0;
    while index < nodes.len()
        invariant
            index <= nodes@.len(),
            forall|k: int| 0 <= k < index ==> (#[trigger] nodes@[k]).stable_key@ != key@,
        decreases nodes@.len() - index,
    {
        if nodes[index].stable_key == *key {
            return true;
        }
        index = index + 1;
    }
    false
}

/// Checks a technical node submission, in order: the stable key must be
/// canonical (`key_check`), the declared kind must be the one the key names
/// (`expected_kind`), the body must fit the kind (`body_check`), and no stored
/// node may have the key.
pub fn check_technical_node(
    stable_key: &String,
    kind: u64,
    key_check: Result<(), String>,
    expected_kind: u64,
    body_check: Result<(), TechnicalNodeKindMismatch>,
    existing: &Vec<TechnicalNode>,
) -> (checked: Result<(), TechnicalNodeRejectionReason>)
    ensures
        match key_check {
            Err(why) => checked == Err::<(), TechnicalNodeRejectionReason>(
                TechnicalNodeRejectionReason::InvalidStableNodeKey(why),
            ),
            Ok(()) => if kind != expected_kind {
                checked == Err::<(), TechnicalNodeRejectionReason>(TechnicalNodeRejectionReason::KindBodyMismatch(
                    TechnicalNodeKindMismatch { expected_kind, got_body_kind: kind },
                ))
            } else {
                match body_check {
                    Err(mismatch) => checked == Err::<(), TechnicalNodeRejectionReason>(
                        TechnicalNodeRejectionReason::KindBodyMismatch(mismatch),
                    ),
                    Ok(()) => if stable_key_taken(existing@, stable_key@) {
                        checked == Err::<(), TechnicalNodeRejectionReason>(
                            TechnicalNodeRejectionReason::DuplicateStableNodeKey(*stable_key),
                        )
                    } else {
                        checked is Ok
                    },
                }
            },
        },
{
    if let Err(why) = key_check {
        return Err(TechnicalNodeRejectionReason::InvalidStableNodeKey(why));
    }
    if kind != expected_kind {
        return Err(TechnicalNodeRejectionReason::KindBodyMismatch(TechnicalNodeKindMismatch { expected_kind, got_body_kind: kind }));
    }
    if let Err(mismatch) = body_check {
        return Err(TechnicalNodeRejectionReason::KindBodyMismatch(mismatch));
    }
    if stable_key_in_use(existing, stable_key) {
        return Err(TechnicalNodeRejectionReason::DuplicateStableNodeKey(stable_key.clone()));
    }
    Ok(())
}

/// The node that a checked submission commits as.
pub fn committed_technical_node(
    identifier: String,
    stable_key: String,
    kind: u64,
    body: TechnicalNodeBody,
    author: String,
    occurred_at: u64,
) -> (node: TechnicalNode)
    ensures
        node == (TechnicalNode { identifier, stable_key, kind, body, author, occurred_at }),
{
    TechnicalNode { identifier, stable_key, kind, body, author, occurred_at }
}

/// The position of the first stored node with the stable key.
pub open spec fn node_position(nodes: Seq<TechnicalNode>, key: Seq<char>) -> Option<int> {
    if stable_key_taken(nodes, key) {
        Some(
            choose|i: int|
                0 <= i < nodes.len() && (#[trigger] nodes[i]).stable_key@ == key && forall|k: int|
                    0 <= k < i ==> (#[trigger] nodes[k]).stable_key@ != key,
        )
    } else {
        None
    }
}

/// Reads a stored node by stable key; a key that is not canonical
/// (`key_valid` false) names no node.
pub fn find_technical_node(nodes: &Vec<TechnicalNode>, key: &String, key_valid: bool) -> (found: Option<usize>)
    ensures
        found == if key_valid {
            match node_position(nodes@, key@) {
                Some(i) => Some(i as usize),
                None => None::<usize>,
            }
        } else {
            None::<usize>
        },
{
    if !key_valid {
        return None;
    }
    let mut index: usize = 0;
    while index < nodes.len()
        invariant
            key_valid,
            index <= nodes@.len(),
            forall|k: int| 0 <= k < index ==> (#[trigger] nodes@[k]).stable_key@ != key@,
        decreases nodes@.len() - index,
    {
        if nodes[index].stable_key == *key {
            proof {
                let chosen = choose|i: int|
                    0 <= i < nodes@.len() && (#[trigger] nodes@[i]).stable_key@ == key@ && forall|k: int|
                        0 <= k < i ==> (#[trigger] nodes@[k]).stable_key@ != key@;
                assert(nodes@[index as int].stable_key@ == key@);
                assert(stable_key_taken(nodes@, key@));
                if chosen < index {
                    assert(nodes@[chosen].stable_key@ != key@);
                } else if chosen > index {
                    assert(nodes@[index as int].stable_key@ != key@);
                }
            }
            return Some(index);
        }
        index = index + 1;
    }
    None
}

/// Resolves both endpoints of a technical relation submission, source first.
pub fn resolve_technical_endpoints(
    nodes: &Vec<TechnicalNode>,
    source: &String,
    source_key_valid: bool,
    target: &String,
    target_key_valid: bool,
) -> (endpoints: Result<(usize, usize), TechnicalRelationRejectionReason>)
    ensures
        match (
            if source_key_valid { node_position(nodes@, source@) } else { None::<int> },
            if target_key_valid { node_position(nodes@, target@) } else { None::<int> },
        ) {
            (Some(s), Some(t)) => endpoints == Ok::<(usize, usize), TechnicalRelationRejectionReason>((s as usize, t as usize)),
            (None, _) => endpoints == Err::<(usize, usize), TechnicalRelationRejectionReason>(
                TechnicalRelationRejectionReason::MissingEndpoint(*source),
            ),
            (Some(_), None) => endpoints == Err::<(usize, usize), TechnicalRelationRejectionReason>(
                TechnicalRelationRejectionReason::MissingEndpoint(*target),
            ),
        },
{
    let source_index = match find_technical_node(nodes, source, source_key_valid) {
        Some(index) => index,
        None => return Err(TechnicalRelationRejectionReason::MissingEndpoint(source.clone())),
    };
    let target_index = match find_technical_node(nodes, target, target_key_valid) {
        Some(index) => index,
        None => return Err(TechnicalRelationRejectionReason::MissingEndpoint(target.clone())),
    };
    Ok((source_index, target_index))
}

/// Whether a stored technical relation already has this kind and these
/// endpoints.
pub open spec fn triple_taken(relations: Seq<TechnicalRelation>, kind: u64, source: Seq<char>, target: Seq<char>) -> bool {
    exists|i: int|
        0 <= i < relations.len() && (#[trigger] relations[i]).kind == kind
            && relations[i].source.stable_key@ == source && relations[i].target.stable_key@ == target
}

/// Checks a technical relation whose endpoints resolved: the endpoint kinds
/// must fit the relation kind (`endpoint_check`), and the same triple may not
/// be stored twice.
pub fn check_technical_relation(
    kind: u64,
    source: &String,
    target: &String,
    endpoint_check: Result<(), TechnicalEndpointKindMismatch>,
    relations: &Vec<TechnicalRelation>,
) -> (checked: Result<(), TechnicalRelationRejectionReason>)
    ensures
        match endpoint_check {
            Err(mismatch) => checked == Err::<(), TechnicalRelationRejectionReason>(
                TechnicalRelationRejectionReason::DomainRangeViolation(mismatch),
            ),
            Ok(()) => if triple_taken(relations@, kind, source@, target@) {
                checked == Err::<(), TechnicalRelationRejectionReason>(TechnicalRelationRejectionReason::DuplicateRelation)
            } else {
                checked is Ok
            },
        },
{
    if let Err(mismatch) = endpoint_check {
        return Err(TechnicalRelationRejectionReason::DomainRangeViolation(mismatch));
    }
    let mut index: usize = 0;
    while index < relations.len()
        invariant
            endpoint_check is Ok,
            index <= relations@.len(),
            forall|k: int|
                0 <= k < index ==> !((#[trigger] relations@[k]).kind == kind && relations@[k].source.stable_key@
                    == source@ && relations@[k].target.stable_key@ == target@),
        decreases relations@.len() - index,
    {
        let relation = &relations[index];
        if relation.kind == kind && relation.source.stable_key == *source && relation.target.stable_key == *target {
            return Err(TechnicalRelationRejectionReason::DuplicateRelation);
        }
        index = index + 1;
    }
    Ok(())
}

/// The relation that a checked submission commits as: its endpoints carry
/// the stored nodes' identifiers and stable keys.
pub fn committed_technical_relation(
    identifier: String,
    kind: u64,
    source: &TechnicalNode,
    target: &TechnicalNode,
    author: String,
    occurred_at: u64,
    note: Option<String>,
) -> (relation: TechnicalRelation)
    ensures
        relation == (TechnicalRelation {
            identifier,
            kind,
            source: TechnicalRelationEndpoint { identifier: source.identifier, stable_key: source.stable_key },
            target: TechnicalRelationEndpoint { identifier: target.identifier, stable_key: target.stable_key },
            author,
            occurred_at,
            note,
        }),
{
    TechnicalRelation {
        identifier,
        kind,
        source: TechnicalRelationEndpoint { identifier: source.identifier.clone(), stable_key: source.stable_key.clone() },
        target: TechnicalRelationEndpoint { identifier: target.identifier.clone(), stable_key: target.stable_key.clone() },
        author,
        occurred_at,
        note,
    }
}

} // verus!
