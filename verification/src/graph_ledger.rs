//! The graph records of one store and the snapshot counter it keeps across
//! reopens.  Every record's identifier is minted from the next snapshot
//! number, after the record's checks pass: a failed check mints nothing, and
//! because the counter only grows, and is restored on reopen, no identifier is
//! minted twice.

use vstd::prelude::*;

use crate::compact_id::{compact_text, lemma_compact_text_injective};
use crate::graph_admission::{
    check_relation_kind, check_technical_node, check_technical_relation, check_thought_kind, committed_relation,
    committed_technical_node, committed_technical_relation, committed_thought, resolve_relation_endpoints,
    stable_key_taken, thought_position, triple_taken, GraphAdmissionError,
    RelationKindMismatch, TechnicalEndpointKindMismatch, TechnicalNodeKindMismatch, TechnicalNodeRejectionReason,
    TechnicalRelationRejectionReason,
};
use crate::records::{
    Relation, RelationKind, TechnicalNode, TechnicalNodeBody, TechnicalRelation, TechnicalRelationEndpoint, Thought,
};

verus! {

/// Whether `id` is the identifier minted for one of the snapshots `1` to
/// `snapshots`.
pub open spec fn minted_for_snapshot_up_to(snapshots: u64, id: Seq<char>) -> bool {
    exists|snapshot: nat| 1 <= snapshot <= snapshots && id == #[trigger] compact_text((snapshot - 1) as nat)
}

/// Whether `identifiers` could have been minted by a counter now at
/// `snapshots`: each from a snapshot it has passed, no two alike.
pub open spec fn identifiers_minted_by(snapshots: u64, identifiers: Seq<String>) -> bool {
    &&& forall|i: int| 0 <= i < identifiers.len() ==> minted_for_snapshot_up_to(snapshots, #[trigger] identifiers[i]@)
    &&& forall|i: int, j: int|
        0 <= i < j < identifiers.len() ==> #[trigger] identifiers[i]@ != #[trigger] identifiers[j]@
}

/// The graph as the store keeps it on disk: the snapshot counter, every
/// identifier minted so far, and the thoughts and relations.
#[derive(Debug)]
pub struct StoredGraphLedger {
    pub snapshots: u64,
    pub identifiers: Vec<String>,
    pub thoughts: Vec<Thought>,
    pub relations: Vec<Relation>,
    pub technical_nodes: Vec<TechnicalNode>,
    pub technical_relations: Vec<TechnicalRelation>,
}

/// An open graph ledger.
#[derive(Debug)]
pub struct GraphLedger {
    snapshots: u64,
    identifiers: Vec<String>,
    thoughts: Vec<Thought>,
    relations: Vec<Relation>,
    technical_nodes: Vec<TechnicalNode>,
    technical_relations: Vec<TechnicalRelation>,
}

/// No two technical nodes share a stable key.
pub open spec fn technical_keys_distinct(nodes: Seq<TechnicalNode>) -> bool {
    forall|i: int, j: int|
        0 <= i < j < nodes.len() ==> #[trigger] nodes[i].stable_key@ != #[trigger] nodes[j].stable_key@
}

/// Why a technical node submission is refused, checked in order: a key not in
/// canonical form, a declared kind other than the key's, a body that does not
/// fit the kind, a key already stored; none when every check passes.
pub open spec fn technical_node_refusal(
    stable_key: String,
    kind: u64,
    key_check: Result<(), String>,
    expected_kind: u64,
    body_check: Result<(), TechnicalNodeKindMismatch>,
    existing: Seq<TechnicalNode>,
) -> Option<TechnicalNodeRejectionReason> {
    match key_check {
        Err(why) => Some(TechnicalNodeRejectionReason::InvalidStableNodeKey(why)),
        Ok(()) => if kind != expected_kind {
            Some(
                TechnicalNodeRejectionReason::KindBodyMismatch(
                    TechnicalNodeKindMismatch { expected_kind, got_body_kind: kind },
                ),
            )
        } else {
            match body_check {
                Err(mismatch) => Some(TechnicalNodeRejectionReason::KindBodyMismatch(mismatch)),
                Ok(()) => if stable_key_taken(existing, stable_key@) {
                    Some(TechnicalNodeRejectionReason::DuplicateStableNodeKey(stable_key))
                } else {
                    None
                },
            }
        },
    }
}

/// Why a technical relation submission is refused, checked in order: an
/// endpoint that names no stored node (or whose key is not canonical), endpoint
/// kinds the relation kind does not allow, a triple already stored; none
/// when every check passes.
pub open spec fn technical_relation_refusal(
    kind: u64,
    source: String,
    source_key_valid: bool,
    target: String,
    target_key_valid: bool,
    endpoint_check: Result<(), TechnicalEndpointKindMismatch>,
    nodes: Seq<TechnicalNode>,
    relations: Seq<TechnicalRelation>,
) -> Option<TechnicalRelationRejectionReason> {
    if !(source_key_valid && stable_key_taken(nodes, source@)) {
        Some(TechnicalRelationRejectionReason::MissingEndpoint(source))
    } else if !(target_key_valid && stable_key_taken(nodes, target@)) {
        Some(TechnicalRelationRejectionReason::MissingEndpoint(target))
    } else {
        match endpoint_check {
            Err(mismatch) => Some(TechnicalRelationRejectionReason::DomainRangeViolation(mismatch)),
            Ok(()) => if triple_taken(relations, kind, source@, target@) {
                Some(TechnicalRelationRejectionReason::DuplicateRelation)
            } else {
                None
            },
        }
    }
}

impl GraphLedger {
    pub closed spec fn snapshot_count(&self) -> u64 {
        self.snapshots
    }

    /// Every identifier minted so far, in minting order.
    pub closed spec fn minted(&self) -> Seq<String> {
        self.identifiers@
    }

    pub closed spec fn thought_seq(&self) -> Seq<Thought> {
        self.thoughts@
    }

    pub closed spec fn relation_seq(&self) -> Seq<Relation> {
        self.relations@
    }

    pub closed spec fn technical_node_seq(&self) -> Seq<TechnicalNode> {
        self.technical_nodes@
    }

    pub closed spec fn technical_relation_seq(&self) -> Seq<TechnicalRelation> {
        self.technical_relations@
    }

    /// The minted identifiers are those of passed snapshots, no two alike.
    pub open spec fn wf(&self) -> bool {
        &&& identifiers_minted_by(self.snapshot_count(), self.minted())
        &&& technical_keys_distinct(self.technical_node_seq())
    }

    /// An empty ledger at snapshot zero.
    pub fn new() -> (ledger: Self)
        ensures
            ledger.wf(),
            ledger.snapshot_count() == 0,
            ledger.minted().len() == 0,
            ledger.thought_seq().len() == 0,
            ledger.relation_seq().len() == 0,
            ledger.technical_node_seq().len() == 0,
            ledger.technical_relation_seq().len() == 0,
    {
        GraphLedger {
            snapshots: 0,
            identifiers: Vec::new(),
            thoughts: Vec::new(),
            relations: Vec::new(),
            technical_nodes: Vec::new(),
            technical_relations: Vec::new(),
        }
    }

    /// Reopens a stored ledger: the counter carries on from where it was.
    pub fn reopen(stored: StoredGraphLedger) -> (ledger: Self)
        requires
            identifiers_minted_by(stored.snapshots, stored.identifiers@),
            technical_keys_distinct(stored.technical_nodes@),
        ensures
            ledger.wf(),
            ledger.snapshot_count() == stored.snapshots,
            ledger.minted() == stored.identifiers@,
            ledger.thought_seq() == stored.thoughts@,
            ledger.relation_seq() == stored.relations@,
            ledger.technical_node_seq() == stored.technical_nodes@,
            ledger.technical_relation_seq() == stored.technical_relations@,
    {
        GraphLedger {
            snapshots: stored.snapshots,
            identifiers: stored.identifiers,
            thoughts: stored.thoughts,
            relations: stored.relations,
            technical_nodes: stored.technical_nodes,
            technical_relations: stored.technical_relations,
        }
    }

    /// Closes the ledger into what the store keeps.
    pub fn close(self) -> (stored: StoredGraphLedger)
        requires
            self.wf(),
        ensures
            identifiers_minted_by(stored.snapshots, stored.identifiers@),
            technical_keys_distinct(stored.technical_nodes@),
            stored.snapshots == self.snapshot_count(),
            stored.identifiers@ == self.minted(),
            stored.thoughts@ == self.thought_seq(),
            stored.relations@ == self.relation_seq(),
            stored.technical_nodes@ == self.technical_node_seq(),
            stored.technical_relations@ == self.technical_relation_seq(),
    {
        StoredGraphLedger {
            snapshots: self.snapshots,
            identifiers: self.identifiers,
            thoughts: self.thoughts,
            relations: self.relations,
            technical_nodes: self.technical_nodes,
            technical_relations: self.technical_relations,
        }
    }

    pub fn snapshots(&self) -> (snapshots: u64)
        ensures
            snapshots == self.snapshot_count(),
    {
        self.snapshots
    }

    pub fn thoughts(&self) -> (thoughts: &Vec<Thought>)
        ensures
            thoughts@ == self.thought_seq(),
    {
        &self.thoughts
    }

    pub fn relations(&self) -> (relations: &Vec<Relation>)
        ensures
            relations@ == self.relation_seq(),
    {
        &self.relations
    }

    pub fn technical_nodes(&self) -> (nodes: &Vec<TechnicalNode>)
        ensures
            nodes@ == self.technical_node_seq(),
    {
        &self.technical_nodes
    }

    pub fn technical_relations(&self) -> (relations: &Vec<TechnicalRelation>)
        ensures
            relations@ == self.technical_relation_seq(),
    {
        &self.technical_relations
    }

    /// Advances the counter and mints the identifier of the new snapshot.
    pub fn mint(&mut self) -> (id: String)
        requires
            old(self).wf(),
            old(self).snapshot_count() < u64::MAX,
        ensures
            final(self).wf(),
            final(self).snapshot_count() == old(self).snapshot_count() + 1,
            id@ == compact_text(old(self).snapshot_count() as nat),
            final(self).minted() == old(self).minted().push(id),
            final(self).thought_seq() == old(self).thought_seq(),
            final(self).relation_seq() == old(self).relation_seq(),
            final(self).technical_node_seq() == old(self).technical_node_seq(),
            final(self).technical_relation_seq() == old(self).technical_relation_seq(),
    {
        let ghost before = self.identifiers@;
        let ghost previous = self.snapshots;
        self.snapshots = self.snapshots + 1;
        let id = crate::graph_admission::next_graph_token(self.snapshots);
        proof {
            assert forall|i: int| 0 <= i < before.len() implies #[trigger] before[i]@ != id@ by {
                assert(minted_for_snapshot_up_to(previous, before[i]@));
                let snapshot = choose|snapshot: nat|
                    1 <= snapshot <= previous && before[i]@ == #[trigger] compact_text((snapshot - 1) as nat);
                if before[i]@ == id@ {
                    lemma_compact_text_injective((snapshot - 1) as nat, previous as nat);
                }
            }
        }
        self.identifiers.push(id.clone());
        proof {
            let after = self.identifiers@;
            assert forall|i: int| 0 <= i < after.len() implies minted_for_snapshot_up_to(
                self.snapshots,
                #[trigger] after[i]@,
            ) by {
                if i < before.len() {
                    assert(after[i] == before[i]);
                    assert(minted_for_snapshot_up_to(previous, before[i]@));
                    let snapshot = choose|snapshot: nat|
                        1 <= snapshot <= previous && before[i]@ == #[trigger] compact_text((snapshot - 1) as nat);
                    assert(1 <= snapshot <= self.snapshots);
                } else {
                    assert(after[i]@ == compact_text((self.snapshots - 1) as nat));
                }
            }
            assert forall|i: int, j: int| 0 <= i < j < after.len() implies #[trigger] after[i]@ != #[trigger] after[j]@ by {
                if j < before.len() {
                    assert(after[i] == before[i] && after[j] == before[j]);
                } else {
                    assert(after[i] == before[i]);
                    assert(after[j]@ == id@);
                }
            }
        }
        id
    }

    /// Appends a thought: its declared kind must be its body's kind; only then
    /// is an identifier minted.
    pub fn append_thought(
        &mut self,
        kind: u64,
        body_kind: u64,
        body: String,
        author: String,
        occurred_at: u64,
    ) -> (appended: Result<Thought, GraphAdmissionError>)
        requires
            old(self).wf(),
            old(self).snapshot_count() < u64::MAX,
        ensures
            final(self).wf(),
            match appended {
                Ok(thought) => {
                    &&& kind == body_kind
                    &&& thought.id@ == compact_text(old(self).snapshot_count() as nat)
                    &&& thought == (Thought { id: thought.id, kind, body, author, occurred_at })
                    &&& final(self).snapshot_count() == old(self).snapshot_count() + 1
                    &&& final(self).minted() == old(self).minted().push(thought.id)
                    &&& final(self).thought_seq() == old(self).thought_seq().push(thought)
                    &&& final(self).relation_seq() == old(self).relation_seq()
                    &&& final(self).technical_node_seq() == old(self).technical_node_seq()
                    &&& final(self).technical_relation_seq() == old(self).technical_relation_seq()
                },
                Err(error) => {
                    &&& kind != body_kind
                    &&& error == (GraphAdmissionError::ThoughtKindMismatch { declared: kind, actual: body_kind })
                    &&& *final(self) == *old(self)
                },
            },
    {
        match check_thought_kind(kind, body_kind) {
            Ok(()) => {},
            Err(error) => return Err(error),
        }
        let id = self.mint();
        let thought = committed_thought(id, kind, body, author, occurred_at);
        self.thoughts.push(thought.duplicate());
        Ok(thought)
    }

    /// Appends a relation between two stored thoughts: both ends must be
    /// stored and the contract must allow the relation kind between them
    /// (`endpoint_check`); only then is an identifier minted.
    pub fn append_relation(
        &mut self,
        kind: RelationKind,
        source: String,
        target: String,
        endpoint_check: Result<(), RelationKindMismatch>,
        author: String,
        occurred_at: u64,
        note: Option<String>,
    ) -> (appended: Result<Relation, GraphAdmissionError>)
        requires
            old(self).wf(),
            old(self).snapshot_count() < u64::MAX,
        ensures
            final(self).wf(),
            match appended {
                Ok(relation) => {
                    &&& thought_position(old(self).thought_seq(), source@) is Some
                    &&& thought_position(old(self).thought_seq(), target@) is Some
                    &&& endpoint_check is Ok
                    &&& relation.id@ == compact_text(old(self).snapshot_count() as nat)
                    &&& relation == (Relation { id: relation.id, kind, source, target, author, occurred_at, note })
                    &&& final(self).snapshot_count() == old(self).snapshot_count() + 1
                    &&& final(self).minted() == old(self).minted().push(relation.id)
                    &&& final(self).relation_seq() == old(self).relation_seq().push(relation)
                    &&& final(self).thought_seq() == old(self).thought_seq()
                    &&& final(self).technical_node_seq() == old(self).technical_node_seq()
                    &&& final(self).technical_relation_seq() == old(self).technical_relation_seq()
                },
                Err(error) => {
                    &&& *final(self) == *old(self)
                    &&& match (
                        thought_position(old(self).thought_seq(), source@),
                        thought_position(old(self).thought_seq(), target@),
                    ) {
                        (None, _) => error == GraphAdmissionError::MissingRecord { record: source },
                        (Some(_), None) => error == GraphAdmissionError::MissingRecord { record: target },
                        (Some(_), Some(_)) => endpoint_check matches Err(mismatch) && error
                            == GraphAdmissionError::RelationKindMismatch(mismatch),
                    }
                },
            },
    {
        match resolve_relation_endpoints(&self.thoughts, &source, &target) {
            Ok(_) => {},
            Err(error) => return Err(error),
        }
        match check_relation_kind(endpoint_check) {
            Ok(()) => {},
            Err(error) => return Err(error),
        }
        let id = self.mint();
        let relation = committed_relation(id, kind, source, target, author, occurred_at, note);
        self.relations.push(relation.duplicate());
        Ok(relation)
    }

    /// Where the node with stable key `key` is stored; a key that is not
    /// canonical (`key_valid` false) names none.
    fn stored_node_index(&self, key: &String, key_valid: bool) -> (index: Option<usize>)
        ensures
            match index {
                Some(i) => key_valid && i < self.technical_node_seq().len()
                    && self.technical_node_seq()[i as int].stable_key@ == key@,
                None => !(key_valid && stable_key_taken(self.technical_node_seq(), key@)),
            },
    {
        if !key_valid {
            return None;
        }
        let mut index: usize = 0;
        while index < self.technical_nodes.len()
            invariant
                key_valid,
                index <= self.technical_nodes@.len(),
                forall|k: int| 0 <= k < index ==> (#[trigger] self.technical_nodes@[k]).stable_key@ != key@,
            decreases self.technical_nodes@.len() - index,
        {
            if self.technical_nodes[index].stable_key == *key {
                return Some(index);
            }
            index = index + 1;
        }
        None
    }

    /// The kinds of the two nodes a technical relation would join, by their
    /// stable keys: what the contract's endpoint check is decided on.
    pub fn technical_endpoint_kinds(
        &self,
        source: &String,
        source_key_valid: bool,
        target: &String,
        target_key_valid: bool,
    ) -> (kinds: Result<(u64, u64), TechnicalRelationRejectionReason>)
        ensures
            if !(source_key_valid && stable_key_taken(self.technical_node_seq(), source@)) {
                kinds == Err::<(u64, u64), TechnicalRelationRejectionReason>(
                    TechnicalRelationRejectionReason::MissingEndpoint(*source),
                )
            } else if !(target_key_valid && stable_key_taken(self.technical_node_seq(), target@)) {
                kinds == Err::<(u64, u64), TechnicalRelationRejectionReason>(
                    TechnicalRelationRejectionReason::MissingEndpoint(*target),
                )
            } else {
                exists|s: int, t: int|
                    #![trigger self.technical_node_seq()[s], self.technical_node_seq()[t]]
                    0 <= s < self.technical_node_seq().len() && 0 <= t < self.technical_node_seq().len()
                        && self.technical_node_seq()[s].stable_key@ == source@
                        && self.technical_node_seq()[t].stable_key@ == target@ && kinds == Ok::<
                        (u64, u64),
                        TechnicalRelationRejectionReason,
                    >((self.technical_node_seq()[s].kind, self.technical_node_seq()[t].kind))
            },
    {
        let s = match self.stored_node_index(source, source_key_valid) {
            Some(s) => s,
            None => return Err(TechnicalRelationRejectionReason::MissingEndpoint(source.clone())),
        };
        let t = match self.stored_node_index(target, target_key_valid) {
            Some(t) => t,
            None => return Err(TechnicalRelationRejectionReason::MissingEndpoint(target.clone())),
        };
        proof {
            assert(stable_key_taken(self.technical_node_seq(), source@));
            assert(stable_key_taken(self.technical_node_seq(), target@));
        }
        let kinds = (self.technical_nodes[s].kind, self.technical_nodes[t].kind);
        proof {
            assert(self.technical_node_seq()[s as int] == self.technical_nodes@[s as int]);
        }
        Ok(kinds)
    }

    /// Appends a technical node once its checks pass (see
    /// `technical_node_refusal`); only then is an identifier minted.
    pub fn append_technical_node(
        &mut self,
        stable_key: String,
        kind: u64,
        key_check: Result<(), String>,
        expected_kind: u64,
        body_check: Result<(), TechnicalNodeKindMismatch>,
        body: TechnicalNodeBody,
        author: String,
        occurred_at: u64,
    ) -> (appended: Result<TechnicalNode, TechnicalNodeRejectionReason>)
        requires
            old(self).wf(),
            old(self).snapshot_count() < u64::MAX,
        ensures
            final(self).wf(),
            match technical_node_refusal(
                stable_key,
                kind,
                key_check,
                expected_kind,
                body_check,
                old(self).technical_node_seq(),
            ) {
                Some(reason) => appended == Err::<TechnicalNode, TechnicalNodeRejectionReason>(reason) && *final(self)
                    == *old(self),
                None => appended matches Ok(node) && {
                    &&& node.identifier@ == compact_text(old(self).snapshot_count() as nat)
                    &&& node == (TechnicalNode {
                        identifier: node.identifier,
                        stable_key,
                        kind,
                        body,
                        author,
                        occurred_at,
                    })
                    &&& final(self).snapshot_count() == old(self).snapshot_count() + 1
                    &&& final(self).minted() == old(self).minted().push(node.identifier)
                    &&& final(self).technical_node_seq() == old(self).technical_node_seq().push(node)
                    &&& final(self).technical_relation_seq() == old(self).technical_relation_seq()
                    &&& final(self).thought_seq() == old(self).thought_seq()
                    &&& final(self).relation_seq() == old(self).relation_seq()
                },
            },
    {
        match check_technical_node(&stable_key, kind, key_check, expected_kind, body_check, &self.technical_nodes) {
            Ok(()) => {},
            Err(reason) => return Err(reason),
        }
        let ghost before = self.technical_nodes@;
        let identifier = self.mint();
        let node = committed_technical_node(identifier, stable_key, kind, body, author, occurred_at);
        self.technical_nodes.push(node.duplicate());
        proof {
            let after = self.technical_nodes@;
            assert forall|i: int, j: int| 0 <= i < j < after.len() implies #[trigger] after[i].stable_key@
                != #[trigger] after[j].stable_key@ by {
                assert(after[i] == before[i]);
                if j < before.len() {
                    assert(after[j] == before[j]);
                } else if before[i].stable_key@ == node.stable_key@ {
                    assert(stable_key_taken(before, node.stable_key@));
                }
            }
        }
        Ok(node)
    }

    /// Appends a technical relation once its checks pass (see
    /// `technical_relation_refusal`); only then is an identifier minted.  Its
    /// ends carry the identifiers and stable keys of the stored nodes with the
    /// given keys (one each: stored keys are distinct).
    pub fn append_technical_relation(
        &mut self,
        kind: u64,
        source: String,
        source_key_valid: bool,
        target: String,
        target_key_valid: bool,
        endpoint_check: Result<(), TechnicalEndpointKindMismatch>,
        author: String,
        occurred_at: u64,
        note: Option<String>,
    ) -> (appended: Result<TechnicalRelation, TechnicalRelationRejectionReason>)
        requires
            old(self).wf(),
            old(self).snapshot_count() < u64::MAX,
        ensures
            final(self).wf(),
            match technical_relation_refusal(
                kind,
                source,
                source_key_valid,
                target,
                target_key_valid,
                endpoint_check,
                old(self).technical_node_seq(),
                old(self).technical_relation_seq(),
            ) {
                Some(reason) => appended == Err::<TechnicalRelation, TechnicalRelationRejectionReason>(reason)
                    && *final(self) == *old(self),
                None => appended matches Ok(relation) && {
                    &&& exists|s: int, t: int|
                        #![trigger old(self).technical_node_seq()[s], old(self).technical_node_seq()[t]]
                        0 <= s < old(self).technical_node_seq().len() && 0 <= t < old(self).technical_node_seq().len()
                            && old(self).technical_node_seq()[s].stable_key@ == source@
                            && old(self).technical_node_seq()[t].stable_key@ == target@ && relation == (
                        TechnicalRelation {
                            identifier: relation.identifier,
                            kind,
                            source: TechnicalRelationEndpoint {
                                identifier: old(self).technical_node_seq()[s].identifier,
                                stable_key: old(self).technical_node_seq()[s].stable_key,
                            },
                            target: TechnicalRelationEndpoint {
                                identifier: old(self).technical_node_seq()[t].identifier,
                                stable_key: old(self).technical_node_seq()[t].stable_key,
                            },
                            author,
                            occurred_at,
                            note,
                        })
                    &&& relation.identifier@ == compact_text(old(self).snapshot_count() as nat)
                    &&& final(self).snapshot_count() == old(self).snapshot_count() + 1
                    &&& final(self).minted() == old(self).minted().push(relation.identifier)
                    &&& final(self).technical_relation_seq() == old(self).technical_relation_seq().push(relation)
                    &&& final(self).technical_node_seq() == old(self).technical_node_seq()
                    &&& final(self).thought_seq() == old(self).thought_seq()
                    &&& final(self).relation_seq() == old(self).relation_seq()
                },
            },
    {
        let s = match self.stored_node_index(&source, source_key_valid) {
            Some(s) => s,
            None => return Err(TechnicalRelationRejectionReason::MissingEndpoint(source)),
        };
        let t = match self.stored_node_index(&target, target_key_valid) {
            Some(t) => t,
            None => return Err(TechnicalRelationRejectionReason::MissingEndpoint(target)),
        };
        proof {
            assert(stable_key_taken(self.technical_node_seq(), source@));
            assert(stable_key_taken(self.technical_node_seq(), target@));
        }
        match check_technical_relation(kind, &source, &target, endpoint_check, &self.technical_relations) {
            Ok(()) => {},
            Err(reason) => return Err(reason),
        }
        let from = self.technical_nodes[s].duplicate();
        let to = self.technical_nodes[t].duplicate();
        let ghost nodes = self.technical_nodes@;
        let identifier = self.mint();
        let relation = committed_technical_relation(identifier, kind, &from, &to, author, occurred_at, note);
        self.technical_relations.push(relation.duplicate());
        proof {
            assert(nodes[s as int] == from && nodes[t as int] == to);
        }
        Ok(relation)
    }
}

/// A technical relation is refused as a duplicate exactly when its ends are
/// stored nodes, the contract allows its kind between them, and a stored
/// relation has the same kind, the same source key and the same target key:
/// a relation of another kind between the same ends is no duplicate.
pub proof fn law_only_the_same_triple_is_a_duplicate(
    kind: u64,
    source: String,
    source_key_valid: bool,
    target: String,
    target_key_valid: bool,
    endpoint_check: Result<(), TechnicalEndpointKindMismatch>,
    nodes: Seq<TechnicalNode>,
    relations: Seq<TechnicalRelation>,
)
    ensures
        technical_relation_refusal(
            kind,
            source,
            source_key_valid,
            target,
            target_key_valid,
            endpoint_check,
            nodes,
            relations,
        ) == Some(TechnicalRelationRejectionReason::DuplicateRelation) <==> {
            &&& source_key_valid && exists|i: int| 0 <= i < nodes.len() && (#[trigger] nodes[i]).stable_key@ == source@
            &&& target_key_valid && exists|i: int| 0 <= i < nodes.len() && (#[trigger] nodes[i]).stable_key@ == target@
            &&& endpoint_check is Ok
            &&& exists|i: int|
                0 <= i < relations.len() && (#[trigger] relations[i]).kind == kind && relations[i].source.stable_key@
                    == source@ && relations[i].target.stable_key@ == target@
        },
{
}

/// No two identifiers a ledger has minted agree, and the identifier it mints
/// next agrees with none of them: across appends, failed checks and reopens,
/// an identifier is never minted twice.
pub proof fn law_graph_identifiers_never_collide(ledger: GraphLedger)
    requires
        ledger.wf(),
    ensures
        forall|i: int, j: int|
            0 <= i < j < ledger.minted().len() ==> #[trigger] ledger.minted()[i]@ != #[trigger] ledger.minted()[j]@,
        forall|i: int|
            0 <= i < ledger.minted().len() ==> #[trigger] ledger.minted()[i]@ != compact_text(
                ledger.snapshot_count() as nat,
            ),
{
    assert forall|i: int| 0 <= i < ledger.minted().len() implies #[trigger] ledger.minted()[i]@ != compact_text(
        ledger.snapshot_count() as nat,
    ) by {
        let id = ledger.minted()[i]@;
        assert(minted_for_snapshot_up_to(ledger.snapshot_count(), id));
        let snapshot = choose|snapshot: nat|
            1 <= snapshot <= ledger.snapshot_count() && id == #[trigger] compact_text((snapshot - 1) as nat);
        if id == compact_text(ledger.snapshot_count() as nat) {
            lemma_compact_text_injective((snapshot - 1) as nat, ledger.snapshot_count() as nat);
        }
    }
}

} // verus!
