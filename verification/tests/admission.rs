use mind::graph_admission::{
    check_relation_kind, check_technical_node, check_thought_kind, find_thought, stable_key_in_use, GraphAdmissionError,
    RelationKindMismatch, TechnicalEndpointKindMismatch, TechnicalNodeKindMismatch, TechnicalNodeRejectionReason,
    TechnicalRelationRejectionReason,
};
use mind::graph_ledger::GraphLedger;
use mind::records::{Relation, RelationKind, TechnicalNode, TechnicalNodeBody, TechnicalRelation, Thought};

const GOAL: u64 = 0;
const COMPONENT: u64 = 0;
const REPOSITORY: u64 = 1;
const OWNS_REPOSITORY: u64 = 0;

/// Appends a goal thought, as the operator.
fn append_thought(ledger: &mut GraphLedger, body: &str) -> Thought {
    let at = ledger.snapshots() + 1;
    ledger.append_thought(GOAL, GOAL, body.to_string(), "operator".into(), at).expect("kinds agree")
}

/// Appends a relation between two thoughts; the contract allows its kind.
fn append_relation(ledger: &mut GraphLedger, source: &str, target: &str) -> Result<Relation, GraphAdmissionError> {
    let at = ledger.snapshots() + 1;
    ledger.append_relation(RelationKind::Other(3), source.into(), target.into(), Ok(()), "operator".into(), at, None)
}

/// Appends a technical node whose key names `key_kind` and whose body is of
/// `body_kind`.
fn append_technical_node(
    ledger: &mut GraphLedger,
    key: &str,
    kind: u64,
    key_kind: u64,
    body_kind: u64,
) -> Result<TechnicalNode, TechnicalNodeRejectionReason> {
    let body_check = if body_kind == kind {
        Ok(())
    } else {
        Err(TechnicalNodeKindMismatch { expected_kind: kind, got_body_kind: body_kind })
    };
    let at = ledger.snapshots() + 1;
    ledger.append_technical_node(key.into(), kind, Ok(()), key_kind, body_check, TechnicalNodeBody::Other, "operator".into(), at)
}

/// Appends an `OwnsRepository` relation, which the contract allows from a
/// component to a repository only.
fn append_technical_relation(
    ledger: &mut GraphLedger,
    source: &str,
    target: &str,
) -> Result<TechnicalRelation, TechnicalRelationRejectionReason> {
    let (source_kind, target_kind) = ledger.technical_endpoint_kinds(&source.to_string(), true, &target.to_string(), true)?;
    let endpoint_check = if source_kind == COMPONENT && target_kind == REPOSITORY {
        Ok(())
    } else {
        Err(TechnicalEndpointKindMismatch { relation_kind: OWNS_REPOSITORY, source_kind, target_kind })
    };
    let at = ledger.snapshots() + 1;
    ledger.append_technical_relation(OWNS_REPOSITORY, source.into(), true, target.into(), true, endpoint_check, "operator".into(), at, None)
}

#[test]
fn graph_id_policy_mints_compact_typed_sequence_ids_without_prefixes() {
    let mut ledger = GraphLedger::new();
    let first = append_thought(&mut ledger, "first goal");
    let second = append_thought(&mut ledger, "second goal");
    let relation = append_relation(&mut ledger, &first.id, &second.id).expect("relation appends");

    assert_eq!(first.id.as_str(), "aaa");
    assert_eq!(second.id.as_str(), "aab");
    assert_eq!(relation.id.as_str(), "aac");
    for token in [first.id.as_str(), second.id.as_str(), relation.id.as_str()] {
        assert_eq!(token.len(), 3);
        assert!(token.bytes().all(|byte| byte.is_ascii_lowercase()));
        assert!(!token.contains('-'));
        assert!(!token.starts_with("thought"));
        assert!(!token.starts_with("relation"));
    }
}

#[test]
fn graph_id_policy_continues_after_reopen_without_collision() {
    let mut ledger = GraphLedger::new();
    let first_id = append_thought(&mut ledger, "before reopen").id;
    assert_eq!(first_id.as_str(), "aaa");

    let mut reopened = GraphLedger::reopen(ledger.close());
    let second = append_thought(&mut reopened, "after reopen");

    assert_eq!(second.id.as_str(), "aab");
    assert_eq!(reopened.thoughts().len(), 2);
    assert!(reopened.thoughts().iter().any(|thought| thought.id == first_id));
    assert!(reopened.thoughts().iter().any(|thought| thought.id == second.id));
    assert_ne!(reopened.thoughts()[0].id, reopened.thoughts()[1].id);
}

#[test]
fn technical_node_append_mints_compact_identifier_and_rejects_kind_body_mismatch() {
    let mut ledger = GraphLedger::new();
    let accepted = append_technical_node(&mut ledger, "component:mind", COMPONENT, COMPONENT, COMPONENT)
        .expect("node accepted");
    let rejected = append_technical_node(&mut ledger, "repo:wrong-body", REPOSITORY, REPOSITORY, COMPONENT)
        .expect_err("kind/body mismatch rejects");

    assert_eq!(accepted.identifier.as_str(), "aaa");
    assert_eq!(accepted.author, "operator");
    assert_eq!(ledger.technical_nodes().len(), 1);
    assert_eq!(ledger.technical_nodes()[0].identifier, accepted.identifier);
    assert!(matches!(
        rejected,
        TechnicalNodeRejectionReason::KindBodyMismatch(mismatch)
            if mismatch.expected_kind == REPOSITORY && mismatch.got_body_kind == COMPONENT
    ));
}

#[test]
fn technical_node_append_rejects_duplicate_stable_key() {
    let mut ledger = GraphLedger::new();
    append_technical_node(&mut ledger, "component:mind", COMPONENT, COMPONENT, COMPONENT)
        .expect("first node accepted");
    let rejected = append_technical_node(&mut ledger, "component:mind", COMPONENT, COMPONENT, COMPONENT)
        .expect_err("duplicate stable key rejects");

    assert!(matches!(
        rejected,
        TechnicalNodeRejectionReason::DuplicateStableNodeKey(ref key) if key == "component:mind"
    ));
    assert_eq!(ledger.technical_nodes().len(), 1);
}

#[test]
fn technical_relation_append_resolves_endpoints_and_rejects_invalid_triples() {
    let mut ledger = GraphLedger::new();
    let component = append_technical_node(&mut ledger, "component:mind", COMPONENT, COMPONENT, COMPONENT)
        .expect("component accepted");
    let repository = append_technical_node(&mut ledger, "repo:mind", REPOSITORY, REPOSITORY, REPOSITORY)
        .expect("repository accepted");

    let missing = append_technical_relation(&mut ledger, "component:missing", "repo:mind")
        .expect_err("missing endpoint rejects");
    let accepted = append_technical_relation(&mut ledger, "component:mind", "repo:mind").expect("relation accepted");
    let duplicate = append_technical_relation(&mut ledger, "component:mind", "repo:mind")
        .expect_err("duplicate relation rejects");
    let wrong_domain = append_technical_relation(&mut ledger, "repo:mind", "component:mind")
        .expect_err("domain range rejects");

    assert!(matches!(
        missing,
        TechnicalRelationRejectionReason::MissingEndpoint(ref key) if key == "component:missing"
    ));
    assert_eq!(accepted.identifier.as_str(), "aac");
    assert_eq!(accepted.source.identifier, component.identifier);
    assert_eq!(accepted.target.identifier, repository.identifier);
    assert!(matches!(duplicate, TechnicalRelationRejectionReason::DuplicateRelation));
    assert!(matches!(wrong_domain, TechnicalRelationRejectionReason::DomainRangeViolation(_)));
    assert_eq!(ledger.technical_relations().len(), 1);
    assert_eq!(ledger.technical_relations()[0].identifier, accepted.identifier);
}

#[test]
fn relation_endpoints_must_name_stored_thoughts() {
    let mut ledger = GraphLedger::new();
    let goal = append_thought(&mut ledger, "goal");
    let missing = append_relation(&mut ledger, &goal.id, "zzz").expect_err("target is missing");
    assert!(matches!(missing, GraphAdmissionError::MissingRecord { ref record } if record == "zzz"));
    let missing_source = append_relation(&mut ledger, "yyy", "zzz").expect_err("source is missing");
    assert!(matches!(missing_source, GraphAdmissionError::MissingRecord { ref record } if record == "yyy"));
    assert_eq!(find_thought(ledger.thoughts(), &goal.id).expect("goal found"), 0);
}

#[test]
fn declared_thought_kind_must_match_the_body() {
    assert!(check_thought_kind(3, 3).is_ok());
    assert!(matches!(
        check_thought_kind(3, 4),
        Err(GraphAdmissionError::ThoughtKindMismatch { declared: 3, actual: 4 })
    ));
}

#[test]
fn technical_node_checks_apply_in_order() {
    let existing: Vec<TechnicalNode> = Vec::new();
    let invalid = check_technical_node(&"Component Mind".to_string(), COMPONENT, Err("not canonical".into()), COMPONENT, Ok(()), &existing);
    assert!(matches!(invalid, Err(TechnicalNodeRejectionReason::InvalidStableNodeKey(ref why)) if why == "not canonical"));
    let wrong_prefix = check_technical_node(&"repo:mind".to_string(), COMPONENT, Ok(()), REPOSITORY, Ok(()), &existing);
    assert!(matches!(
        wrong_prefix,
        Err(TechnicalNodeRejectionReason::KindBodyMismatch(TechnicalNodeKindMismatch { expected_kind: REPOSITORY, got_body_kind: COMPONENT }))
    ));
    assert!(!stable_key_in_use(&existing, &"repo:mind".to_string()));
}

#[test]
fn relation_kind_verdicts_become_admission_errors() {
    assert!(check_relation_kind(Ok(())).is_ok());
    let mismatch = RelationKindMismatch { relation_kind: RelationKind::Supersedes, source_kind: 1, target_kind: 2 };
    assert!(matches!(
        check_relation_kind(Err(mismatch)),
        Err(GraphAdmissionError::RelationKindMismatch(found)) if found == mismatch
    ));
}
