use mind::graph_admission::GraphAdmissionError;
use mind::graph_ledger::GraphLedger;
use mind::knowledge::{
    AcceptedKnowledge, FixtureKnowledgeJudge, KnowledgeAdmission, KnowledgeJudge, KnowledgeJudgeDecision,
    KnowledgeJudgePacket, KnowledgeJudgeRequest, KnowledgeJudgeVerdict, KnowledgeQueryEngine, KnowledgeRejectionReason, KnowledgeReply, KnowledgeSubmission,
};
use mind::nota_block::{NotaBlock, NotaDelimiter};
use mind::records::RelationKind;
use mind::graph::ThoughtFilter;
use mind::subscription::{RuntimeSubscription, SubscriptionLifecycleReply, SubscriptionSupervisor};
use mind::text::{ItemKindText, MindTextRequest, NotaDecodeError, Opening, Query, QueryKindText, Ready};

fn atom(text: &str) -> NotaBlock {
    NotaBlock::Atom(text.to_string())
}

fn record(entries: Vec<NotaBlock>) -> NotaBlock {
    NotaBlock::Delimited(NotaDelimiter::Parenthesis, entries)
}

#[test]
fn an_opening_request_reads_its_four_fields() {
    let block = record(vec![atom("Opening"), atom("Task"), atom("High"), atom("Ship it"), atom("Details")]);
    match MindTextRequest::from_nota_block(&block) {
        Ok(MindTextRequest::Opening(opening)) => {
            assert_eq!(opening.kind, ItemKindText::Task);
            assert_eq!(opening.priority, "High");
            assert_eq!(opening.title, "Ship it");
            assert_eq!(opening.body, "Details");
        }
        other => panic!("expected an opening, got {other:?}"),
    }
}

#[test]
fn a_query_request_reads_its_kind_and_limit() {
    let block = record(vec![atom("Query"), record(vec![atom("Ready")]), atom("10")]);
    match MindTextRequest::from_nota_block(&block) {
        Ok(MindTextRequest::Query(query)) => {
            assert!(matches!(query.kind, QueryKindText::Ready(_)));
            assert_eq!(query.limit, 10);
        }
        other => panic!("expected a query, got {other:?}"),
    }
    let too_large = record(vec![atom("Query"), record(vec![atom("Ready")]), atom("70000")]);
    assert!(matches!(
        MindTextRequest::from_nota_block(&too_large),
        Err(NotaDecodeError::InvalidNumber { kind_name: "QueryLimit" })
    ));
}

#[test]
fn a_request_with_an_unknown_head_or_field_count_is_refused() {
    match MindTextRequest::from_nota_block(&record(vec![atom("Frobnicate")])) {
        Err(NotaDecodeError::UnknownVariant { enum_name, variant }) => {
            assert_eq!(enum_name, "MindTextRequest");
            assert_eq!(variant, "Frobnicate");
        }
        other => panic!("expected an unknown variant, got {other:?}"),
    }
    assert!(matches!(
        MindTextRequest::from_nota_block(&record(vec![atom("Opening"), atom("Task")])),
        Err(NotaDecodeError::ExpectedRootCount { kind_name: "MindTextRequest", expected: 4, found: 1 })
    ));
    assert!(matches!(
        MindTextRequest::from_nota_block(&atom("Opening")),
        Err(NotaDecodeError::ExpectedRecord { kind_name: "MindTextRequest" })
    ));
}

#[test]
fn requests_read_back_as_written() {
    let opening = MindTextRequest::Opening(Opening {
        kind: ItemKindText::Decision,
        priority: "High".to_string(),
        title: "Title".to_string(),
        body: "Body".to_string(),
    });
    match MindTextRequest::from_nota_block(&opening.to_nota_block()) {
        Ok(MindTextRequest::Opening(read)) => {
            assert_eq!(read.kind, ItemKindText::Decision);
            assert_eq!((read.priority.as_str(), read.title.as_str(), read.body.as_str()), ("High", "Title", "Body"));
        }
        other => panic!("expected the opening back, got {other:?}"),
    }
    let query = MindTextRequest::Query(Query { kind: QueryKindText::Ready(Ready {}), limit: 100 });
    match MindTextRequest::from_nota_block(&query.to_nota_block()) {
        Ok(MindTextRequest::Query(read)) => assert_eq!(read.limit, 100),
        other => panic!("expected the query back, got {other:?}"),
    }
}

#[test]
fn ledger_mints_in_snapshot_order_and_checks_before_minting() {
    let mut ledger = GraphLedger::new();
    let first = ledger.append_thought(0, 0, "first goal".into(), "operator".into(), 1).expect("kinds agree");
    let second = ledger.append_thought(0, 0, "second goal".into(), "operator".into(), 2).expect("kinds agree");
    assert!(matches!(
        ledger.append_thought(0, 1, "mismatch".into(), "operator".into(), 3),
        Err(GraphAdmissionError::ThoughtKindMismatch { declared: 0, actual: 1 })
    ));
    assert!(matches!(
        ledger.append_relation(RelationKind::Other(3), first.id.clone(), "zzz".into(), Ok(()), "operator".into(), 4, None),
        Err(GraphAdmissionError::MissingRecord { .. })
    ));
    let relation = ledger
        .append_relation(RelationKind::Other(3), first.id.clone(), second.id.clone(), Ok(()), "operator".into(), 5, None)
        .expect("both ends stored");
    assert_eq!((first.id.as_str(), second.id.as_str(), relation.id.as_str()), ("aaa", "aab", "aac"));
    assert_eq!(ledger.snapshots(), 3);
    assert_eq!(ledger.thoughts().len(), 2);
    assert_eq!(ledger.relations().len(), 1);
}

#[test]
fn ledger_carries_on_after_reopen_without_collision() {
    let mut ledger = GraphLedger::new();
    let first = ledger.append_thought(0, 0, "before reopen".into(), "operator".into(), 1).expect("kinds agree");
    let mut reopened = GraphLedger::reopen(ledger.close());
    let second = reopened.append_thought(0, 0, "after reopen".into(), "operator".into(), 2).expect("kinds agree");
    assert_eq!(first.id, "aaa");
    assert_eq!(second.id, "aab");
    assert_eq!(reopened.thoughts().len(), 2);
    assert_ne!(reopened.thoughts()[0].id, reopened.thoughts()[1].id);
}

fn submission(statement: &str) -> KnowledgeSubmission {
    KnowledgeSubmission {
        domain: "Technology/Software/Engineering/Architecture".to_string(),
        statement: statement.to_string(),
    }
}

#[test]
fn accepted_knowledge_is_found_by_its_identity() {
    let statement = "Mind routes accepted-knowledge judgment through a typed socket.";
    let outcome = KnowledgeAdmission::admit_with_decision(
        Vec::new(),
        submission(statement),
        KnowledgeJudgeDecision::new(KnowledgeJudgeVerdict::Accept),
        Ok("q3xz".to_string()),
        "tester".to_string(),
        7,
    );
    assert!(matches!(&outcome.reply, KnowledgeReply::Accepted(identity) if identity == "q3xz"));
    assert_eq!(outcome.records.len(), 1);
    let applied = outcome.applied.expect("the judged decision is handed back");
    assert!(matches!(applied.verdict, KnowledgeJudgeVerdict::Accept));
    assert!(matches!(applied.reply, KnowledgeReply::Accepted(ref identity) if identity == "q3xz"));
    assert_eq!(applied.submission.statement, statement);
    let mut judge = FixtureKnowledgeJudge::empty();
    judge.record_applied_decision(applied);
    match KnowledgeQueryEngine::new(outcome.records).reply(&"q3xz".to_string()) {
        KnowledgeReply::Found(record) => {
            assert_eq!(record.identity, "q3xz");
            assert_eq!(record.statement, statement);
            assert_eq!(record.accepted_by, "tester");
        }
        other => panic!("expected the accepted record, got {other:?}"),
    }
}

#[test]
fn admission_answers_repeats_rejections_and_failed_minting() {
    let existing = vec![AcceptedKnowledge {
        identity: "abcd".to_string(),
        domain: "Technology/Software/Engineering/Architecture".to_string(),
        statement: "known".to_string(),
        accepted_by: "tester".to_string(),
        accepted_at: 1,
    }];
    let copy = |records: &Vec<AcceptedKnowledge>| records.iter().map(AcceptedKnowledge::duplicate).collect::<Vec<_>>();
    let outcome = KnowledgeAdmission::admit_with_decision(
        copy(&existing),
        submission("known"),
        KnowledgeJudgeDecision::new(KnowledgeJudgeVerdict::Accept),
        Ok("wxyz".to_string()),
        "tester".to_string(),
        2,
    );
    assert!(matches!(outcome.reply, KnowledgeReply::Rejected(KnowledgeRejectionReason::SemanticDuplicate(ref id)) if id == "abcd"));
    assert_eq!(outcome.records.len(), 1);
    assert!(outcome.applied.is_none(), "an exact repeat is not judged");
    let outcome = KnowledgeAdmission::admit_with_decision(
        copy(&existing),
        submission("new"),
        KnowledgeJudgeDecision::new(KnowledgeJudgeVerdict::Reject(KnowledgeRejectionReason::NotKnowledge)),
        Ok("wxyz".to_string()),
        "tester".to_string(),
        2,
    );
    assert!(matches!(outcome.reply, KnowledgeReply::Rejected(KnowledgeRejectionReason::NotKnowledge)));
    assert_eq!(outcome.records.len(), 1);
    let applied = outcome.applied.expect("the judged decision is handed back");
    assert!(matches!(applied.reply, KnowledgeReply::Rejected(KnowledgeRejectionReason::NotKnowledge)));
    let outcome = KnowledgeAdmission::admit_with_decision(
        copy(&existing),
        submission("new"),
        KnowledgeJudgeDecision::new(KnowledgeJudgeVerdict::Accept),
        Err(KnowledgeRejectionReason::PersistenceRejected),
        "tester".to_string(),
        2,
    );
    assert!(matches!(outcome.reply, KnowledgeReply::Rejected(KnowledgeRejectionReason::PersistenceRejected)));
    assert_eq!(outcome.records.len(), 1);
}

fn request() -> KnowledgeJudgeRequest {
    KnowledgeJudgeRequest::new(KnowledgeJudgePacket {
        domain: "Technology".to_string(),
        statement: "statement".to_string(),
        relevant_neighbors: Vec::new(),
    })
}

#[test]
fn fixture_judge_answers_in_order_then_meaning_unclear() {
    let mut judge = FixtureKnowledgeJudge::new(vec![
        KnowledgeJudgeVerdict::Reject(KnowledgeRejectionReason::NotKnowledge),
        KnowledgeJudgeVerdict::Accept,
    ]);
    assert!(matches!(
        judge.judge(request()).verdict,
        KnowledgeJudgeVerdict::Reject(KnowledgeRejectionReason::NotKnowledge)
    ));
    assert!(matches!(judge.judge(request()).verdict, KnowledgeJudgeVerdict::Accept));
    for _ in 0..3 {
        assert!(matches!(
            judge.judge(request()).verdict,
            KnowledgeJudgeVerdict::Reject(KnowledgeRejectionReason::MeaningUnclear)
        ));
    }
    assert_eq!(judge.calls(), 5);
    let mut empty = FixtureKnowledgeJudge::empty();
    assert!(matches!(
        empty.judge(request()).verdict,
        KnowledgeJudgeVerdict::Reject(KnowledgeRejectionReason::MeaningUnclear)
    ));
}

#[test]
fn retraction_names_the_stored_registration_when_a_store_is_bound() {
    let mut unbound = SubscriptionSupervisor::new(0);
    unbound.register(RuntimeSubscription::thoughts("aaa".into(), ThoughtFilter::ByKind(Vec::new()), 0, 0));
    let step = unbound.retract_subscription_step("aaa".to_string());
    assert!(matches!(step.reply, SubscriptionLifecycleReply::Retracted { .. }));
    assert_eq!(step.retract_stored, None);

    let mut bound = SubscriptionSupervisor::new(0);
    bound.bind_store();
    bound.register(RuntimeSubscription::thoughts("aab".into(), ThoughtFilter::ByKind(Vec::new()), 0, 0));
    let step = bound.retract_subscription_step("aab".to_string());
    assert!(matches!(step.reply, SubscriptionLifecycleReply::Retracted { ref subscription, .. } if subscription == "aab"));
    assert_eq!(step.retract_stored, Some("aab".to_string()));
    let again = bound.retract_subscription_step("aab".to_string());
    assert!(matches!(again.reply, SubscriptionLifecycleReply::Unimplemented));
    assert_eq!(again.retract_stored, None);
}
