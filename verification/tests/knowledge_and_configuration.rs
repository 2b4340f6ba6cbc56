use mind::configuration::{
    MindDaemonConfiguration, MindKnowledgeJudgeConfiguration, MindKnowledgeJudgeSocketConfiguration,
    MAXIMUM_CONCURRENT_REQUESTS, OWNER_ONLY_SOCKET_MODE,
};
use mind::configuration_writer::{
    ConfigurationWriteRequest, ConfigurationWriterInput, ConfigurationWriterKnowledgeJudge, ConfigurationWriterPath,
};
use mind::knowledge::{
    AcceptedKnowledge, ExactKnowledgeDuplicate, KnowledgeJudge, KnowledgeJudgeAppliedDecision, KnowledgeJudgeRequest, FixtureKnowledgeJudge, KnowledgeAdmission, KnowledgeAdmissionStep,
    KnowledgeJudgeDecision, KnowledgeJudgePacket, KnowledgeJudgeParseStatus, KnowledgeJudgeVerdict,
    KnowledgeQueryEngine, KnowledgeRejectionReason, KnowledgeReply, KnowledgeSubmission, KnowledgeVerdictStep,
    MindJudgeReply, MindJudgeSocketKnowledgeJudge,
};
use mind::nota_block::{NotaBlock, NotaDelimiter};
use mind::text::NotaDecodeError;

fn record(identity: &str, statement: &str) -> AcceptedKnowledge {
    AcceptedKnowledge {
        identity: identity.into(),
        domain: "Technology/Software/Architecture".into(),
        statement: statement.into(),
        accepted_by: "tester".into(),
        accepted_at: 1,
    }
}

fn submission(statement: &str) -> KnowledgeSubmission {
    KnowledgeSubmission { domain: "Technology/Software/Architecture".into(), statement: statement.into() }
}

fn atom(text: &str) -> NotaBlock {
    NotaBlock::Atom(text.into())
}

fn record_block(entries: Vec<NotaBlock>) -> NotaBlock {
    NotaBlock::Delimited(NotaDelimiter::Parenthesis, entries)
}

fn packet() -> KnowledgeJudgeRequest {
    KnowledgeJudgeRequest::new(KnowledgeJudgePacket { domain: "d".into(), statement: "s".into(), relevant_neighbors: Vec::new() })
}

#[test]
fn exact_repeats_are_rejected_as_duplicates_without_the_judge() {
    let records = vec![record("abcd", "Mind owns the graph."), record("abce", "Other.")];
    assert_eq!(
        ExactKnowledgeDuplicate::accepted_identity(&submission("Mind owns the graph."), &records),
        Some("abcd".to_string())
    );
    match KnowledgeAdmission::prepare(&submission("Mind owns the graph."), Some(records)) {
        KnowledgeAdmissionStep::Rejected(KnowledgeRejectionReason::SemanticDuplicate(identity)) => assert_eq!(identity, "abcd"),
        other => panic!("expected a duplicate rejection, got {other:?}"),
    }
}

#[test]
fn new_statements_go_to_the_judge_with_the_accepted_neighbours() {
    let records = vec![record("abcd", "Existing accepted neighbor.")];
    match KnowledgeAdmission::prepare(&submission("Mind sends typed judge packets."), Some(records)) {
        KnowledgeAdmissionStep::Judge(packet) => {
            assert_eq!(packet.statement, "Mind sends typed judge packets.");
            assert_eq!(packet.relevant_neighbors.len(), 1);
        }
        other => panic!("expected a judge step, got {other:?}"),
    }
    assert!(matches!(
        KnowledgeAdmission::prepare(&submission("x"), None),
        KnowledgeAdmissionStep::Rejected(KnowledgeRejectionReason::PersistenceRejected)
    ));
}

#[test]
fn verdicts_decide_between_storing_and_rejecting() {
    assert!(matches!(KnowledgeAdmission::after_verdict(KnowledgeJudgeVerdict::Accept), KnowledgeVerdictStep::ApplyAcceptance));
    assert!(matches!(
        KnowledgeAdmission::after_verdict(KnowledgeJudgeVerdict::Reject(KnowledgeRejectionReason::NotKnowledge)),
        KnowledgeVerdictStep::Reply(KnowledgeReply::Rejected(KnowledgeRejectionReason::NotKnowledge))
    ));
    assert!(matches!(KnowledgeAdmission::after_acceptance(Ok("abcd".into())), KnowledgeReply::Accepted(ref id) if id == "abcd"));
    assert!(matches!(
        KnowledgeAdmission::after_acceptance(Err(KnowledgeRejectionReason::PersistenceRejected)),
        KnowledgeReply::Rejected(KnowledgeRejectionReason::PersistenceRejected)
    ));
}

#[test]
fn accepted_knowledge_is_found_by_its_fresh_identity() {
    let mut records = vec![record("0000", "First.")];
    let identity = KnowledgeAdmission::mint_identity(Some(&records)).expect("identity minted");
    assert_ne!(identity, "0000");
    let stored = KnowledgeAdmission::accepted_record(identity.clone(), submission("Second."), "operator".into(), 5);
    records.push(stored);
    match KnowledgeQueryEngine::new(records).reply(&identity) {
        KnowledgeReply::Found(found) => {
            assert_eq!(found.identity, identity);
            assert_eq!(found.statement, "Second.");
            assert_eq!(found.accepted_by, "operator");
        }
        other => panic!("expected the record, got {other:?}"),
    }
    assert!(matches!(KnowledgeQueryEngine::new(Vec::new()).reply(&"abcd".to_string()), KnowledgeReply::NotFound));
    assert!(matches!(KnowledgeAdmission::mint_identity(None), Err(KnowledgeRejectionReason::PersistenceRejected)));
}

#[test]
fn a_resubmission_after_acceptance_is_a_duplicate() {
    let mut records = Vec::new();
    let identity = KnowledgeAdmission::mint_identity(Some(&records)).expect("identity minted");
    records.push(KnowledgeAdmission::accepted_record(identity.clone(), submission("Once."), "operator".into(), 1));
    match KnowledgeAdmission::prepare(&submission("Once."), Some(records)) {
        KnowledgeAdmissionStep::Rejected(KnowledgeRejectionReason::SemanticDuplicate(found)) => assert_eq!(found, identity),
        other => panic!("expected a duplicate rejection, got {other:?}"),
    }
}

#[test]
fn fixture_judge_answers_in_order_then_rejects_as_unclear() {
    let mut judge = FixtureKnowledgeJudge::new(vec![
        KnowledgeJudgeVerdict::Accept,
        KnowledgeJudgeVerdict::Reject(KnowledgeRejectionReason::WrongDomain("Music".into())),
    ]);
    assert!(matches!(judge.judge(packet()).verdict, KnowledgeJudgeVerdict::Accept));
    assert!(matches!(
        judge.judge(packet()).verdict,
        KnowledgeJudgeVerdict::Reject(KnowledgeRejectionReason::WrongDomain(ref domain)) if domain == "Music"
    ));
    let third = judge.judge(packet());
    assert!(matches!(third.verdict, KnowledgeJudgeVerdict::Reject(KnowledgeRejectionReason::MeaningUnclear)));
    assert!(third.diagnostic_message.is_none());
    assert_eq!(judge.calls(), 3);
    assert_eq!(FixtureKnowledgeJudge::default().calls(), 0);
}

#[test]
fn judge_operational_failures_are_persistence_rejections() {
    let unavailable = KnowledgeJudgeDecision::judge_unavailable("connection refused".into());
    assert!(matches!(unavailable.verdict(), KnowledgeJudgeVerdict::Reject(KnowledgeRejectionReason::PersistenceRejected)));
    assert_eq!(unavailable.diagnostic_message.as_deref(), Some("mind judge unavailable: connection refused"));

    let refused = KnowledgeJudgeDecision::from_mind_judge_reply(MindJudgeReply::RequestRejected {
        reason: "Overloaded".into(),
        message: "try later".into(),
    });
    assert!(matches!(refused.verdict, KnowledgeJudgeVerdict::Reject(KnowledgeRejectionReason::PersistenceRejected)));
    assert_eq!(refused.diagnostic_message.as_deref(), Some("mind judge operational rejection: Overloaded: try later"));
    assert!(matches!(
        refused.parse_status,
        KnowledgeJudgeParseStatus::MindJudgeRequestRejected { ref reason, ref message } if reason == "Overloaded" && message == "try later"
    ));

    let judged = KnowledgeJudgeDecision::from_mind_judge_reply(MindJudgeReply::KnowledgeJudged {
        verdict: KnowledgeJudgeVerdict::Accept,
        diagnostic_message: Some("clear".into()),
    });
    assert!(matches!(judged.verdict, KnowledgeJudgeVerdict::Accept));
    assert_eq!(judged.diagnostic_message.as_deref(), Some("clear"));
}

#[test]
fn mind_judge_socket_configuration_default_timeout_is_short() {
    assert_eq!(MindKnowledgeJudgeSocketConfiguration::DEFAULT_TIMEOUT_MILLISECONDS, 5_000);
}

#[test]
fn daemon_configuration_selects_the_mind_judge_socket() {
    let configuration = MindDaemonConfiguration::new("/s/mind.sema".into(), "/s/mind.sock".into(), "/s/meta-mind.sock".into())
        .with_mind_judge(MindKnowledgeJudgeSocketConfiguration::new("/s/mind-judge.sock".into(), 750));
    assert!(configuration.validate().is_ok());
    assert!(matches!(
        configuration.knowledge_judge,
        MindKnowledgeJudgeConfiguration::MindJudge(ref judge)
            if judge.socket_path == "/s/mind-judge.sock" && judge.timeout_milliseconds == 750
    ));
    assert_eq!(configuration.socket_mode(), Some(OWNER_ONLY_SOCKET_MODE));
    assert_eq!(OWNER_ONLY_SOCKET_MODE, 0o600);
    assert_eq!(configuration.request_concurrency_limit(), MAXIMUM_CONCURRENT_REQUESTS);
    assert_eq!(configuration.meta_socket_path(), Some("/s/meta-mind.sock"));
    assert_eq!(configuration.database_path(), "/s/mind.sema");
    let judge = MindJudgeSocketKnowledgeJudge::new(MindKnowledgeJudgeSocketConfiguration::new("/s/j.sock".into(), 5));
    assert_eq!(judge.configuration.socket_path(), "/s/j.sock");
}

#[test]
fn configuration_writer_accepts_mind_judge_socket_record() {
    let request = record_block(vec![
        atom("ConfigurationWriteRequest"),
        atom("/fixture/mind.sock"),
        atom("/fixture/meta-mind.sock"),
        atom("/fixture/mind.sema"),
        atom("/fixture/daemon.rkyv"),
        record_block(vec![atom("MindJudge"), atom("/fixture/mind-judge.sock"), atom("750")]),
    ]);
    let decoded = ConfigurationWriteRequest::from_nota_block(&request).expect("request decodes");
    assert_eq!(decoded.output_path.as_path(), "/fixture/daemon.rkyv");
    let configuration = decoded.configuration();
    assert_eq!(configuration.store_path, "/fixture/mind.sema");
    assert_eq!(configuration.socket_path, "/fixture/mind.sock");
    assert!(matches!(
        configuration.knowledge_judge,
        MindKnowledgeJudgeConfiguration::MindJudge(ref judge)
            if judge.socket_path == "/fixture/mind-judge.sock" && judge.timeout_milliseconds == 750
    ));
}

#[test]
fn configuration_writer_defaults_to_the_fixture_judge() {
    let request = record_block(vec![
        atom("ConfigurationWriteRequest"),
        atom("/a"),
        atom("/b"),
        atom("/c"),
        atom("/d"),
    ]);
    let decoded = ConfigurationWriteRequest::from_nota_block(&request).expect("request decodes");
    assert!(matches!(decoded.knowledge_judge, ConfigurationWriterKnowledgeJudge::FixtureKnowledgeJudge));
    assert!(matches!(decoded.configuration().knowledge_judge, MindKnowledgeJudgeConfiguration::Fixture));
    let explicit = ConfigurationWriterKnowledgeJudge::from_nota_block(&record_block(vec![atom("FixtureKnowledgeJudge")]));
    assert!(matches!(explicit, Ok(ConfigurationWriterKnowledgeJudge::FixtureKnowledgeJudge)));
}

#[test]
fn configuration_writer_names_what_is_wrong() {
    let short = record_block(vec![atom("ConfigurationWriteRequest"), atom("/a")]);
    assert!(matches!(
        ConfigurationWriteRequest::from_nota_block(&short),
        Err(NotaDecodeError::ExpectedRootCount { kind_name: "ConfigurationWriteRequest", expected: 5, found: 2 })
    ));
    let renamed = record_block(vec![atom("WriteRequest"), atom("/a"), atom("/b"), atom("/c"), atom("/d")]);
    assert!(matches!(
        ConfigurationWriteRequest::from_nota_block(&renamed),
        Err(NotaDecodeError::UnknownVariant { ref variant, .. }) if variant == "WriteRequest"
    ));
    assert!(matches!(
        ConfigurationWriteRequest::from_nota_block(&atom("ConfigurationWriteRequest")),
        Err(NotaDecodeError::ExpectedRecord { kind_name: "ConfigurationWriteRequest" })
    ));
    let nested_path = record_block(vec![
        atom("ConfigurationWriteRequest"),
        record_block(vec![atom("/a")]),
        atom("/b"),
        atom("/c"),
        atom("/d"),
    ]);
    assert!(matches!(
        ConfigurationWriteRequest::from_nota_block(&nested_path),
        Err(NotaDecodeError::ExpectedAtom { kind_name: "ConfigurationWriterPath" })
    ));
    let bad_timeout = record_block(vec![atom("MindJudge"), atom("/j.sock"), atom("soon")]);
    assert!(matches!(
        ConfigurationWriterKnowledgeJudge::from_nota_block(&bad_timeout),
        Err(NotaDecodeError::InvalidNumber { .. })
    ));
    let empty = record_block(Vec::new());
    assert!(matches!(
        ConfigurationWriterKnowledgeJudge::from_nota_block(&empty),
        Err(NotaDecodeError::ExpectedRootCount { expected: 1, found: 0, .. })
    ));
    let bracketed = NotaBlock::Delimited(NotaDelimiter::Bracket, vec![atom("FixtureKnowledgeJudge")]);
    assert!(matches!(
        ConfigurationWriterKnowledgeJudge::from_nota_block(&bracketed),
        Err(NotaDecodeError::ExpectedRecord { kind_name: "KnowledgeJudge" })
    ));
}

#[test]
fn configuration_writer_paths_and_input_keep_their_text() {
    let path = ConfigurationWriterPath("/out/daemon.rkyv".into());
    assert_eq!(path.as_path(), "/out/daemon.rkyv");
    assert_eq!(path.path_buf(), "/out/daemon.rkyv");
    assert_eq!(ConfigurationWriterInput::new("(x)".into()).text, "(x)");
}

#[test]
fn applied_decisions_keep_the_verdict_and_the_reply() {
    let request = packet();
    assert_eq!(request.packet().statement, "s");
    let decision = KnowledgeJudgeDecision::new(KnowledgeJudgeVerdict::Accept);
    let applied = KnowledgeJudgeAppliedDecision::new(submission("Kept."), decision, KnowledgeReply::Accepted("abcd".into()));
    assert!(matches!(applied.verdict, KnowledgeJudgeVerdict::Accept));
    assert!(matches!(applied.parse_status, KnowledgeJudgeParseStatus::ParsedKnowledgeJudgeResponse));
    assert!(matches!(applied.reply, KnowledgeReply::Accepted(ref id) if id == "abcd"));
    assert_eq!(applied.submission.statement, "Kept.");
}
