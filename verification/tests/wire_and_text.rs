use mind::choreography::{OwnerClient, OwnerEndpoint, OwnerFrameCodec};
use mind::command::{CommandInputSource, MindCommandEnvironment, DEFAULT_MIND_ACTOR, DEFAULT_MIND_SOCKET};
use mind::decimal::parse_decimal;
use mind::frame::{
    envelope_from_frame, frame_body_length, reply_from_frame, single_operation, FrameBody, FrameError, FrameReply,
    FrameRequest, LengthPrefixedFrameBytes, SubReply,
};
use mind::meta::{MetaMindCommandEnvironment, MetaMindFrameCodec, MetaMindFrameDecode, DEFAULT_META_MIND_SOCKET};
use mind::octal::parse_octal;
use mind::supervision::{
    ComponentHealth, ComponentKind, HandleSupervisionRequest, SupervisionArguments, SupervisionListener, SupervisionPhase,
    SupervisionPhaseReply, SupervisionProfile, SupervisionReply, SupervisionRequest, SupervisionSocketMode,
};
use mind::nota_block::{NotaBlock, NotaDelimiter};
use mind::text::{
    Alias, BeadsTask, ByAlias, ByItem, ByKind, ByStatus, Display, EdgeKindText, EdgeTargetText, GitCommit,
    AliasAssignment, ItemKindText, ItemReferenceTarget, ItemReferenceText, ItemStatusText, Link, LinkTargetText,
    NotaDecodeError, NoteSubmission, QueryKindText, Ready, Stable, StatusChange, TextOptionalString, TextVariantEncoding,
};
use mind::transport::{MindDaemon, MindDaemonEndpoint, MindFrameCodec, MindSocketMode, StoreLocation, DEFAULT_MAXIMUM_FRAME_BYTES};

fn request(actor: Option<&str>, operations: Vec<u8>) -> FrameBody<u8, u8> {
    FrameBody::Request(FrameRequest { caller_identity: actor.map(str::to_string), operations })
}

#[test]
fn frame_prefix_announces_a_big_endian_length() {
    assert_eq!(frame_body_length(&[0, 0, 1, 2], 1024).expect("within the limit"), 258);
    match frame_body_length(&[0, 0, 4, 1], 1024) {
        Err(FrameError::FrameTooLarge { found, limit }) => assert_eq!((found, limit), (1025, 1024)),
        other => panic!("expected an oversized frame, got {other:?}"),
    }
    let frame = LengthPrefixedFrameBytes::from_parts(&[0, 0, 0, 2], vec![7, 8]);
    assert_eq!(frame.as_slice(), &[0, 0, 0, 2, 7, 8]);
}

#[test]
fn request_frames_need_a_caller_identity_and_an_operation() {
    let envelope = envelope_from_frame(request(Some("designer"), vec![5, 6])).expect("working request");
    assert_eq!(envelope.actor, "designer");
    assert_eq!(envelope.request, 5);
    assert!(matches!(envelope_from_frame(request(None, vec![5])), Err(FrameError::MissingCallerIdentity)));
    assert!(matches!(envelope_from_frame(request(Some("designer"), Vec::new())), Err(FrameError::UnexpectedFrame(_))));
    let reply: FrameBody<u8, u8> = FrameBody::Reply(FrameReply::Rejected { reason: "no".into() });
    assert!(matches!(envelope_from_frame(reply), Err(FrameError::UnexpectedFrame(_))));
}

#[test]
fn reply_frames_give_the_first_outcome() {
    let accepted: FrameBody<u8, u8> = FrameBody::Reply(FrameReply::Accepted { first: SubReply::Completed(9) });
    assert_eq!(reply_from_frame(accepted, "expected reply").expect("completed"), 9);
    let other: FrameBody<u8, u8> = FrameBody::Reply(FrameReply::Accepted { first: SubReply::Other("Busy".into()) });
    assert!(matches!(reply_from_frame(other, "expected reply"), Err(FrameError::UnexpectedSubReply(ref text)) if text == "Busy"));
    let rejected: FrameBody<u8, u8> = FrameBody::Reply(FrameReply::Rejected { reason: "denied".into() });
    assert!(matches!(reply_from_frame(rejected, "expected reply"), Err(FrameError::FrameReplyRejected(ref text)) if text == "denied"));
    assert!(matches!(reply_from_frame(request(Some("a"), vec![1]), "expected reply"), Err(FrameError::UnexpectedFrame("expected reply"))));
}

#[test]
fn owner_protocols_take_exactly_one_operation() {
    assert_eq!(single_operation(request(None, vec![4]), "one", "request").expect("one operation"), 4);
    assert!(matches!(single_operation(request(None, vec![4, 5]), "one", "request"), Err(FrameError::UnexpectedFrame("one"))));
    let codec = MetaMindFrameCodec::new(64);
    assert!(matches!(codec.decode_request_frame::<u8, u8>(None), Err(MetaMindFrameDecode::NotMeta)));
    assert_eq!(codec.decode_request_frame(Some(request(None, vec![3]))).expect("meta operation"), 3);
}

#[test]
fn socket_modes_read_octal_text() {
    assert_eq!(parse_octal("600"), Some(384));
    assert_eq!(parse_octal("+17"), Some(15));
    assert_eq!(parse_octal(""), None);
    assert_eq!(parse_octal("+"), None);
    assert_eq!(parse_octal("8"), None);
    assert_eq!(parse_octal("-1"), None);
    assert_eq!(parse_octal("77777777777"), None);
    assert_eq!(MindSocketMode::from_environment_value(Some("660".into())).map(MindSocketMode::as_octal), Some(432));
    assert!(MindSocketMode::from_environment_value(Some("x".into())).is_none());
    assert!(MindSocketMode::from_environment_value(None).is_none());
    assert_eq!(MindSocketMode::new(0o600).as_octal(), 0o600);
    assert_eq!(SupervisionSocketMode::from_octal(0o640).as_octal(), 0o640);
}

#[test]
fn counts_read_decimal_text() {
    assert_eq!(parse_decimal("750"), Some(750));
    assert_eq!(parse_decimal("+5"), Some(5));
    assert_eq!(parse_decimal("18446744073709551615"), Some(u64::MAX));
    assert_eq!(parse_decimal("18446744073709551616"), None);
    assert_eq!(parse_decimal("7a"), None);
    assert_eq!(parse_decimal(""), None);
}

#[test]
fn supervision_listener_defaults_to_owner_only() {
    let profile = SupervisionProfile::mind();
    assert!(SupervisionListener::from_environment_values(&profile, None, Some("600".into())).is_none());
    let listener = SupervisionListener::from_environment_values(&profile, Some("/run/s.sock".into()), None).expect("socket given");
    assert_eq!(listener.socket(), "/run/s.sock");
    assert_eq!(listener.mode.as_octal(), 0o600);
    let custom = SupervisionListener::from_environment_values(&profile, Some("/run/s.sock".into()), Some("640".into()))
        .expect("socket given");
    assert_eq!(custom.mode.as_octal(), 0o640);
    let unreadable = SupervisionListener::from_environment_values(&profile, Some("/run/s.sock".into()), Some("rw".into()))
        .expect("socket given");
    assert_eq!(unreadable.mode.as_octal(), 0o600);
}

#[test]
fn supervision_phase_answers_each_request() {
    let mut phase = SupervisionPhase::new(SupervisionProfile::mind());
    match phase.reply(SupervisionRequest::Announce) {
        SupervisionReply::Identified { name, kind, engine_management_protocol_version, last_fatal_startup_error } => {
            assert_eq!(name, "mind");
            assert_eq!(kind, ComponentKind::Mind);
            assert_eq!(engine_management_protocol_version, 1);
            assert!(last_fatal_startup_error.is_none());
        }
        other => panic!("expected identity, got {other:?}"),
    }
    assert!(matches!(phase.reply(SupervisionRequest::ReadinessStatus), SupervisionReply::Ready { component_started_at: None }));
    assert!(matches!(
        phase.reply(SupervisionRequest::HealthStatus),
        SupervisionReply::HealthReport { health: ComponentHealth::Running }
    ));
    assert!(matches!(phase.reply(SupervisionRequest::Stop), SupervisionReply::StopAcknowledged { drain_completed_at: None }));
    assert_eq!(phase.request_count, 4);
    assert!(matches!(
        SupervisionPhaseReply::unavailable().into_reply(),
        SupervisionReply::HealthReport { health: ComponentHealth::Failed }
    ));
    let handled = phase.handle(HandleSupervisionRequest::new(SupervisionRequest::HealthStatus));
    assert!(matches!(handled.reply, SupervisionReply::HealthReport { health: ComponentHealth::Running }));
    assert_eq!(phase.request_count, 5);
    assert_eq!(SupervisionArguments::new(SupervisionProfile::mind()).profile.name, "mind");
}

#[test]
fn command_environments_fall_back_to_defaults() {
    let defaults = MindCommandEnvironment::from_values(None, None);
    assert_eq!(defaults.endpoint().as_path(), DEFAULT_MIND_SOCKET);
    assert_eq!(defaults.actor(), DEFAULT_MIND_ACTOR);
    let given = MindCommandEnvironment::from_values(Some("/run/mind.sock".into()), Some("designer".into()));
    assert_eq!(given.endpoint().as_path(), "/run/mind.sock");
    assert_eq!(given.actor(), "designer");
    assert_eq!(MetaMindCommandEnvironment::from_values(None).endpoint().as_path(), DEFAULT_META_MIND_SOCKET);
    assert_eq!(CommandInputSource::new("(Get abcd)".into()).text(), "(Get abcd)");
}

#[test]
fn daemon_and_client_values_carry_their_settings() {
    let daemon = MindDaemon::new(MindDaemonEndpoint::new("/run/mind.sock".into()), StoreLocation::new("/var/mind.sema".into()))
        .with_socket_mode(MindSocketMode::new(0o600));
    assert_eq!(daemon.endpoint.as_path(), "/run/mind.sock");
    assert_eq!(MindFrameCodec::default().maximum_frame_bytes, DEFAULT_MAXIMUM_FRAME_BYTES);
    assert_eq!(OwnerFrameCodec::default().maximum_frame_bytes, DEFAULT_MAXIMUM_FRAME_BYTES);
    let client = OwnerClient::new(OwnerEndpoint::new("/run/orchestrate.sock".into()));
    assert_eq!(client.endpoint.as_path(), "/run/orchestrate.sock");
}

#[test]
fn bare_enums_read_back_from_their_names() {
    for kind in [ItemKindText::Task, ItemKindText::Defect, ItemKindText::Question, ItemKindText::Decision, ItemKindText::Note, ItemKindText::Handoff] {
        assert_eq!(ItemKindText::from_variant_name(kind.to_nota()).expect("known name"), kind);
    }
    for status in [ItemStatusText::Open, ItemStatusText::InProgress, ItemStatusText::Blocked, ItemStatusText::Closed, ItemStatusText::Deferred] {
        assert_eq!(ItemStatusText::from_variant_name(status.to_nota()).expect("known name"), status);
    }
    assert_eq!(EdgeKindText::from_variant_name("DependsOn").expect("known name"), EdgeKindText::DependsOn);
    match ItemKindText::from_variant_name("Chore") {
        Err(NotaDecodeError::UnknownVariant { enum_name, variant }) => {
            assert_eq!(enum_name, "ItemKindText");
            assert_eq!(variant, "Chore");
        }
        other => panic!("expected an unknown variant, got {other:?}"),
    }
}

fn atom(text: &str) -> NotaBlock {
    NotaBlock::Atom(text.into())
}

fn record(entries: Vec<NotaBlock>) -> NotaBlock {
    NotaBlock::Delimited(NotaDelimiter::Parenthesis, entries)
}

#[test]
fn variant_records_read_back() {
    for reference in [
        ItemReferenceText::Stable(Stable { id: "aaa".into() }),
        ItemReferenceText::Display(Display { id: "T-1".into() }),
        ItemReferenceText::Alias(Alias { alias: "beads-12".into() }),
    ] {
        let back = ItemReferenceText::from_nota_block(&reference.to_nota_block()).expect("reads back");
        assert_eq!(format!("{back:?}"), format!("{reference:?}"));
    }
    let decoded = ItemReferenceText::from_nota_block(&record(vec![atom("Stable"), atom("aab")])).expect("decodes");
    assert!(matches!(decoded, ItemReferenceText::Stable(Stable { ref id }) if id == "aab"));
    let wrong_count = ItemReferenceText::from_nota_block(&record(vec![atom("Stable")]));
    assert!(matches!(wrong_count, Err(NotaDecodeError::ExpectedRootCount { expected: 1, found: 0, .. })));
    let unknown_first = ItemReferenceText::from_nota_block(&record(vec![atom("Stale")]));
    assert!(matches!(unknown_first, Err(NotaDecodeError::UnknownVariant { ref variant, .. }) if variant == "Stale"));
    let no_head = ItemReferenceText::from_nota_block(&record(vec![record(Vec::new()), atom("aab")]));
    assert!(matches!(no_head, Err(NotaDecodeError::ExpectedAtom { kind_name: "variant head" })));
    assert!(matches!(ItemReferenceText::from_nota_block(&atom("aab")), Err(NotaDecodeError::ExpectedRecord { .. })));

    let target = EdgeTargetText::GitCommit(GitCommit { hash: "abc123".into() });
    let back = EdgeTargetText::from_nota_block(&target.to_nota_block()).expect("reads back");
    assert_eq!(format!("{back:?}"), format!("{target:?}"));
    let unknown = EdgeTargetText::from_nota_block(&record(vec![atom("Url"), atom("x")]));
    assert!(matches!(unknown, Err(NotaDecodeError::UnknownVariant { ref variant, .. }) if variant == "Url"));
}

#[test]
fn link_targets_nest_item_references() {
    let target = LinkTargetText::ItemReferenceTarget(ItemReferenceTarget { item: ItemReferenceText::Alias(Alias { alias: "B-7".into() }) });
    let block = target.to_nota_block();
    let back = LinkTargetText::from_nota_block(&block).expect("reads back");
    assert_eq!(format!("{back:?}"), format!("{target:?}"));
    let nested_error = LinkTargetText::from_nota_block(&record(vec![atom("ItemReferenceTarget"), atom("B-7")]));
    assert!(matches!(nested_error, Err(NotaDecodeError::ExpectedRecord { kind_name: "ItemReferenceText" })));
    let task = LinkTargetText::from_nota_block(&record(vec![atom("BeadsTask"), atom("mind-12")])).expect("decodes");
    assert!(matches!(task, LinkTargetText::BeadsTask(BeadsTask { ref token }) if token == "mind-12"));
}

#[test]
fn query_kinds_read_back() {
    for query in [
        QueryKindText::Ready(Ready {}),
        QueryKindText::ByItem(ByItem { item: ItemReferenceText::Stable(Stable { id: "aaa".into() }) }),
        QueryKindText::ByKind(ByKind { kind: ItemKindText::Decision }),
        QueryKindText::ByStatus(ByStatus { status: ItemStatusText::Blocked }),
        QueryKindText::ByAlias(ByAlias { alias: "mind-3".into() }),
    ] {
        let back = QueryKindText::from_nota_block(&query.to_nota_block()).expect("reads back");
        assert_eq!(format!("{back:?}"), format!("{query:?}"));
    }
    let extra = QueryKindText::from_nota_block(&record(vec![atom("Ready"), atom("now")]));
    assert!(matches!(extra, Err(NotaDecodeError::ExpectedRootCount { expected: 0, found: 1, .. })));
    let bad_kind = QueryKindText::from_nota_block(&record(vec![atom("ByKind"), atom("Chore")]));
    assert!(matches!(bad_kind, Err(NotaDecodeError::UnknownVariant { enum_name: "ItemKindText", .. })));
    assert_eq!(ItemKindText::from_nota_block(&ItemKindText::Handoff.to_nota_block()).expect("reads back"), ItemKindText::Handoff);
    assert_eq!(EdgeKindText::from_nota_block(&EdgeKindText::Answers.to_nota_block()).expect("reads back"), EdgeKindText::Answers);
    let encoding = TextVariantEncoding::new("Ready", Vec::new());
    assert_eq!(encoding.variant, "Ready");
    assert!(encoding.fields.is_empty());
}

#[test]
fn optional_strings_read_none_as_absent() {
    assert_eq!(TextOptionalString::from_nota_block(&atom("None")).expect("decodes").into_inner(), None);
    assert_eq!(TextOptionalString::from_nota_block(&atom("body")).expect("decodes").into_inner(), Some("body".to_string()));
    let absent = TextOptionalString::from_option(&None);
    assert!(matches!(absent.to_nota_block(), NotaBlock::Atom(ref text) if text == "None"));
    assert_eq!(TextOptionalString::from_atom("None".into()).into_inner(), None);
    assert_eq!(TextOptionalString::from_atom("note".into()).into_inner(), Some("note".to_string()));
    assert_eq!(TextOptionalString::from_option(&Some("x".into())).into_inner(), Some("x".to_string()));
}

#[test]
fn request_records_read_back() {
    let link = Link {
        source: ItemReferenceText::Stable(Stable { id: "aaa".into() }),
        kind: EdgeKindText::DependsOn,
        target: LinkTargetText::File(mind::text::File { path: "src/lib.rs".into() }),
        body: Some("because".into()),
    };
    let back = Link::from_nota_block(&link.to_nota_block()).expect("reads back");
    assert_eq!(format!("{back:?}"), format!("{link:?}"));

    let change = StatusChange {
        item: ItemReferenceText::Display(Display { id: "T-4".into() }),
        status: ItemStatusText::Closed,
        body: None,
    };
    let back = StatusChange::from_nota_block(&change.to_nota_block()).expect("reads back");
    assert_eq!(format!("{back:?}"), format!("{change:?}"));

    let note = NoteSubmission { item: ItemReferenceText::Alias(Alias { alias: "B-1".into() }), body: "looked".into() };
    let back = NoteSubmission::from_nota_block(&note.to_nota_block()).expect("reads back");
    assert_eq!(format!("{back:?}"), format!("{note:?}"));

    let alias = AliasAssignment { item: ItemReferenceText::Stable(Stable { id: "aab".into() }), alias: "mind-9".into() };
    let back = AliasAssignment::from_nota_block(&alias.to_nota_block()).expect("reads back");
    assert_eq!(format!("{back:?}"), format!("{alias:?}"));
}

#[test]
fn a_body_written_as_none_reads_back_absent() {
    let link = Link {
        source: ItemReferenceText::Stable(Stable { id: "aaa".into() }),
        kind: EdgeKindText::RelatesTo,
        target: LinkTargetText::Report(mind::text::Report { path: "r.md".into() }),
        body: Some("None".into()),
    };
    let back = Link::from_nota_block(&link.to_nota_block()).expect("reads back");
    assert_eq!(back.body, None);
}

#[test]
fn request_records_report_the_first_bad_field() {
    let wrong_head = NoteSubmission::from_nota_block(&record(vec![atom("Note"), atom("x"), atom("y")]));
    assert!(matches!(wrong_head, Err(NotaDecodeError::UnknownVariant { enum_name: "MindTextRequest", .. })));
    let short = Link::from_nota_block(&record(vec![atom("Link"), atom("x")]));
    assert!(matches!(short, Err(NotaDecodeError::ExpectedRootCount { expected: 4, found: 1, .. })));
    let bad_source = Link::from_nota_block(&record(vec![atom("Link"), atom("aaa"), atom("Bogus"), atom("x"), atom("None")]));
    assert!(matches!(bad_source, Err(NotaDecodeError::ExpectedRecord { kind_name: "ItemReferenceText" })));
    let bad_status = StatusChange::from_nota_block(&record(vec![
        atom("StatusChange"),
        record(vec![atom("Stable"), atom("aaa")]),
        atom("Done"),
        atom("None"),
    ]));
    assert!(matches!(bad_status, Err(NotaDecodeError::UnknownVariant { enum_name: "ItemStatusText", .. })));
}
