use mind::graph::{RelationFilter, ThoughtFilter, SUBSCRIPTION_BUFFER_BOUND};
use mind::records::{Relation, RelationKind, Thought};
use mind::subscription::{
    ReadSubscriptionEvents, RuntimeSubscription, RuntimeSubscriptionRegistration, StoreBindReceipt,
    SubscriptionLifecycleReply, SubscriptionPayload, SubscriptionPublishReceipt, SubscriptionStreamKind,
    SubscriptionSupervisor,
};

fn thought(id: &str, kind: u64) -> Thought {
    Thought {
        id: id.to_string(),
        kind,
        body: "body".to_string(),
        author: "operator".to_string(),
        occurred_at: 1,
    }
}

fn payload_id(payload: &SubscriptionPayload) -> &str {
    match payload {
        SubscriptionPayload::Thought(t) => t.id.as_str(),
        SubscriptionPayload::Relation(r) => r.id.as_str(),
        SubscriptionPayload::TechnicalNode(n) => n.identifier.as_str(),
        SubscriptionPayload::TechnicalRelation(r) => r.identifier.as_str(),
    }
}

#[test]
fn payload_with_demand_is_delivered_at_once_with_the_next_cursor() {
    let mut runtime = RuntimeSubscription::thoughts("aaa".into(), ThoughtFilter::ByKind(Vec::new()), 4, 1);
    let event = runtime
        .accept_payload(SubscriptionPayload::Thought(thought("t1", 1)))
        .expect("demand delivers at once");
    assert_eq!(event.subscription, "aaa");
    assert_eq!(event.event.cursor, 5);
    assert_eq!(payload_id(&event.event.payload), "t1");
    assert_eq!(runtime.demand, 0);
    assert_eq!(runtime.last_cursor, 5);
}

#[test]
fn waiting_events_are_delivered_in_order_when_demand_arrives() {
    let mut runtime = RuntimeSubscription::thoughts("aaa".into(), ThoughtFilter::ByKind(Vec::new()), 0, 0);
    assert!(runtime.accept_payload(SubscriptionPayload::Thought(thought("t1", 1))).is_none());
    assert!(runtime.accept_payload(SubscriptionPayload::Thought(thought("t2", 1))).is_none());
    assert!(runtime.accept_payload(SubscriptionPayload::Thought(thought("t3", 1))).is_none());
    assert_eq!(runtime.pending.len(), 3);

    let first = runtime.accept_demand(2);
    let delivered: Vec<(u64, &str)> = first.iter().map(|e| (e.event.cursor, payload_id(&e.event.payload))).collect();
    assert_eq!(delivered, vec![(1, "t1"), (2, "t2")]);
    assert_eq!(runtime.demand, 0);

    let second = runtime.accept_demand(5);
    assert_eq!(second.len(), 1);
    assert_eq!(second[0].event.cursor, 3);
    assert_eq!(runtime.demand, 4);
    assert!(runtime.pending.is_empty());
}

#[test]
fn a_full_buffer_overflows_and_stays_overflowed() {
    let mut runtime = RuntimeSubscription::thoughts("aaa".into(), ThoughtFilter::ByKind(Vec::new()), 0, 0);
    for index in 0..SUBSCRIPTION_BUFFER_BOUND {
        assert!(runtime.accept_payload(SubscriptionPayload::Thought(thought(&format!("t{index}"), 1))).is_none());
    }
    assert!(!runtime.overflowed);
    assert!(runtime.accept_payload(SubscriptionPayload::Thought(thought("late", 1))).is_none());
    assert!(runtime.overflowed);
    assert_eq!(runtime.pending.len(), usize::from(SUBSCRIPTION_BUFFER_BOUND));
    let cursor = runtime.last_cursor;
    let delivered = runtime.accept_demand(u16::MAX);
    assert_eq!(delivered.len(), usize::from(SUBSCRIPTION_BUFFER_BOUND));
    assert!(runtime.accept_payload(SubscriptionPayload::Thought(thought("later", 1))).is_none());
    assert_eq!(runtime.last_cursor, cursor);
}

#[test]
fn demand_saturates_at_the_largest_credit() {
    let mut runtime = RuntimeSubscription::thoughts("aaa".into(), ThoughtFilter::ByKind(Vec::new()), 0, u16::MAX - 1);
    assert!(runtime.accept_demand(10).is_empty());
    assert_eq!(runtime.demand, u16::MAX);
}

#[test]
fn supervisor_publishes_only_what_a_filter_selects() {
    let mut supervisor = SubscriptionSupervisor::new(0);
    supervisor.register(RuntimeSubscription::thoughts("aaa".into(), ThoughtFilter::ByKind(vec![2]), 0, 5));
    let receipt = supervisor.bind_store();
    assert!(receipt.is_bound());

    let relations: Vec<Relation> = Vec::new();
    let skipped = supervisor.publish_thought(&"aaa".to_string(), thought("t1", 1), Some(&relations));
    assert_eq!(skipped.published_count, 0);
    let published = supervisor.publish_thought(&"aaa".to_string(), thought("t2", 2), Some(&relations));
    assert_eq!(published.published_count, 1);
    let unknown = supervisor.publish_thought(&"zzz".to_string(), thought("t3", 2), Some(&relations));
    assert_eq!(unknown.published_count, 1);

    let log = supervisor.event_log(ReadSubscriptionEvents::all());
    assert_eq!(log.len(), 1);
    assert_eq!(payload_id(&log[0].event.payload), "t2");
    assert_eq!(log[0].event.cursor, 1);
}

#[test]
fn thoughts_are_not_published_before_the_store_is_bound() {
    let mut supervisor = SubscriptionSupervisor::new(0);
    supervisor.register(RuntimeSubscription::thoughts("aaa".into(), ThoughtFilter::ByKind(Vec::new()), 0, 5));
    let relations: Vec<Relation> = Vec::new();
    let receipt = supervisor.publish_thought(&"aaa".to_string(), thought("t1", 1), Some(&relations));
    assert_eq!(receipt.published_count, 0);
    assert!(supervisor.event_log(ReadSubscriptionEvents::all()).is_empty());
}

#[test]
fn supervisor_demand_and_retraction_answer_for_live_subscriptions() {
    let mut supervisor = SubscriptionSupervisor::new(0);
    supervisor.register(RuntimeSubscription::relations(
        "aab".into(),
        RelationFilter::ByKind(vec![RelationKind::Belongs]),
        0,
        0,
    ));
    let relation = Relation {
        id: "r1".into(),
        kind: RelationKind::Belongs,
        source: "t1".into(),
        target: "t0".into(),
        author: "operator".into(),
        occurred_at: 1,
        note: None,
    };
    let waiting = supervisor.publish_relation(&"aab".to_string(), relation);
    assert_eq!(waiting.published_count, 0);

    match supervisor.accept_demand("aab".into(), 3) {
        SubscriptionLifecycleReply::DemandAccepted { subscription, accepted } => {
            assert_eq!(subscription, "aab");
            assert_eq!(accepted, 3);
        }
        other => panic!("expected demand accepted, got {other:?}"),
    }
    assert_eq!(supervisor.post_commit_count, 1);
    assert_eq!(supervisor.event_log(ReadSubscriptionEvents { limit: 5 }).len(), 1);

    match supervisor.retract_subscription("aab".into()) {
        SubscriptionLifecycleReply::Retracted { subscription, stream, last_cursor } => {
            assert_eq!(subscription, "aab");
            assert_eq!(stream, SubscriptionStreamKind::Relations);
            assert_eq!(last_cursor, 1);
        }
        other => panic!("expected retraction, got {other:?}"),
    }
    assert!(matches!(supervisor.retract_subscription("aab".into()), SubscriptionLifecycleReply::Unimplemented));
    assert!(matches!(supervisor.accept_demand("aab".into(), 1), SubscriptionLifecycleReply::Unimplemented));
}

#[test]
fn registering_again_replaces_the_subscription() {
    let mut supervisor = SubscriptionSupervisor::new(0);
    supervisor.register(RuntimeSubscription::thoughts("aaa".into(), ThoughtFilter::ByKind(Vec::new()), 7, 0));
    supervisor.restore(RuntimeSubscriptionRegistration::Thoughts {
        subscription: "aaa".into(),
        filter: ThoughtFilter::ByKind(Vec::new()),
    });
    assert_eq!(supervisor.subscriptions.len(), 1);
    assert_eq!(supervisor.subscriptions[0].last_cursor, 0);
    assert_eq!(supervisor.find(&"aaa".to_string()), Some(0));
    assert_eq!(supervisor.find(&"aab".to_string()), None);
}

#[test]
fn receipts_and_event_log_requests_carry_their_values() {
    assert_eq!(SubscriptionPublishReceipt::new(3).published_count, 3);
    assert!(StoreBindReceipt::bound().is_bound());
    assert_eq!(ReadSubscriptionEvents::all().limit(), usize::MAX);
    let mut supervisor = SubscriptionSupervisor::new(41);
    supervisor.publish_post_commit();
    assert_eq!(supervisor.post_commit_count, 42);
}
