use mind::graph::{
    accept_relation_stream, accept_technical_node_stream, accept_technical_relation_stream, accept_thought_stream,
    read_relations, read_technical_nodes, read_technical_relations, read_thoughts, CompositeThoughtFilter,
    RelationFilter, RelationSelector, TechnicalNodeFilter, TechnicalNodeSelector, TechnicalRelationFilter,
    TechnicalRelationSelector, ThoughtFilter, ThoughtSelector, ThoughtTimeRange, SUBSCRIPTION_BUFFER_BOUND,
};
use mind::ordering::{sort_by_occurred_at, GraphLimit, ResumedSnapshot};
use mind::records::{
    Relation, RelationKind, TechnicalNode, TechnicalNodeBody, TechnicalRelation, TechnicalRelationEndpoint,
    TechnicalSourceLocator, Thought,
};

const GOAL: u64 = 1;
const CLAIM: u64 = 2;
const COMPONENT: u64 = 10;
const REPORT: u64 = 11;
const OWNS: u64 = 20;

fn thought(id: &str, kind: u64, author: &str, at: u64) -> Thought {
    Thought {
        id: id.to_string(),
        kind,
        body: format!("body of {id}"),
        author: author.to_string(),
        occurred_at: at,
    }
}

fn relation(id: &str, kind: RelationKind, source: &str, target: &str, at: u64) -> Relation {
    Relation {
        id: id.to_string(),
        kind,
        source: source.to_string(),
        target: target.to_string(),
        author: "operator".to_string(),
        occurred_at: at,
        note: None,
    }
}

fn node(identifier: &str, key: &str, kind: u64, body: TechnicalNodeBody, at: u64) -> TechnicalNode {
    TechnicalNode {
        identifier: identifier.to_string(),
        stable_key: key.to_string(),
        kind,
        body,
        author: "operator".to_string(),
        occurred_at: at,
    }
}

fn endpoint(identifier: &str, key: &str) -> TechnicalRelationEndpoint {
    TechnicalRelationEndpoint { identifier: identifier.to_string(), stable_key: key.to_string() }
}

fn technical_relation(identifier: &str, kind: u64, source: &str, target: &str, at: u64) -> TechnicalRelation {
    TechnicalRelation {
        identifier: identifier.to_string(),
        kind,
        source: endpoint("aaa", source),
        target: endpoint("aab", target),
        author: "operator".to_string(),
        occurred_at: at,
        note: None,
    }
}

fn ids(thoughts: &[Thought]) -> Vec<&str> {
    thoughts.iter().map(|t| t.id.as_str()).collect()
}

fn stored_thoughts() -> Vec<Thought> {
    vec![
        thought("aaa", GOAL, "operator", 30),
        thought("aab", CLAIM, "designer", 10),
        thought("aac", CLAIM, "operator", 20),
        thought("aad", GOAL, "operator", 10),
    ]
}

#[test]
fn thought_query_orders_by_commit_time_stably() {
    let list = read_thoughts(stored_thoughts(), Vec::new(), ThoughtFilter::ByKind(Vec::new()), 10);
    assert_eq!(ids(&list.thoughts), vec!["aab", "aad", "aac", "aaa"]);
    assert!(!list.has_more);
}

#[test]
fn thought_query_cuts_to_the_limit_and_says_so() {
    let list = read_thoughts(stored_thoughts(), Vec::new(), ThoughtFilter::ByKind(Vec::new()), 2);
    assert_eq!(ids(&list.thoughts), vec!["aab", "aad"]);
    assert!(list.has_more);
    let empty = read_thoughts(stored_thoughts(), Vec::new(), ThoughtFilter::ByKind(Vec::new()), 0);
    assert!(empty.thoughts.is_empty());
    assert!(empty.has_more);
}

#[test]
fn superseded_thoughts_are_never_returned() {
    let relations = vec![relation("aae", RelationKind::Supersedes, "aac", "aab", 40)];
    let list = read_thoughts(stored_thoughts(), relations, ThoughtFilter::ByKind(vec![CLAIM]), 10);
    assert_eq!(ids(&list.thoughts), vec!["aac"]);
}

#[test]
fn thought_filters_select_by_kind_author_time_and_membership() {
    let by_author = read_thoughts(stored_thoughts(), Vec::new(), ThoughtFilter::ByAuthor("designer".into()), 10);
    assert_eq!(ids(&by_author.thoughts), vec!["aab"]);

    let range = ThoughtTimeRange { start: 10, end: Some(20) };
    let by_time = read_thoughts(stored_thoughts(), Vec::new(), ThoughtFilter::ByTimeRange(range), 10);
    assert_eq!(ids(&by_time.thoughts), vec!["aab", "aad", "aac"]);

    let open_end = ThoughtTimeRange { start: 20, end: None };
    let late = read_thoughts(stored_thoughts(), Vec::new(), ThoughtFilter::ByTimeRange(open_end), 10);
    assert_eq!(ids(&late.thoughts), vec!["aac", "aaa"]);

    let relations = vec![relation("aae", RelationKind::Belongs, "aac", "aaa", 40)];
    let in_goal = read_thoughts(stored_thoughts(), relations, ThoughtFilter::InGoal("aaa".into()), 10);
    assert_eq!(ids(&in_goal.thoughts), vec!["aac", "aaa"]);
}

#[test]
fn composite_thought_filter_needs_every_part() {
    let relations = vec![
        relation("aae", RelationKind::Belongs, "aac", "aaa", 40),
        relation("aaf", RelationKind::Belongs, "aab", "aaa", 41),
    ];
    let filter = ThoughtFilter::Composite(CompositeThoughtFilter {
        kinds: vec![CLAIM],
        author: Some("operator".into()),
        time_range: None,
        goal: Some("aaa".into()),
        memory: None,
    });
    let list = read_thoughts(stored_thoughts(), relations, filter, 10);
    assert_eq!(ids(&list.thoughts), vec!["aac"]);
}

#[test]
fn selectors_answer_one_record_at_a_time() {
    let selector = ThoughtSelector::new(ThoughtFilter::InMemory("aaa".into()), Vec::new());
    assert!(selector.accepts(&thought("aaa", GOAL, "operator", 1)));
    assert!(!selector.accepts(&thought("aab", GOAL, "operator", 1)));

    let relation_selector = RelationSelector::new(RelationFilter::BySource("aab".into()));
    let selected = relation_selector.select(vec![
        relation("r1", RelationKind::Other(7), "aab", "aaa", 3),
        relation("r2", RelationKind::Other(7), "aac", "aaa", 2),
    ]);
    assert_eq!(selected.len(), 1);
    assert_eq!(selected[0].id, "r1");

    let node_selector = TechnicalNodeSelector::new(TechnicalNodeFilter::ByStableKey("component:mind".into()));
    assert!(node_selector.accepts(&node("aaa", "component:mind", COMPONENT, TechnicalNodeBody::Other, 1)));
    assert!(!node_selector.accepts(&node("aab", "component:router", COMPONENT, TechnicalNodeBody::Other, 1)));

    let relation_filter = TechnicalRelationFilter::BetweenEndpoints {
        source: "component:mind".into(),
        target: "repo:mind".into(),
    };
    let technical_selector = TechnicalRelationSelector::new(relation_filter);
    assert!(technical_selector.accepts(&technical_relation("aac", OWNS, "component:mind", "repo:mind", 1)));
    assert!(!technical_selector.accepts(&technical_relation("aac", OWNS, "repo:mind", "component:mind", 1)));
}

#[test]
fn relation_query_filters_and_orders() {
    let relations = vec![
        relation("r1", RelationKind::Supersedes, "aab", "aaa", 9),
        relation("r2", RelationKind::Belongs, "aac", "aaa", 3),
        relation("r3", RelationKind::Belongs, "aad", "aab", 5),
    ];
    let filter = RelationFilter::Composite { kinds: vec![RelationKind::Belongs], source: None, target: Some("aaa".into()) };
    let list = read_relations(relations, filter, 10);
    let found: Vec<&str> = list.relations.iter().map(|r| r.id.as_str()).collect();
    assert_eq!(found, vec!["r2"]);
    assert!(!list.has_more);
}

#[test]
fn technical_node_query_matches_source_locators() {
    let nodes = vec![
        node("aaa", "component:mind", COMPONENT, TechnicalNodeBody::Other, 5),
        node(
            "aab",
            "report:review",
            REPORT,
            TechnicalNodeBody::Report { path: "reports/review.md".into() },
            2,
        ),
        node(
            "aac",
            "witness:check",
            REPORT,
            TechnicalNodeBody::Witness {
                witness_locator: Some(TechnicalSourceLocator::Report("reports/review.md".into())),
            },
            3,
        ),
        node(
            "aad",
            "artifact:lib",
            REPORT,
            TechnicalNodeBody::SourceArtifact {
                locator: TechnicalSourceLocator::Other { tag: 4, text: "src/lib.rs".into() },
            },
            1,
        ),
    ];
    let filter = TechnicalNodeFilter::BySourceLocator(TechnicalSourceLocator::Report("reports/review.md".into()));
    let list = read_technical_nodes(nodes, filter, 10);
    let found: Vec<&str> = list.nodes.iter().map(|n| n.identifier.as_str()).collect();
    assert_eq!(found, vec!["aab", "aac"]);
}

#[test]
fn technical_relation_query_reads_endpoint_keys() {
    let relations = vec![
        technical_relation("aac", OWNS, "component:mind", "repo:mind", 7),
        technical_relation("aad", OWNS, "component:router", "repo:router", 6),
    ];
    let filter = TechnicalRelationFilter::Composite {
        relation_kinds: vec![OWNS],
        source_key: Some("component:mind".into()),
        target_key: None,
    };
    let list = read_technical_relations(relations, filter, 1);
    assert_eq!(list.relations.len(), 1);
    assert_eq!(list.relations[0].identifier, "aac");
    assert!(!list.has_more);
}

#[test]
fn limits_and_resumption_cut_lists() {
    let limited = GraphLimit::new(2).apply(vec![1u8, 2, 3]);
    assert_eq!(limited.records, vec![1, 2]);
    assert!(limited.has_more);
    let resumed = ResumedSnapshot::new(vec![1u8, 2, 3], 2);
    assert_eq!(resumed.records, vec![3]);
    assert_eq!(resumed.cursor, 3);
    let beyond = ResumedSnapshot::new(vec![1u8, 2, 3], 9);
    assert!(beyond.records.is_empty());
    assert_eq!(beyond.cursor, 9);
}

#[test]
fn sorting_keeps_equal_times_in_stored_order() {
    let sorted = sort_by_occurred_at(stored_thoughts());
    assert_eq!(ids(&sorted), vec!["aab", "aad", "aac", "aaa"]);
}

#[test]
fn streams_open_with_a_snapshot_after_the_resume_point() {
    let accepted = accept_thought_stream(&ThoughtFilter::ByKind(vec![GOAL]), &Vec::new(), stored_thoughts(), None);
    assert_eq!(ids(&accepted.snapshot), vec!["aaa", "aad"]);
    assert_eq!(accepted.cursor, 2);
    assert_eq!(accepted.buffer_bound, SUBSCRIPTION_BUFFER_BOUND);

    let resumed = accept_thought_stream(&ThoughtFilter::ByKind(vec![GOAL]), &Vec::new(), stored_thoughts(), Some(1));
    assert_eq!(ids(&resumed.snapshot), vec!["aad"]);
    assert_eq!(resumed.cursor, 2);

    let relations = accept_relation_stream(
        &RelationFilter::ByTarget("aaa".into()),
        vec![relation("r1", RelationKind::Belongs, "aab", "aaa", 1)],
        Some(5),
    );
    assert!(relations.snapshot.is_empty());
    assert_eq!(relations.cursor, 5);

    let nodes = accept_technical_node_stream(
        &TechnicalNodeFilter::ByKind(vec![COMPONENT]),
        vec![node("aaa", "component:mind", COMPONENT, TechnicalNodeBody::Other, 1)],
        None,
    );
    assert_eq!(nodes.snapshot.len(), 1);

    let technical = accept_technical_relation_stream(
        &TechnicalRelationFilter::BySource("component:mind".into()),
        vec![technical_relation("aac", OWNS, "component:mind", "repo:mind", 1)],
        None,
    );
    assert_eq!(technical.cursor, 1);
}
