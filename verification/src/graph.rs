//! Selecting graph records by filter, and answering graph queries: the
//! selected records in commit-time order, cut to the query limit.
//!
//! A thought that some `Supersedes` relation targets is never selected:
//! records are immutable, and a correction is a new record plus a relation.

use vstd::prelude::*;

use crate::ordering::{
    is_time_ordered, kept_records, lemma_kept_records_members, lemma_kept_records_take_step, lemma_sorted_by_time_is_ordered,
    lemma_sorted_by_time_rearranges, sort_by_occurred_at, sorted_by_time, GraphLimit, ResumedSnapshot,
};
use crate::records::GraphRecord;
use crate::records::{locators_equal, same_locator, Relation, RelationKind, TechnicalNode, TechnicalNodeBody, TechnicalRelation, TechnicalSourceLocator, Thought};

verus! {

/// A closed time interval; an open end reaches to the end of time.
#[derive(Debug, Clone, Copy, PartialEq, Eq, Structural)]
pub struct ThoughtTimeRange {
    pub start: u64,
    pub end: Option<u64>,
}

#[derive(Debug)]
pub struct CompositeThoughtFilter {
    pub kinds: Vec<u64>,
    pub author: Option<String>,
    pub time_range: Option<ThoughtTimeRange>,
    pub goal: Option<String>,
    pub memory: Option<String>,
}

#[derive(Debug)]
pub enum ThoughtFilter {
    ByKind(Vec<u64>),
    ByAuthor(String),
    ByTimeRange(ThoughtTimeRange),
    InGoal(String),
    InMemory(String),
    Composite(CompositeThoughtFilter),
}

#[derive(Debug)]
pub enum RelationFilter {
    ByKind(Vec<RelationKind>),
    BySource(String),
    ByTarget(String),
    Composite { kinds: Vec<RelationKind>, source: Option<String>, target: Option<String> },
}

#[derive(Debug)]
pub enum TechnicalNodeFilter {
    ByKind(Vec<u64>),
    ByStableKey(String),
    BySourceLocator(TechnicalSourceLocator),
    Composite {
        node_kinds: Vec<u64>,
        stable_key: Option<String>,
        source_locator: Option<TechnicalSourceLocator>,
    },
}

#[derive(Debug)]
pub enum TechnicalRelationFilter {
    ByKind(Vec<u64>),
    BySource(String),
    ByTarget(String),
    BetweenEndpoints { source: String, target: String },
    Composite { relation_kinds: Vec<u64>, source_key: Option<String>, target_key: Option<String> },
}

// ---------------------------------------------------------------------------
// What each filter means.

/// An empty kind list accepts every kind.
pub open spec fn kinds_accept<K>(kinds: Seq<K>, kind: K) -> bool {
    kinds.len() == 0 || kinds.contains(kind)
}

pub open spec fn optional_text_accepts(wanted: Option<String>, actual: Seq<char>) -> bool {
    match wanted {
        Some(text) => text@ == actual,
        None => true,
    }
}

pub open spec fn time_range_accepts(range: ThoughtTimeRange, time: u64) -> bool {
    time >= range.start && match range.end {
        Some(end) => time <= end,
        None => true,
    }
}

/// Whether a `Supersedes` relation targets the thought `id`.
pub open spec fn is_superseded(relations: Seq<Relation>, id: Seq<char>) -> bool {
    exists|i: int|
        0 <= i < relations.len() && (#[trigger] relations[i]).kind == RelationKind::Supersedes
            && relations[i].target@ == id
}

/// Whether the thought is the container itself or `Belongs` to it.
pub open spec fn is_member(relations: Seq<Relation>, thought: Thought, container: Seq<char>) -> bool {
    thought.id@ == container || exists|i: int|
        0 <= i < relations.len() && (#[trigger] relations[i]).kind == RelationKind::Belongs
            && relations[i].source@ == thought.id@ && relations[i].target@ == container
}

pub open spec fn optional_membership_accepts(
    relations: Seq<Relation>,
    thought: Thought,
    container: Option<String>,
) -> bool {
    match container {
        Some(c) => is_member(relations, thought, c@),
        None => true,
    }
}

pub open spec fn thought_filter_accepts(
    filter: ThoughtFilter,
    relations: Seq<Relation>,
    thought: Thought,
) -> bool {
    match filter {
        ThoughtFilter::ByKind(kinds) => kinds_accept(kinds@, thought.kind),
        ThoughtFilter::ByAuthor(author) => thought.author@ == author@,
        ThoughtFilter::ByTimeRange(range) => time_range_accepts(range, thought.occurred_at),
        ThoughtFilter::InGoal(goal) => is_member(relations, thought, goal@),
        ThoughtFilter::InMemory(memory) => is_member(relations, thought, memory@),
        ThoughtFilter::Composite(c) => {
            &&& kinds_accept(c.kinds@, thought.kind)
            &&& optional_text_accepts(c.author, thought.author@)
            &&& match c.time_range {
                Some(range) => time_range_accepts(range, thought.occurred_at),
                None => true,
            }
            &&& optional_membership_accepts(relations, thought, c.goal)
            &&& optional_membership_accepts(relations, thought, c.memory)
        },
    }
}

/// A thought is selected when it is not superseded and the filter accepts it.
pub open spec fn thought_selected(filter: ThoughtFilter, relations: Seq<Relation>, thought: Thought) -> bool {
    !is_superseded(relations, thought.id@) && thought_filter_accepts(filter, relations, thought)
}

pub open spec fn relation_selected(filter: RelationFilter, relation: Relation) -> bool {
    match filter {
        RelationFilter::ByKind(kinds) => kinds_accept(kinds@, relation.kind),
        RelationFilter::BySource(source) => relation.source@ == source@,
        RelationFilter::ByTarget(target) => relation.target@ == target@,
        RelationFilter::Composite { kinds, source, target } => {
            &&& kinds_accept(kinds@, relation.kind)
            &&& optional_text_accepts(source, relation.source@)
            &&& optional_text_accepts(target, relation.target@)
        },
    }
}

/// Whether a technical node answers to a source locator: a source artifact at
/// that locator, a witness pointing there, or a report at that report path.
pub open spec fn node_matches_locator(node: TechnicalNode, locator: TechnicalSourceLocator) -> bool {
    match node.body {
        TechnicalNodeBody::SourceArtifact { locator: own } => same_locator(own, locator),
        TechnicalNodeBody::Witness { witness_locator } => match witness_locator {
            Some(own) => same_locator(own, locator),
            None => false,
        },
        TechnicalNodeBody::Report { path } => match locator {
            TechnicalSourceLocator::Report(wanted) => wanted@ == path@,
            _ => false,
        },
        TechnicalNodeBody::Other => false,
    }
}

pub open spec fn technical_node_selected(filter: TechnicalNodeFilter, node: TechnicalNode) -> bool {
    match filter {
        TechnicalNodeFilter::ByKind(kinds) => kinds_accept(kinds@, node.kind),
        TechnicalNodeFilter::ByStableKey(key) => node.stable_key@ == key@,
        TechnicalNodeFilter::BySourceLocator(locator) => node_matches_locator(node, locator),
        TechnicalNodeFilter::Composite { node_kinds, stable_key, source_locator } => {
            &&& kinds_accept(node_kinds@, node.kind)
            &&& optional_text_accepts(stable_key, node.stable_key@)
            &&& match source_locator {
                Some(locator) => node_matches_locator(node, locator),
                None => true,
            }
        },
    }
}

pub open spec fn technical_relation_selected(
    filter: TechnicalRelationFilter,
    relation: TechnicalRelation,
) -> bool {
    match filter {
        TechnicalRelationFilter::ByKind(kinds) => kinds_accept(kinds@, relation.kind),
        TechnicalRelationFilter::BySource(source) => relation.source.stable_key@ == source@,
        TechnicalRelationFilter::ByTarget(target) => relation.target.stable_key@ == target@,
        TechnicalRelationFilter::BetweenEndpoints { source, target } => {
            relation.source.stable_key@ == source@ && relation.target.stable_key@ == target@
        },
        TechnicalRelationFilter::Composite { relation_kinds, source_key, target_key } => {
            &&& kinds_accept(relation_kinds@, relation.kind)
            &&& optional_text_accepts(source_key, relation.source.stable_key@)
            &&& optional_text_accepts(target_key, relation.target.stable_key@)
        },
    }
}

// ---------------------------------------------------------------------------
// Deciding each filter.

pub fn kinds_contain(kinds: &Vec<u64>, kind: u64) -> (accepted: bool)
    ensures
        accepted == kinds_accept(kinds@, kind),
{
    if kinds.len() == 0 {
        return true;
    }
    let mut index: usize = 0;
    while index < kinds.len()
        invariant
            index <= kinds@.len(),
            forall|i: int| 0 <= i < index ==> kinds@[i] != kind,
        decreases kinds@.len() - index,
    {
        if kinds[index] == kind {
            assert(kinds@[index as int] == kind);
            return true;
        }
        index = index + 1;
    }
    false
}

pub fn relation_kinds_contain(kinds: &Vec<RelationKind>, kind: RelationKind) -> (accepted: bool)
    ensures
        accepted == kinds_accept(kinds@, kind),
{
    if kinds.len() == 0 {
        return true;
    }
    let mut index: usize = 0;
    while index < kinds.len()
        invariant
            index <= kinds@.len(),
            forall|i: int| 0 <= i < index ==> kinds@[i] != kind,
        decreases kinds@.len() - index,
    {
        if kinds[index] == kind {
            assert(kinds@[index as int] == kind);
            return true;
        }
        index = index + 1;
    }
    false
}

fn optional_text_matches(wanted: &Option<String>, actual: &String) -> (accepted: bool)
    ensures
        accepted == optional_text_accepts(*wanted, actual@),
{
    match wanted {
        Some(text) => *text == *actual,
        None => true,
    }
}

fn time_range_matches(range: &ThoughtTimeRange, time: u64) -> (accepted: bool)
    ensures
        accepted == time_range_accepts(*range, time),
{
    let starts_after = time >= range.start;
    let ends_before = match range.end {
        Some(end) => time <= end,
        None => true,
    };
    starts_after && ends_before
}

pub fn thought_is_superseded(relations: &Vec<Relation>, id: &String) -> (superseded: bool)
    ensures
        superseded == is_superseded(relations@, id@),
{
    let mut index: usize = 0;
    while index < relations.len()
        invariant
            index <= relations@.len(),
            forall|i: int|
                0 <= i < index ==> !((#[trigger] relations@[i]).kind == RelationKind::Supersedes
                    && relations@[i].target@ == id@),
        decreases relations@.len() - index,
    {
        let relation = &relations[index];
        if relation.kind == RelationKind::Supersedes && relation.target == *id {
            return true;
        }
        index = index + 1;
    }
    false
}

pub fn thought_is_member(relations: &Vec<Relation>, thought: &Thought, container: &String) -> (member: bool)
    ensures
        member == is_member(relations@, *thought, container@),
{
    if thought.id == *container {
        return true;
    }
    let mut index: usize = 0;
    while index < relations.len()
        invariant
            index <= relations@.len(),
            forall|i: int|
                0 <= i < index ==> !((#[trigger] relations@[i]).kind == RelationKind::Belongs
                    && relations@[i].source@ == thought.id@ && relations@[i].target@ == container@),
        decreases relations@.len() - index,
    {
        let relation = &relations[index];
        if relation.kind == RelationKind::Belongs && relation.source == thought.id && relation.target
            == *container {
            return true;
        }
        index = index + 1;
    }
    false
}

fn optional_membership_matches(relations: &Vec<Relation>, thought: &Thought, container: &Option<String>) -> (accepted: bool)
    ensures
        accepted == optional_membership_accepts(relations@, *thought, *container),
{
    match container {
        Some(c) => thought_is_member(relations, thought, c),
        None => true,
    }
}

pub fn thought_filter_matches(filter: &ThoughtFilter, relations: &Vec<Relation>, thought: &Thought) -> (accepted: bool)
    ensures
        accepted == thought_filter_accepts(*filter, relations@, *thought),
{
    match filter {
        ThoughtFilter::ByKind(kinds) => kinds_contain(kinds, thought.kind),
        ThoughtFilter::ByAuthor(author) => thought.author == *author,
        ThoughtFilter::ByTimeRange(range) => time_range_matches(range, thought.occurred_at),
        ThoughtFilter::InGoal(goal) => thought_is_member(relations, thought, goal),
        ThoughtFilter::InMemory(memory) => thought_is_member(relations, thought, memory),
        ThoughtFilter::Composite(c) => {
            let kind_ok = kinds_contain(&c.kinds, thought.kind);
            let author_ok = optional_text_matches(&c.author, &thought.author);
            let time_ok = match &c.time_range {
                Some(range) => time_range_matches(range, thought.occurred_at),
                None => true,
            };
            let goal_ok = optional_membership_matches(relations, thought, &c.goal);
            let memory_ok = optional_membership_matches(relations, thought, &c.memory);
            kind_ok && author_ok && time_ok && goal_ok && memory_ok
        },
    }
}

pub fn thought_is_selected(filter: &ThoughtFilter, relations: &Vec<Relation>, thought: &Thought) -> (selected: bool)
    ensures
        selected == thought_selected(*filter, relations@, *thought),
{
    !thought_is_superseded(relations, &thought.id) && thought_filter_matches(filter, relations, thought)
}

pub fn relation_is_selected(filter: &RelationFilter, relation: &Relation) -> (selected: bool)
    ensures
        selected == relation_selected(*filter, *relation),
{
    match filter {
        RelationFilter::ByKind(kinds) => relation_kinds_contain(kinds, relation.kind),
        RelationFilter::BySource(source) => relation.source == *source,
        RelationFilter::ByTarget(target) => relation.target == *target,
        RelationFilter::Composite { kinds, source, target } => {
            let kind_ok = relation_kinds_contain(kinds, relation.kind);
            let source_ok = optional_text_matches(source, &relation.source);
            let target_ok = optional_text_matches(target, &relation.target);
            kind_ok && source_ok && target_ok
        },
    }
}

pub fn node_answers_to_locator(node: &TechnicalNode, locator: &TechnicalSourceLocator) -> (matches: bool)
    ensures
        matches == node_matches_locator(*node, *locator),
{
    match &node.body {
        TechnicalNodeBody::SourceArtifact { locator: own } => locators_equal(own, locator),
        TechnicalNodeBody::Witness { witness_locator } => match witness_locator {
            Some(own) => locators_equal(own, locator),
            None => false,
        },
        TechnicalNodeBody::Report { path } => match locator {
            TechnicalSourceLocator::Report(wanted) => *wanted == *path,
            _ => false,
        },
        TechnicalNodeBody::Other => false,
    }
}

pub fn technical_node_is_selected(filter: &TechnicalNodeFilter, node: &TechnicalNode) -> (selected: bool)
    ensures
        selected == technical_node_selected(*filter, *node),
{
    match filter {
        TechnicalNodeFilter::ByKind(kinds) => kinds_contain(kinds, node.kind),
        TechnicalNodeFilter::ByStableKey(key) => node.stable_key == *key,
        TechnicalNodeFilter::BySourceLocator(locator) => node_answers_to_locator(node, locator),
        TechnicalNodeFilter::Composite { node_kinds, stable_key, source_locator } => {
            let kind_ok = kinds_contain(node_kinds, node.kind);
            let stable_key_ok = optional_text_matches(stable_key, &node.stable_key);
            let source_locator_ok = match source_locator {
                Some(locator) => node_answers_to_locator(node, locator),
                None => true,
            };
            kind_ok && stable_key_ok && source_locator_ok
        },
    }
}

pub fn technical_relation_is_selected(filter: &TechnicalRelationFilter, relation: &TechnicalRelation) -> (selected: bool)
    ensures
        selected == technical_relation_selected(*filter, *relation),
{
    match filter {
        TechnicalRelationFilter::ByKind(kinds) => kinds_contain(kinds, relation.kind),
        TechnicalRelationFilter::BySource(source) => relation.source.stable_key == *source,
        TechnicalRelationFilter::ByTarget(target) => relation.target.stable_key == *target,
        TechnicalRelationFilter::BetweenEndpoints { source, target } => {
            relation.source.stable_key == *source && relation.target.stable_key == *target
        },
        TechnicalRelationFilter::Composite { relation_kinds, source_key, target_key } => {
            let kind_ok = kinds_contain(relation_kinds, relation.kind);
            let source_ok = optional_text_matches(source_key, &relation.source.stable_key);
            let target_ok = optional_text_matches(target_key, &relation.target.stable_key);
            kind_ok && source_ok && target_ok
        },
    }
}

// ---------------------------------------------------------------------------
// Selectors: a filter together with what it needs to decide.

/// Selects thoughts; membership and supersession are read from `relations`.
#[derive(Debug)]
pub struct ThoughtSelector {
    pub filter: ThoughtFilter,
    pub relations: Vec<Relation>,
}

impl ThoughtSelector {
    pub fn new(filter: ThoughtFilter, relations: Vec<Relation>) -> (selector: Self)
        ensures
            selector.filter == filter,
            selector.relations == relations,
    {
        Self { filter, relations }
    }

    pub fn accepts(&self, thought: &Thought) -> (accepted: bool)
        ensures
            accepted == thought_selected(self.filter, self.relations@, *thought),
    {
        thought_is_selected(&self.filter, &self.relations, thought)
    }

    /// The selected thoughts, in their given order.
    pub fn select(&self, thoughts: Vec<Thought>) -> (selected: Vec<Thought>)
        ensures
            selected@ == kept_records(thoughts@, |t: Thought| thought_selected(self.filter, self.relations@, t)),
    {
        select_thoughts(&self.filter, &self.relations, thoughts)
    }
}

#[derive(Debug)]
pub struct RelationSelector {
    pub filter: RelationFilter,
}

impl RelationSelector {
    pub fn new(filter: RelationFilter) -> (selector: Self)
        ensures
            selector.filter == filter,
    {
        Self { filter }
    }

    pub fn accepts(&self, relation: &Relation) -> (accepted: bool)
        ensures
            accepted == relation_selected(self.filter, *relation),
    {
        relation_is_selected(&self.filter, relation)
    }

    pub fn select(&self, relations: Vec<Relation>) -> (selected: Vec<Relation>)
        ensures
            selected@ == kept_records(relations@, |r: Relation| relation_selected(self.filter, r)),
    {
        select_relations(&self.filter, relations)
    }
}

#[derive(Debug)]
pub struct TechnicalNodeSelector {
    pub filter: TechnicalNodeFilter,
}

impl TechnicalNodeSelector {
    pub fn new(filter: TechnicalNodeFilter) -> (selector: Self)
        ensures
            selector.filter == filter,
    {
        Self { filter }
    }

    pub fn accepts(&self, node: &TechnicalNode) -> (accepted: bool)
        ensures
            accepted == technical_node_selected(self.filter, *node),
    {
        technical_node_is_selected(&self.filter, node)
    }

    pub fn select(&self, nodes: Vec<TechnicalNode>) -> (selected: Vec<TechnicalNode>)
        ensures
            selected@ == kept_records(nodes@, |n: TechnicalNode| technical_node_selected(self.filter, n)),
    {
        select_technical_nodes(&self.filter, nodes)
    }
}

#[derive(Debug)]
pub struct TechnicalRelationSelector {
    pub filter: TechnicalRelationFilter,
}

impl TechnicalRelationSelector {
    pub fn new(filter: TechnicalRelationFilter) -> (selector: Self)
        ensures
            selector.filter == filter,
    {
        Self { filter }
    }

    pub fn accepts(&self, relation: &TechnicalRelation) -> (accepted: bool)
        ensures
            accepted == technical_relation_selected(self.filter, *relation),
    {
        technical_relation_is_selected(&self.filter, relation)
    }

    pub fn select(&self, relations: Vec<TechnicalRelation>) -> (selected: Vec<TechnicalRelation>)
        ensures
            selected@ == kept_records(relations@, |r: TechnicalRelation| technical_relation_selected(self.filter, r)),
    {
        select_technical_relations(&self.filter, relations)
    }
}

pub fn select_thoughts(filter: &ThoughtFilter, relations: &Vec<Relation>, thoughts: Vec<Thought>) -> (selected: Vec<Thought>)
    ensures
        selected@ == kept_records(
            thoughts@,
            |t: Thought| thought_selected(*filter, relations@, t),
        ),
{
    let ghost keep = |t: Thought| thought_selected(*filter, relations@, t);
    let ghost given = thoughts@;
    let total = thoughts.len();
    let mut remaining = thoughts;
    let mut selected: Vec<Thought> = Vec::new();
    let mut consumed: usize = 0;
    while remaining.len() > 0
        invariant
            consumed <= given.len() == total,
            remaining@ == given.skip(consumed as int),
            selected@ == kept_records(given.take(consumed as int), keep),
            forall|t: Thought| #[trigger] keep(t) == thought_selected(*filter, relations@, t),
        decreases remaining@.len(),
    {
        let thought = remaining.remove(0);
        proof {
            lemma_kept_records_take_step(given, keep, consumed as int);
            assert(given.skip(consumed as int)[0] == thought);
            assert(given.skip(consumed + 1) =~= given.skip(consumed as int).drop_first());
        }
        let accepted = thought_is_selected(filter, relations, &thought);
        proof {
            assert(given[consumed as int] == thought);
            assert(keep(thought) == accepted);
        }
        if accepted {
            selected.push(thought);
        }
        consumed = consumed + 1;
    }
    proof {
        assert(given.take(consumed as int) =~= given);
    }
    selected
}

pub fn select_relations(filter: &RelationFilter, relations: Vec<Relation>) -> (selected: Vec<Relation>)
    ensures
        selected@ == kept_records(relations@, |r: Relation| relation_selected(*filter, r)),
{
    let ghost keep = |r: Relation| relation_selected(*filter, r);
    let ghost given = relations@;
    let total = relations.len();
    let mut remaining = relations;
    let mut selected: Vec<Relation> = Vec::new();
    let mut consumed: usize = 0;
    while remaining.len() > 0
        invariant
            consumed <= given.len() == total,
            remaining@ == given.skip(consumed as int),
            selected@ == kept_records(given.take(consumed as int), keep),
            forall|r: Relation| #[trigger] keep(r) == relation_selected(*filter, r),
        decreases remaining@.len(),
    {
        let relation = remaining.remove(0);
        proof {
            lemma_kept_records_take_step(given, keep, consumed as int);
            assert(given.skip(consumed as int)[0] == relation);
            assert(given.skip(consumed + 1) =~= given.skip(consumed as int).drop_first());
        }
        let accepted = relation_is_selected(filter, &relation);
        proof {
            assert(given[consumed as int] == relation);
            assert(keep(relation) == accepted);
        }
        if accepted {
            selected.push(relation);
        }
        consumed = consumed + 1;
    }
    proof {
        assert(given.take(consumed as int) =~= given);
    }
    selected
}

pub fn select_technical_nodes(filter: &TechnicalNodeFilter, nodes: Vec<TechnicalNode>) -> (selected: Vec<TechnicalNode>)
    ensures
        selected@ == kept_records(nodes@, |n: TechnicalNode| technical_node_selected(*filter, n)),
{
    let ghost keep = |n: TechnicalNode| technical_node_selected(*filter, n);
    let ghost given = nodes@;
    let total = nodes.len();
    let mut remaining = nodes;
    let mut selected: Vec<TechnicalNode> = Vec::new();
    let mut consumed: usize = 0;
    while remaining.len() > 0
        invariant
            consumed <= given.len() == total,
            remaining@ == given.skip(consumed as int),
            selected@ == kept_records(given.take(consumed as int), keep),
            forall|n: TechnicalNode| #[trigger] keep(n) == technical_node_selected(*filter, n),
        decreases remaining@.len(),
    {
        let node = remaining.remove(0);
        proof {
            lemma_kept_records_take_step(given, keep, consumed as int);
            assert(given.skip(consumed as int)[0] == node);
            assert(given.skip(consumed + 1) =~= given.skip(consumed as int).drop_first());
        }
        let accepted = technical_node_is_selected(filter, &node);
        proof {
            assert(given[consumed as int] == node);
            assert(keep(node) == accepted);
        }
        if accepted {
            selected.push(node);
        }
        consumed = consumed + 1;
    }
    proof {
        assert(given.take(consumed as int) =~= given);
    }
    selected
}

pub fn select_technical_relations(filter: &TechnicalRelationFilter, relations: Vec<TechnicalRelation>) -> (selected: Vec<TechnicalRelation>)
    ensures
        selected@ == kept_records(
            relations@,
            |r: TechnicalRelation| technical_relation_selected(*filter, r),
        ),
{
    let ghost keep = |r: TechnicalRelation| technical_relation_selected(*filter, r);
    let ghost given = relations@;
    let total = relations.len();
    let mut remaining = relations;
    let mut selected: Vec<TechnicalRelation> = Vec::new();
    let mut consumed: usize = 0;
    while remaining.len() > 0
        invariant
            consumed <= given.len() == total,
            remaining@ == given.skip(consumed as int),
            selected@ == kept_records(given.take(consumed as int), keep),
            forall|r: TechnicalRelation| #[trigger] keep(r) == technical_relation_selected(*filter, r),
        decreases remaining@.len(),
    {
        let relation = remaining.remove(0);
        proof {
            lemma_kept_records_take_step(given, keep, consumed as int);
            assert(given.skip(consumed as int)[0] == relation);
            assert(given.skip(consumed + 1) =~= given.skip(consumed as int).drop_first());
        }
        let accepted = technical_relation_is_selected(filter, &relation);
        proof {
            assert(given[consumed as int] == relation);
            assert(keep(relation) == accepted);
        }
        if accepted {
            selected.push(relation);
        }
        consumed = consumed + 1;
    }
    proof {
        assert(given.take(consumed as int) =~= given);
    }
    selected
}

// ---------------------------------------------------------------------------
// Queries and subscription snapshots.

/// How many of `count` ordered records a query with this limit returns.
pub open spec fn page_length(count: nat, limit: u16) -> int {
    if count > limit { limit as int } else { count as int }
}

/// The records a query returns: the first `limit` of the ordered selection.
pub open spec fn query_page<T>(ordered: Seq<T>, limit: u16) -> Seq<T> {
    ordered.take(page_length(ordered.len(), limit))
}

pub open spec fn ordered_thoughts(thoughts: Seq<Thought>, relations: Seq<Relation>, filter: ThoughtFilter) -> Seq<Thought> {
    sorted_by_time(kept_records(thoughts, |t: Thought| thought_selected(filter, relations, t)))
}

pub open spec fn ordered_relations(relations: Seq<Relation>, filter: RelationFilter) -> Seq<Relation> {
    sorted_by_time(kept_records(relations, |r: Relation| relation_selected(filter, r)))
}

pub open spec fn ordered_technical_nodes(nodes: Seq<TechnicalNode>, filter: TechnicalNodeFilter) -> Seq<TechnicalNode> {
    sorted_by_time(kept_records(nodes, |n: TechnicalNode| technical_node_selected(filter, n)))
}

pub open spec fn ordered_technical_relations(
    relations: Seq<TechnicalRelation>,
    filter: TechnicalRelationFilter,
) -> Seq<TechnicalRelation> {
    sorted_by_time(kept_records(relations, |r: TechnicalRelation| technical_relation_selected(filter, r)))
}

#[derive(Debug)]
pub struct ThoughtList {
    pub thoughts: Vec<Thought>,
    pub has_more: bool,
}

#[derive(Debug)]
pub struct RelationList {
    pub relations: Vec<Relation>,
    pub has_more: bool,
}

#[derive(Debug)]
pub struct TechnicalNodeList {
    pub nodes: Vec<TechnicalNode>,
    pub has_more: bool,
}

#[derive(Debug)]
pub struct TechnicalRelationList {
    pub relations: Vec<TechnicalRelation>,
    pub has_more: bool,
}

/// Answers a thought query over the stored thoughts and relations.
pub fn read_thoughts(
    thoughts: Vec<Thought>,
    relations: Vec<Relation>,
    filter: ThoughtFilter,
    limit: u16,
) -> (list: ThoughtList)
    ensures
        list.thoughts@ == query_page(ordered_thoughts(thoughts@, relations@, filter), limit),
        list.has_more == (ordered_thoughts(thoughts@, relations@, filter).len() > limit),
{
    let selector = ThoughtSelector::new(filter, relations);
    let matches = selector.select(thoughts);
    let ordered = sort_by_occurred_at(matches);
    let limited = GraphLimit::new(limit).apply(ordered);
    ThoughtList { thoughts: limited.records, has_more: limited.has_more }
}

/// Answers a relation query over the stored relations.
pub fn read_relations(relations: Vec<Relation>, filter: RelationFilter, limit: u16) -> (list: RelationList)
    ensures
        list.relations@ == query_page(ordered_relations(relations@, filter), limit),
        list.has_more == (ordered_relations(relations@, filter).len() > limit),
{
    let selector = RelationSelector::new(filter);
    let matches = selector.select(relations);
    let ordered = sort_by_occurred_at(matches);
    let limited = GraphLimit::new(limit).apply(ordered);
    RelationList { relations: limited.records, has_more: limited.has_more }
}

/// Answers a technical node query over the stored nodes.
pub fn read_technical_nodes(
    nodes: Vec<TechnicalNode>,
    filter: TechnicalNodeFilter,
    limit: u16,
) -> (list: TechnicalNodeList)
    ensures
        list.nodes@ == query_page(ordered_technical_nodes(nodes@, filter), limit),
        list.has_more == (ordered_technical_nodes(nodes@, filter).len() > limit),
{
    let selector = TechnicalNodeSelector::new(filter);
    let matches = selector.select(nodes);
    let ordered = sort_by_occurred_at(matches);
    let limited = GraphLimit::new(limit).apply(ordered);
    TechnicalNodeList { nodes: limited.records, has_more: limited.has_more }
}

/// Answers a technical relation query over the stored technical relations.
pub fn read_technical_relations(
    relations: Vec<TechnicalRelation>,
    filter: TechnicalRelationFilter,
    limit: u16,
) -> (list: TechnicalRelationList)
    ensures
        list.relations@ == query_page(ordered_technical_relations(relations@, filter), limit),
        list.has_more == (ordered_technical_relations(relations@, filter).len() > limit),
{
    let selector = TechnicalRelationSelector::new(filter);
    let matches = selector.select(relations);
    let ordered = sort_by_occurred_at(matches);
    let limited = GraphLimit::new(limit).apply(ordered);
    TechnicalRelationList { relations: limited.records, has_more: limited.has_more }
}

/// How many stream events a subscription buffers while it has no demand.
pub const SUBSCRIPTION_BUFFER_BOUND: u16 = 64;

/// A subscription's accepted stream: its starting cursor, its buffer bound,
/// and the snapshot of matching records it starts from.
#[derive(Debug)]
pub struct StreamAccepted<T> {
    pub cursor: u64,
    pub buffer_bound: u16,
    pub snapshot: Vec<T>,
}

/// The resume position of a subscription request: the start when absent.
pub open spec fn resume_position(resume_after: Option<u64>) -> u64 {
    match resume_after {
        Some(cursor) => cursor,
        None => 0,
    }
}

/// The snapshot a resumed subscriber receives: the matching records after the
/// ones it has seen.
pub open spec fn resumed_records<T>(matching: Seq<T>, resume_after: u64) -> Seq<T> {
    matching.skip(if resume_after as int <= matching.len() { resume_after as int } else { matching.len() as int })
}

/// Opens a thought stream over the store's current thoughts.
pub fn accept_thought_stream(
    filter: &ThoughtFilter,
    relations: &Vec<Relation>,
    initial: Vec<Thought>,
    resume_after: Option<u64>,
) -> (accepted: StreamAccepted<Thought>)
    ensures
        accepted.buffer_bound == SUBSCRIPTION_BUFFER_BOUND,
        accepted.snapshot@ == resumed_records(
            kept_records(initial@, |t: Thought| thought_selected(*filter, relations@, t)),
            resume_position(resume_after),
        ),
        accepted.cursor == resume_position(resume_after) + accepted.snapshot@.len(),
{
    let matching = select_thoughts(filter, relations, initial);
    let start = match resume_after {
        Some(cursor) => cursor,
        None => 0,
    };
    let resumed = ResumedSnapshot::new(matching, start);
    StreamAccepted { cursor: resumed.cursor, buffer_bound: SUBSCRIPTION_BUFFER_BOUND, snapshot: resumed.records }
}

/// Opens a relation stream over the store's current relations.
pub fn accept_relation_stream(
    filter: &RelationFilter,
    initial: Vec<Relation>,
    resume_after: Option<u64>,
) -> (accepted: StreamAccepted<Relation>)
    ensures
        accepted.buffer_bound == SUBSCRIPTION_BUFFER_BOUND,
        accepted.snapshot@ == resumed_records(
            kept_records(initial@, |r: Relation| relation_selected(*filter, r)),
            resume_position(resume_after),
        ),
        accepted.cursor == resume_position(resume_after) + accepted.snapshot@.len(),
{
    let matching = select_relations(filter, initial);
    let start = match resume_after {
        Some(cursor) => cursor,
        None => 0,
    };
    let resumed = ResumedSnapshot::new(matching, start);
    StreamAccepted { cursor: resumed.cursor, buffer_bound: SUBSCRIPTION_BUFFER_BOUND, snapshot: resumed.records }
}

/// Opens a technical node stream over the store's current nodes.
pub fn accept_technical_node_stream(
    filter: &TechnicalNodeFilter,
    initial: Vec<TechnicalNode>,
    resume_after: Option<u64>,
) -> (accepted: StreamAccepted<TechnicalNode>)
    ensures
        accepted.buffer_bound == SUBSCRIPTION_BUFFER_BOUND,
        accepted.snapshot@ == resumed_records(
            kept_records(initial@, |n: TechnicalNode| technical_node_selected(*filter, n)),
            resume_position(resume_after),
        ),
        accepted.cursor == resume_position(resume_after) + accepted.snapshot@.len(),
{
    let matching = select_technical_nodes(filter, initial);
    let start = match resume_after {
        Some(cursor) => cursor,
        None => 0,
    };
    let resumed = ResumedSnapshot::new(matching, start);
    StreamAccepted { cursor: resumed.cursor, buffer_bound: SUBSCRIPTION_BUFFER_BOUND, snapshot: resumed.records }
}

/// Opens a technical relation stream over the store's current relations.
pub fn accept_technical_relation_stream(
    filter: &TechnicalRelationFilter,
    initial: Vec<TechnicalRelation>,
    resume_after: Option<u64>,
) -> (accepted: StreamAccepted<TechnicalRelation>)
    ensures
        accepted.buffer_bound == SUBSCRIPTION_BUFFER_BOUND,
        accepted.snapshot@ == resumed_records(
            kept_records(initial@, |r: TechnicalRelation| technical_relation_selected(*filter, r)),
            resume_position(resume_after),
        ),
        accepted.cursor == resume_position(resume_after) + accepted.snapshot@.len(),
{
    let matching = select_technical_relations(filter, initial);
    let start = match resume_after {
        Some(cursor) => cursor,
        None => 0,
    };
    let resumed = ResumedSnapshot::new(matching, start);
    StreamAccepted { cursor: resumed.cursor, buffer_bound: SUBSCRIPTION_BUFFER_BOUND, snapshot: resumed.records }
}


// ---------------------------------------------------------------------------
// What a query answers.

/// The ordered selection holds exactly the stored records that `keep`
/// accepts; the page cut from it holds at most `limit` of them, in commit-time
/// order.
pub proof fn lemma_query_page<T: GraphRecord>(records: Seq<T>, keep: spec_fn(T) -> bool, limit: u16)
    ensures
        forall|x: T| #[trigger] sorted_by_time(kept_records(records, keep)).contains(x) <==> records.contains(x) && keep(x),
        query_page(sorted_by_time(kept_records(records, keep)), limit).len() <= limit,
        is_time_ordered(query_page(sorted_by_time(kept_records(records, keep)), limit)),
        forall|i: int| 0 <= i < query_page(sorted_by_time(kept_records(records, keep)), limit).len() ==> {
            let x = #[trigger] query_page(sorted_by_time(kept_records(records, keep)), limit)[i];
            records.contains(x) && keep(x)
        },
{
    broadcast use vstd::seq_lib::group_seq_properties;
    broadcast use vstd::seq_lib::group_to_multiset_ensures;

    let kept = kept_records(records, keep);
    let ordered = sorted_by_time(kept);
    let page = query_page(ordered, limit);
    lemma_kept_records_members(records, keep);
    lemma_sorted_by_time_rearranges(kept);
    lemma_sorted_by_time_is_ordered(kept);
    assert forall|x: T| #[trigger] ordered.contains(x) <==> records.contains(x) && keep(x) by {
        assert(ordered.contains(x) <==> ordered.to_multiset().count(x) > 0);
        assert(kept.contains(x) <==> kept.to_multiset().count(x) > 0);
    }
    assert forall|i: int| 0 <= i < page.len() implies {
        let x = #[trigger] page[i];
        records.contains(x) && keep(x)
    } by {
        assert(page[i] == ordered[i]);
        assert(ordered.contains(ordered[i]));
    }
    assert forall|i: int, j: int| 0 <= i <= j < page.len() implies page[i].time() <= page[j].time() by {
        assert(page[i] == ordered[i]);
        assert(page[j] == ordered[j]);
    }
}

/// A thought query answers with stored thoughts only, each accepted by the
/// filter and none superseded, in commit-time order, at most `limit` of them;
/// every stored thought that the filter accepts and nothing supersedes is in
/// the ordered selection that the page is cut from.
pub proof fn law_thought_query_answers(thoughts: Seq<Thought>, relations: Seq<Relation>, filter: ThoughtFilter, limit: u16)
    ensures
        query_page(ordered_thoughts(thoughts, relations, filter), limit).len() <= limit,
        is_time_ordered(query_page(ordered_thoughts(thoughts, relations, filter), limit)),
        forall|i: int| 0 <= i < query_page(ordered_thoughts(thoughts, relations, filter), limit).len() ==> {
            let t = #[trigger] query_page(ordered_thoughts(thoughts, relations, filter), limit)[i];
            &&& thoughts.contains(t)
            &&& thought_filter_accepts(filter, relations, t)
            &&& !is_superseded(relations, t.id@)
        },
        forall|t: Thought| #[trigger] ordered_thoughts(thoughts, relations, filter).contains(t) <==> thoughts.contains(t)
            && thought_selected(filter, relations, t),
{
    lemma_query_page(thoughts, |t: Thought| thought_selected(filter, relations, t), limit);
}

/// A relation query answers with stored relations that the filter accepts, in
/// commit-time order, at most `limit` of them, cut from a selection that holds
/// every such relation.
pub proof fn law_relation_query_answers(relations: Seq<Relation>, filter: RelationFilter, limit: u16)
    ensures
        query_page(ordered_relations(relations, filter), limit).len() <= limit,
        is_time_ordered(query_page(ordered_relations(relations, filter), limit)),
        forall|i: int| 0 <= i < query_page(ordered_relations(relations, filter), limit).len() ==> {
            let r = #[trigger] query_page(ordered_relations(relations, filter), limit)[i];
            relations.contains(r) && relation_selected(filter, r)
        },
        forall|r: Relation| #[trigger] ordered_relations(relations, filter).contains(r) <==> relations.contains(r)
            && relation_selected(filter, r),
{
    lemma_query_page(relations, |r: Relation| relation_selected(filter, r), limit);
}

/// A technical node query answers with stored nodes that the filter accepts,
/// in commit-time order, at most `limit` of them, cut from a selection that
/// holds every such node.
pub proof fn law_technical_node_query_answers(nodes: Seq<TechnicalNode>, filter: TechnicalNodeFilter, limit: u16)
    ensures
        query_page(ordered_technical_nodes(nodes, filter), limit).len() <= limit,
        is_time_ordered(query_page(ordered_technical_nodes(nodes, filter), limit)),
        forall|i: int| 0 <= i < query_page(ordered_technical_nodes(nodes, filter), limit).len() ==> {
            let n = #[trigger] query_page(ordered_technical_nodes(nodes, filter), limit)[i];
            nodes.contains(n) && technical_node_selected(filter, n)
        },
        forall|n: TechnicalNode| #[trigger] ordered_technical_nodes(nodes, filter).contains(n) <==> nodes.contains(n)
            && technical_node_selected(filter, n),
{
    lemma_query_page(nodes, |n: TechnicalNode| technical_node_selected(filter, n), limit);
}

/// A technical relation query answers with stored relations that the filter
/// accepts, in commit-time order, at most `limit` of them, cut from a
/// selection that holds every such relation.
pub proof fn law_technical_relation_query_answers(
    relations: Seq<TechnicalRelation>,
    filter: TechnicalRelationFilter,
    limit: u16,
)
    ensures
        query_page(ordered_technical_relations(relations, filter), limit).len() <= limit,
        is_time_ordered(query_page(ordered_technical_relations(relations, filter), limit)),
        forall|i: int| 0 <= i < query_page(ordered_technical_relations(relations, filter), limit).len() ==> {
            let r = #[trigger] query_page(ordered_technical_relations(relations, filter), limit)[i];
            relations.contains(r) && technical_relation_selected(filter, r)
        },
        forall|r: TechnicalRelation| #[trigger] ordered_technical_relations(relations, filter).contains(r)
            <==> relations.contains(r) && technical_relation_selected(filter, r),
{
    lemma_query_page(relations, |r: TechnicalRelation| technical_relation_selected(filter, r), limit);
}


/// A goal or memory query answers with the stored, not superseded thoughts
/// that are the goal or memory itself or `Belongs` to it by a stored
/// relation; goals and memories hold their thoughts alike.
pub proof fn law_goal_and_memory_queries_answer_members(
    thoughts: Seq<Thought>,
    relations: Seq<Relation>,
    container: String,
    limit: u16,
)
    ensures
        forall|t: Thought|
            #[trigger] ordered_thoughts(thoughts, relations, ThoughtFilter::InMemory(container)).contains(t) <==> {
                &&& thoughts.contains(t)
                &&& !exists|i: int|
                    0 <= i < relations.len() && (#[trigger] relations[i]).kind == RelationKind::Supersedes
                        && relations[i].target@ == t.id@
                &&& (t.id@ == container@ || exists|i: int|
                    0 <= i < relations.len() && (#[trigger] relations[i]).kind == RelationKind::Belongs
                        && relations[i].source@ == t.id@ && relations[i].target@ == container@)
            },
        forall|t: Thought|
            #[trigger] ordered_thoughts(thoughts, relations, ThoughtFilter::InGoal(container)).contains(t) <==> {
                &&& thoughts.contains(t)
                &&& !exists|i: int|
                    0 <= i < relations.len() && (#[trigger] relations[i]).kind == RelationKind::Supersedes
                        && relations[i].target@ == t.id@
                &&& (t.id@ == container@ || exists|i: int|
                    0 <= i < relations.len() && (#[trigger] relations[i]).kind == RelationKind::Belongs
                        && relations[i].source@ == t.id@ && relations[i].target@ == container@)
            },
{
    law_thought_query_answers(thoughts, relations, ThoughtFilter::InMemory(container), limit);
    law_thought_query_answers(thoughts, relations, ThoughtFilter::InGoal(container), limit);
}

/// The simple thought filters: by kind (an empty list takes every kind), by
/// author, and by commit time within a range; superseded thoughts never
/// answer.
pub proof fn law_thought_filters_answer_by_field(
    thoughts: Seq<Thought>,
    relations: Seq<Relation>,
    kinds: Vec<u64>,
    author: String,
    range: ThoughtTimeRange,
    limit: u16,
)
    ensures
        forall|t: Thought|
            #[trigger] ordered_thoughts(thoughts, relations, ThoughtFilter::ByKind(kinds)).contains(t) <==> {
                &&& thoughts.contains(t)
                &&& !exists|i: int|
                    0 <= i < relations.len() && (#[trigger] relations[i]).kind == RelationKind::Supersedes
                        && relations[i].target@ == t.id@
                &&& (kinds@.len() == 0 || kinds@.contains(t.kind))
            },
        forall|t: Thought|
            #[trigger] ordered_thoughts(thoughts, relations, ThoughtFilter::ByAuthor(author)).contains(t) <==> {
                &&& thoughts.contains(t)
                &&& !exists|i: int|
                    0 <= i < relations.len() && (#[trigger] relations[i]).kind == RelationKind::Supersedes
                        && relations[i].target@ == t.id@
                &&& t.author@ == author@
            },
        forall|t: Thought|
            #[trigger] ordered_thoughts(thoughts, relations, ThoughtFilter::ByTimeRange(range)).contains(t) <==> {
                &&& thoughts.contains(t)
                &&& !exists|i: int|
                    0 <= i < relations.len() && (#[trigger] relations[i]).kind == RelationKind::Supersedes
                        && relations[i].target@ == t.id@
                &&& range.start <= t.occurred_at
                &&& (range.end matches Some(end) ==> t.occurred_at <= end)
            },
{
    law_thought_query_answers(thoughts, relations, ThoughtFilter::ByKind(kinds), limit);
    law_thought_query_answers(thoughts, relations, ThoughtFilter::ByAuthor(author), limit);
    law_thought_query_answers(thoughts, relations, ThoughtFilter::ByTimeRange(range), limit);
}

/// The thought-relation filters: by kind, by source thought, by target
/// thought, each reading only its own field.
pub proof fn law_relation_filters_answer_by_field(
    relations: Seq<Relation>,
    kinds: Vec<RelationKind>,
    endpoint: String,
    limit: u16,
)
    ensures
        forall|r: Relation|
            #[trigger] ordered_relations(relations, RelationFilter::ByKind(kinds)).contains(r) <==> relations.contains(
                r,
            ) && (kinds@.len() == 0 || kinds@.contains(r.kind)),
        forall|r: Relation|
            #[trigger] ordered_relations(relations, RelationFilter::BySource(endpoint)).contains(r) <==> relations.contains(
                r,
            ) && r.source@ == endpoint@,
        forall|r: Relation|
            #[trigger] ordered_relations(relations, RelationFilter::ByTarget(endpoint)).contains(r) <==> relations.contains(
                r,
            ) && r.target@ == endpoint@,
{
    law_relation_query_answers(relations, RelationFilter::ByKind(kinds), limit);
    law_relation_query_answers(relations, RelationFilter::BySource(endpoint), limit);
    law_relation_query_answers(relations, RelationFilter::ByTarget(endpoint), limit);
}

/// The technical node filters by kind and by stable key.
pub proof fn law_technical_node_filters_answer_by_field(
    nodes: Seq<TechnicalNode>,
    kinds: Vec<u64>,
    key: String,
    limit: u16,
)
    ensures
        forall|n: TechnicalNode|
            #[trigger] ordered_technical_nodes(nodes, TechnicalNodeFilter::ByKind(kinds)).contains(n) <==> nodes.contains(
                n,
            ) && (kinds@.len() == 0 || kinds@.contains(n.kind)),
        forall|n: TechnicalNode|
            #[trigger] ordered_technical_nodes(nodes, TechnicalNodeFilter::ByStableKey(key)).contains(n)
                <==> nodes.contains(n) && n.stable_key@ == key@,
{
    law_technical_node_query_answers(nodes, TechnicalNodeFilter::ByKind(kinds), limit);
    law_technical_node_query_answers(nodes, TechnicalNodeFilter::ByStableKey(key), limit);
}

/// The technical relation filters: by kind, by the source's stable key, by
/// the target's stable key, and by both; each end is read on its own side.
pub proof fn law_technical_relation_filters_answer_by_endpoint(
    relations: Seq<TechnicalRelation>,
    kinds: Vec<u64>,
    source: String,
    target: String,
    limit: u16,
)
    ensures
        forall|r: TechnicalRelation|
            #[trigger] ordered_technical_relations(relations, TechnicalRelationFilter::ByKind(kinds)).contains(r)
                <==> relations.contains(r) && (kinds@.len() == 0 || kinds@.contains(r.kind)),
        forall|r: TechnicalRelation|
            #[trigger] ordered_technical_relations(relations, TechnicalRelationFilter::BySource(source)).contains(r)
                <==> relations.contains(r) && r.source.stable_key@ == source@,
        forall|r: TechnicalRelation|
            #[trigger] ordered_technical_relations(relations, TechnicalRelationFilter::ByTarget(target)).contains(r)
                <==> relations.contains(r) && r.target.stable_key@ == target@,
        forall|r: TechnicalRelation|
            #[trigger] ordered_technical_relations(
                relations,
                TechnicalRelationFilter::BetweenEndpoints { source, target },
            ).contains(r) <==> relations.contains(r) && r.source.stable_key@ == source@ && r.target.stable_key@
                == target@,
{
    law_technical_relation_query_answers(relations, TechnicalRelationFilter::ByKind(kinds), limit);
    law_technical_relation_query_answers(relations, TechnicalRelationFilter::BySource(source), limit);
    law_technical_relation_query_answers(relations, TechnicalRelationFilter::ByTarget(target), limit);
    law_technical_relation_query_answers(
        relations,
        TechnicalRelationFilter::BetweenEndpoints { source, target },
        limit,
    );
}

/// A composite thought filter takes a thought exactly when every part it
/// sets takes it: kinds, author, time range, goal and memory membership.
pub proof fn law_composite_thought_filter_takes_all_parts(
    thoughts: Seq<Thought>,
    relations: Seq<Relation>,
    filter: CompositeThoughtFilter,
    limit: u16,
)
    ensures
        forall|t: Thought|
            #[trigger] ordered_thoughts(thoughts, relations, ThoughtFilter::Composite(filter)).contains(t) <==> {
                &&& thoughts.contains(t)
                &&& !exists|i: int|
                    0 <= i < relations.len() && (#[trigger] relations[i]).kind == RelationKind::Supersedes
                        && relations[i].target@ == t.id@
                &&& (filter.kinds@.len() == 0 || filter.kinds@.contains(t.kind))
                &&& (filter.author matches Some(author) ==> t.author@ == author@)
                &&& (filter.time_range matches Some(range) ==> range.start <= t.occurred_at && (range.end matches Some(
                    end,
                ) ==> t.occurred_at <= end))
                &&& (filter.goal matches Some(goal) ==> (t.id@ == goal@ || exists|i: int|
                    0 <= i < relations.len() && (#[trigger] relations[i]).kind == RelationKind::Belongs
                        && relations[i].source@ == t.id@ && relations[i].target@ == goal@))
                &&& (filter.memory matches Some(memory) ==> (t.id@ == memory@ || exists|i: int|
                    0 <= i < relations.len() && (#[trigger] relations[i]).kind == RelationKind::Belongs
                        && relations[i].source@ == t.id@ && relations[i].target@ == memory@))
            },
{
    law_thought_query_answers(thoughts, relations, ThoughtFilter::Composite(filter), limit);
}

/// A composite relation filter takes a relation exactly when its kind, its
/// source and its target each pass the part that is set.
pub proof fn law_composite_relation_filters_take_all_parts(
    relations: Seq<Relation>,
    kinds: Vec<RelationKind>,
    source: Option<String>,
    target: Option<String>,
    technical_relations: Seq<TechnicalRelation>,
    technical_kinds: Vec<u64>,
    limit: u16,
)
    ensures
        forall|r: Relation|
            #[trigger] ordered_relations(relations, RelationFilter::Composite { kinds, source, target }).contains(r)
                <==> {
                &&& relations.contains(r)
                &&& (kinds@.len() == 0 || kinds@.contains(r.kind))
                &&& (source matches Some(key) ==> r.source@ == key@)
                &&& (target matches Some(key) ==> r.target@ == key@)
            },
        forall|r: TechnicalRelation|
            #[trigger] ordered_technical_relations(
                technical_relations,
                TechnicalRelationFilter::Composite {
                    relation_kinds: technical_kinds,
                    source_key: source,
                    target_key: target,
                },
            ).contains(r) <==> {
                &&& technical_relations.contains(r)
                &&& (technical_kinds@.len() == 0 || technical_kinds@.contains(r.kind))
                &&& (source matches Some(key) ==> r.source.stable_key@ == key@)
                &&& (target matches Some(key) ==> r.target.stable_key@ == key@)
            },
{
    law_relation_query_answers(relations, RelationFilter::Composite { kinds, source, target }, limit);
    law_technical_relation_query_answers(
        technical_relations,
        TechnicalRelationFilter::Composite { relation_kinds: technical_kinds, source_key: source, target_key: target },
        limit,
    );
}

/// A subscriber that resumes after `seen` records gets exactly the records a
/// fresh subscriber gets after its first `seen`, and its stream cursor counts
/// every matching record before the stream (or stays at `seen` when it had
/// seen more than there are).
pub proof fn law_resumed_snapshot_skips_what_was_seen<T>(matching: Seq<T>, seen: u64)
    ensures
        seen <= matching.len() ==> resumed_records(matching, seen) == resumed_records(matching, 0).skip(seen as int),
        seen <= matching.len() ==> seen + resumed_records(matching, seen).len() == matching.len(),
        seen > matching.len() ==> resumed_records(matching, seen).len() == 0,
{
    assert(resumed_records(matching, 0) =~= matching);
    if seen > matching.len() {
        assert(resumed_records(matching, seen) =~= matching.skip(matching.len() as int));
    }
}

} // verus!
