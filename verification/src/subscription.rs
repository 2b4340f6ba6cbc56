//! Post-commit subscription delivery with demand-based flow control.
//!
//! Each committed record that a subscription's filter accepts becomes a stream
//! event with the next cursor.  The event is delivered at once while the
//! subscriber has demand; otherwise it waits in a bounded buffer.  A
//! subscription whose buffer is full when another event arrives overflows:
//! from then on it neither delivers nor buffers anything new.  Granting demand
//! delivers buffered events first-in first-out.

use std::collections::VecDeque;

use vstd::prelude::*;

use crate::graph::{
    relation_is_selected, relation_selected, technical_node_is_selected, technical_node_selected,
    technical_relation_is_selected, technical_relation_selected, thought_is_selected, thought_selected,
    RelationFilter, TechnicalNodeFilter, TechnicalRelationFilter, ThoughtFilter, SUBSCRIPTION_BUFFER_BOUND,
};
use crate::records::{Relation, TechnicalNode, TechnicalRelation, Thought};

verus! {

#[derive(Debug, Clone, Copy, PartialEq, Eq, Structural)]
pub enum SubscriptionStreamKind {
    Thoughts,
    Relations,
    TechnicalNodes,
    TechnicalRelations,
}

/// The committed record that a stream event carries.
#[derive(Debug)]
pub enum SubscriptionPayload {
    Thought(Thought),
    Relation(Relation),
    TechnicalNode(TechnicalNode),
    TechnicalRelation(TechnicalRelation),
}

/// One event of a subscription stream, at its cursor.
#[derive(Debug)]
pub struct SubscriptionStreamEvent {
    pub cursor: u64,
    pub payload: SubscriptionPayload,
}

/// A stream event addressed to its subscription.
#[derive(Debug)]
pub struct SubscriptionEvent {
    pub subscription: String,
    pub event: SubscriptionStreamEvent,
}

#[derive(Debug)]
pub enum RuntimeSubscriptionFilter {
    Thoughts(ThoughtFilter),
    Relations(RelationFilter),
    TechnicalNodes(TechnicalNodeFilter),
    TechnicalRelations(TechnicalRelationFilter),
}

/// The live state of one subscription.
#[derive(Debug)]
pub struct RuntimeSubscription {
    pub subscription: String,
    pub stream: SubscriptionStreamKind,
    pub filter: RuntimeSubscriptionFilter,
    pub last_cursor: u64,
    pub demand: u16,
    pub pending: VecDeque<SubscriptionStreamEvent>,
    pub buffer_bound: u16,
    pub overflowed: bool,
}

/// The cursor after `cursor`; it stops at the largest cursor.
pub open spec fn next_cursor_after(cursor: u64) -> u64 {
    if cursor == u64::MAX { u64::MAX } else { (cursor + 1) as u64 }
}

/// `a + b`, stopping at the largest demand.
pub open spec fn saturating_demand(a: u16, b: u16) -> u16 {
    if a + b > u16::MAX { u16::MAX } else { (a + b) as u16 }
}

pub open spec fn addressed(subscription: String, event: SubscriptionStreamEvent) -> SubscriptionEvent {
    SubscriptionEvent { subscription, event }
}

/// How many buffered events a grant of `credit` delivers.
pub open spec fn delivered_count(demand: u16, credit: u16, pending: nat) -> nat {
    let total = saturating_demand(demand, credit);
    if (total as nat) < pending { total as nat } else { pending }
}

impl RuntimeSubscription {
    /// The buffer never holds more than its bound; events only wait while
    /// there is no demand; buffered cursors are in order and not beyond the
    /// last cursor handed out.
    pub open spec fn wf(&self) -> bool {
        &&& self.pending@.len() <= self.buffer_bound
        &&& self.demand > 0 ==> self.pending@.len() == 0
        &&& forall|i: int, j: int|
            0 <= i <= j < self.pending@.len() ==> self.pending@[i].cursor
                <= self.pending@[j].cursor
        &&& forall|i: int| 0 <= i < self.pending@.len() ==> self.pending@[i].cursor <= self.last_cursor
    }

    /// Everything but the flow-control state is the same.
    pub open spec fn same_identity(&self, other: &Self) -> bool {
        &&& self.subscription == other.subscription
        &&& self.stream == other.stream
        &&& self.filter == other.filter
        &&& self.buffer_bound == other.buffer_bound
    }

    /// What accepting `payload` does: `before` becomes `after`, and `result`
    /// is the event delivered at once, if any.
    pub open spec fn payload_step(
        before: Self,
        after: Self,
        payload: SubscriptionPayload,
        result: Option<SubscriptionEvent>,
    ) -> bool {
        &&& after.same_identity(&before)
        &&& if before.overflowed {
            &&& result is None
            &&& after.last_cursor == before.last_cursor
            &&& after.demand == before.demand
            &&& after.pending@ == before.pending@
            &&& after.overflowed
        } else {
            let event = SubscriptionStreamEvent {
                cursor: next_cursor_after(before.last_cursor),
                payload,
            };
            &&& after.last_cursor == next_cursor_after(before.last_cursor)
            &&& if before.demand > 0 {
                &&& result == Some(addressed(before.subscription, event))
                &&& after.demand == before.demand - 1
                &&& after.pending@ == before.pending@
                &&& !after.overflowed
            } else if before.pending@.len() < before.buffer_bound {
                &&& result is None
                &&& after.demand == before.demand
                &&& after.pending@ == before.pending@.push(event)
                &&& !after.overflowed
            } else {
                &&& result is None
                &&& after.demand == before.demand
                &&& after.pending@ == before.pending@
                &&& after.overflowed
            }
        }
    }

    /// What granting `credit` does: buffered events are delivered first-in
    /// first-out while the (saturating) demand lasts.
    pub open spec fn demand_step(before: Self, after: Self, credit: u16, delivered: Seq<SubscriptionEvent>) -> bool {
        let count = delivered_count(before.demand, credit, before.pending@.len());
        &&& after.same_identity(&before)
        &&& after.last_cursor == before.last_cursor
        &&& after.overflowed == before.overflowed
        &&& delivered.len() == count
        &&& forall|i: int|
            0 <= i < count ==> #[trigger] delivered[i] == addressed(
                before.subscription,
                before.pending@[i],
            )
        &&& after.pending@ == before.pending@.skip(count as int)
        &&& after.demand == saturating_demand(before.demand, credit) - count
    }

    pub fn new(
        subscription: String,
        stream: SubscriptionStreamKind,
        filter: RuntimeSubscriptionFilter,
        cursor: u64,
        initial_demand: u16,
    ) -> (runtime: Self)
        ensures
            runtime.wf(),
            runtime.subscription == subscription,
            runtime.stream == stream,
            runtime.filter == filter,
            runtime.last_cursor == cursor,
            runtime.demand == initial_demand,
            runtime.pending@.len() == 0,
            runtime.buffer_bound == SUBSCRIPTION_BUFFER_BOUND,
            !runtime.overflowed,
    {
        Self {
            subscription,
            stream,
            filter,
            last_cursor: cursor,
            demand: initial_demand,
            pending: VecDeque::new(),
            buffer_bound: SUBSCRIPTION_BUFFER_BOUND,
            overflowed: false,
        }
    }

    pub fn thoughts(subscription: String, filter: ThoughtFilter, cursor: u64, initial_demand: u16) -> (runtime: Self)
        ensures
            runtime.wf(),
            runtime.subscription == subscription,
            runtime.stream == SubscriptionStreamKind::Thoughts,
            runtime.filter == RuntimeSubscriptionFilter::Thoughts(filter),
            runtime.last_cursor == cursor,
            runtime.demand == initial_demand,
            runtime.pending@.len() == 0,
            runtime.buffer_bound == SUBSCRIPTION_BUFFER_BOUND,
            !runtime.overflowed,
    {
        Self::new(subscription, SubscriptionStreamKind::Thoughts, RuntimeSubscriptionFilter::Thoughts(filter), cursor, initial_demand)
    }

    pub fn relations(subscription: String, filter: RelationFilter, cursor: u64, initial_demand: u16) -> (runtime: Self)
        ensures
            runtime.wf(),
            runtime.subscription == subscription,
            runtime.stream == SubscriptionStreamKind::Relations,
            runtime.filter == RuntimeSubscriptionFilter::Relations(filter),
            runtime.last_cursor == cursor,
            runtime.demand == initial_demand,
            runtime.pending@.len() == 0,
            runtime.buffer_bound == SUBSCRIPTION_BUFFER_BOUND,
            !runtime.overflowed,
    {
        Self::new(subscription, SubscriptionStreamKind::Relations, RuntimeSubscriptionFilter::Relations(filter), cursor, initial_demand)
    }

    pub fn technical_nodes(subscription: String, filter: TechnicalNodeFilter, cursor: u64, initial_demand: u16) -> (runtime: Self)
        ensures
            runtime.wf(),
            runtime.subscription == subscription,
            runtime.stream == SubscriptionStreamKind::TechnicalNodes,
            runtime.filter == RuntimeSubscriptionFilter::TechnicalNodes(filter),
            runtime.last_cursor == cursor,
            runtime.demand == initial_demand,
            runtime.pending@.len() == 0,
            runtime.buffer_bound == SUBSCRIPTION_BUFFER_BOUND,
            !runtime.overflowed,
    {
        Self::new(subscription, SubscriptionStreamKind::TechnicalNodes, RuntimeSubscriptionFilter::TechnicalNodes(filter), cursor, initial_demand)
    }

    pub fn technical_relations(subscription: String, filter: TechnicalRelationFilter, cursor: u64, initial_demand: u16) -> (runtime: Self)
        ensures
            runtime.wf(),
            runtime.subscription == subscription,
            runtime.stream == SubscriptionStreamKind::TechnicalRelations,
            runtime.filter == RuntimeSubscriptionFilter::TechnicalRelations(filter),
            runtime.last_cursor == cursor,
            runtime.demand == initial_demand,
            runtime.pending@.len() == 0,
            runtime.buffer_bound == SUBSCRIPTION_BUFFER_BOUND,
            !runtime.overflowed,
    {
        Self::new(
            subscription,
            SubscriptionStreamKind::TechnicalRelations,
            RuntimeSubscriptionFilter::TechnicalRelations(filter),
            cursor,
            initial_demand,
        )
    }

    /// Hands out the next cursor.
    fn next_cursor(&mut self) -> (cursor: u64)
        ensures
            cursor == next_cursor_after(old(self).last_cursor),
            final(self).last_cursor == cursor,
            final(self).same_identity(old(self)),
            final(self).demand == old(self).demand,
            final(self).pending@ == old(self).pending@,
            final(self).overflowed == old(self).overflowed,
    {
        let next = self.last_cursor.saturating_add(1);
        self.last_cursor = next;
        next
    }

    /// Accepts one committed record that the filter selected.
    pub fn accept_payload(&mut self, payload: SubscriptionPayload) -> (delivered: Option<SubscriptionEvent>)
        requires
            old(self).wf(),
        ensures
            final(self).wf(),
            Self::payload_step(*old(self), *final(self), payload, delivered),
    {
        if self.overflowed {
            return None;
        }
        let cursor = self.next_cursor();
        let event = SubscriptionStreamEvent { cursor, payload };
        if self.demand > 0 {
            self.demand = self.demand - 1;
            Some(SubscriptionEvent { subscription: self.subscription.clone(), event })
        } else if self.pending.len() < self.buffer_bound as usize {
            self.pending.push_back(event);
            None
        } else {
            self.overflowed = true;
            None
        }
    }

    /// Adds `credit` to the demand and delivers buffered events with it.
    pub fn accept_demand(&mut self, credit: u16) -> (delivered: Vec<SubscriptionEvent>)
        requires
            old(self).wf(),
        ensures
            final(self).wf(),
            Self::demand_step(*old(self), *final(self), credit, delivered@),
    {
        let ghost before = *self;
        self.demand = self.demand.saturating_add(credit);
        let ghost total = self.demand;
        let mut delivered: Vec<SubscriptionEvent> = Vec::new();
        while self.demand > 0
            invariant
                self.same_identity(&before),
                self.last_cursor == before.last_cursor,
                self.overflowed == before.overflowed,
                total == saturating_demand(before.demand, credit),
                delivered@.len() <= before.pending@.len(),
                self.demand == total - delivered@.len(),
                self.pending@ == before.pending@.skip(delivered@.len() as int),
                forall|i: int|
                    0 <= i < delivered@.len() ==> #[trigger] delivered@[i] == addressed(
                        before.subscription,
                        before.pending@[i],
                    ),
            ensures
                self.demand == 0 || delivered@.len() == before.pending@.len(),
            decreases self.demand,
        {
            let next = self.pending.pop_front();
            match next {
                Some(event) => {
                    proof {
                        assert(event == before.pending@[delivered@.len() as int]);
                        assert(before.pending@.skip(delivered@.len() as int + 1) =~= before.pending@.skip(
                            delivered@.len() as int,
                        ).subrange(1, before.pending@.len() - delivered@.len()));
                    }
                    self.demand = self.demand - 1;
                    delivered.push(SubscriptionEvent { subscription: self.subscription.clone(), event });
                },
                None => {
                    break;
                },
            }
        }
        proof {
            let count = delivered_count(before.demand, credit, before.pending@.len());
            assert(delivered@.len() == count);
            let remaining = before.pending@.skip(count as int);
            assert forall|i: int, j: int| 0 <= i <= j < remaining.len() implies remaining[i].cursor
                <= remaining[j].cursor by {
                assert(remaining[i] == before.pending@[i + count]);
                assert(remaining[j] == before.pending@[j + count]);
            }
            assert forall|i: int| 0 <= i < remaining.len() implies remaining[i].cursor <= self.last_cursor by {
                assert(remaining[i] == before.pending@[i + count]);
            }
        }
        delivered
    }
}

/// A record accepted while the subscriber has no demand waits in the buffer;
/// once the subscriber grants more demand than there were waiting events, it
/// is delivered with the next cursor, after the events that waited before it
/// and in their order, and nothing is left waiting.
pub proof fn law_waiting_event_delivered_on_demand(
    before: RuntimeSubscription,
    waiting: RuntimeSubscription,
    after: RuntimeSubscription,
    payload: SubscriptionPayload,
    immediate: Option<SubscriptionEvent>,
    credit: u16,
    delivered: Seq<SubscriptionEvent>,
)
    requires
        before.wf(),
        !before.overflowed,
        before.demand == 0,
        before.pending@.len() < before.buffer_bound,
        RuntimeSubscription::payload_step(before, waiting, payload, immediate),
        RuntimeSubscription::demand_step(waiting, after, credit, delivered),
        credit > before.pending@.len(),
    ensures
        immediate is None,
        delivered.len() == before.pending@.len() + 1,
        forall|i: int|
            0 <= i < before.pending@.len() ==> #[trigger] delivered[i] == addressed(before.subscription, before.pending@[i]),
        delivered.last() == addressed(
            before.subscription,
            SubscriptionStreamEvent { cursor: next_cursor_after(before.last_cursor), payload },
        ),
        after.pending@.len() == 0,
        after.demand == credit - delivered.len(),
        after.last_cursor == next_cursor_after(before.last_cursor),
{
    let count = before.pending@.len();
    assert(waiting.pending@ == before.pending@.push(
        SubscriptionStreamEvent { cursor: next_cursor_after(before.last_cursor), payload },
    ));
    assert(delivered[count as int] == addressed(waiting.subscription, waiting.pending@[count as int]));
    assert forall|i: int| 0 <= i < count implies #[trigger] delivered[i] == addressed(
        before.subscription,
        before.pending@[i],
    ) by {
        assert(delivered[i] == addressed(waiting.subscription, waiting.pending@[i]));
        assert(waiting.pending@[i] == before.pending@[i]);
    }
}

/// The receipt of one publication attempt: how many events have been
/// published so far.
#[derive(Debug, Clone, Copy, PartialEq, Eq, Structural)]
pub struct SubscriptionPublishReceipt {
    pub published_count: u64,
}

impl SubscriptionPublishReceipt {
    pub fn new(published_count: u64) -> (receipt: Self)
        ensures
            receipt.published_count == published_count,
    {
        Self { published_count }
    }
}

/// Whether the store could be bound to the subscription supervisor.
#[derive(Debug, Clone, Copy, PartialEq, Eq, Structural)]
pub struct StoreBindReceipt {
    pub bound: bool,
}

impl StoreBindReceipt {
    pub fn bound() -> (receipt: Self)
        ensures
            receipt.bound,
    {
        Self { bound: true }
    }

    pub fn is_bound(&self) -> (bound: bool)
        ensures
            bound == self.bound,
    {
        self.bound
    }
}

/// How many delivered events to read back.
#[derive(Debug, Clone, Copy, PartialEq, Eq, Structural)]
pub struct ReadSubscriptionEvents {
    pub limit: usize,
}

impl ReadSubscriptionEvents {
    pub fn all() -> (request: Self)
        ensures
            request.limit == usize::MAX,
    {
        Self { limit: usize::MAX }
    }

    pub fn limit(&self) -> (limit: usize)
        ensures
            limit == self.limit,
    {
        self.limit
    }
}

/// The answer to a demand grant or a retraction.
#[derive(Debug)]
pub enum SubscriptionLifecycleReply {
    DemandAccepted { subscription: String, accepted: u16 },
    Retracted { subscription: String, stream: SubscriptionStreamKind, last_cursor: u64 },
    /// No live subscription has that identifier.
    Unimplemented,
}

impl SubscriptionPayload {
    pub fn duplicate(&self) -> (copy: Self)
        ensures
            copy == *self,
    {
        match self {
            SubscriptionPayload::Thought(t) => SubscriptionPayload::Thought(t.duplicate()),
            SubscriptionPayload::Relation(r) => SubscriptionPayload::Relation(r.duplicate()),
            SubscriptionPayload::TechnicalNode(n) => SubscriptionPayload::TechnicalNode(n.duplicate()),
            SubscriptionPayload::TechnicalRelation(r) => SubscriptionPayload::TechnicalRelation(r.duplicate()),
        }
    }
}

impl SubscriptionEvent {
    pub fn duplicate(&self) -> (copy: Self)
        ensures
            copy == *self,
    {
        SubscriptionEvent {
            subscription: self.subscription.clone(),
            event: SubscriptionStreamEvent { cursor: self.event.cursor, payload: self.event.payload.duplicate() },
        }
    }
}

/// What retracting a subscription gives: the reply, and the stored
/// registration the store is to retract, when a store is bound and the
/// subscription was live.
#[derive(Debug)]
pub struct SubscriptionRetraction {
    pub reply: SubscriptionLifecycleReply,
    pub retract_stored: Option<String>,
}

/// Whether a live subscription has the identifier `id`.
pub open spec fn has_subscription(subscriptions: Seq<RuntimeSubscription>, id: Seq<char>) -> bool {
    exists|i: int| 0 <= i < subscriptions.len() && (#[trigger] subscriptions[i]).subscription@ == id
}

/// The position of the live subscription with identifier `id`.
pub open spec fn subscription_index(subscriptions: Seq<RuntimeSubscription>, id: Seq<char>) -> int {
    choose|i: int| 0 <= i < subscriptions.len() && (#[trigger] subscriptions[i]).subscription@ == id
}

/// The event, if any, that a step appended to the delivered log.
pub open spec fn appended_event(before: Seq<SubscriptionEvent>, after: Seq<SubscriptionEvent>) -> Option<SubscriptionEvent> {
    if after.len() > before.len() {
        Some(after.last())
    } else {
        None
    }
}

/// A subscription as the store persists it: which stream, under which
/// identifier, with which filter.
#[derive(Debug)]
pub enum RuntimeSubscriptionRegistration {
    Thoughts { subscription: String, filter: ThoughtFilter },
    Relations { subscription: String, filter: RelationFilter },
    TechnicalNodes { subscription: String, filter: TechnicalNodeFilter },
    TechnicalRelations { subscription: String, filter: TechnicalRelationFilter },
}

impl RuntimeSubscriptionRegistration {
    /// The identifier, stream and filter of the registered subscription.
    pub open spec fn identity(self) -> (String, SubscriptionStreamKind, RuntimeSubscriptionFilter) {
        match self {
            RuntimeSubscriptionRegistration::Thoughts { subscription, filter } => {
                (subscription, SubscriptionStreamKind::Thoughts, RuntimeSubscriptionFilter::Thoughts(filter))
            },
            RuntimeSubscriptionRegistration::Relations { subscription, filter } => {
                (subscription, SubscriptionStreamKind::Relations, RuntimeSubscriptionFilter::Relations(filter))
            },
            RuntimeSubscriptionRegistration::TechnicalNodes { subscription, filter } => {
                (subscription, SubscriptionStreamKind::TechnicalNodes, RuntimeSubscriptionFilter::TechnicalNodes(filter))
            },
            RuntimeSubscriptionRegistration::TechnicalRelations { subscription, filter } => {
                (
                    subscription,
                    SubscriptionStreamKind::TechnicalRelations,
                    RuntimeSubscriptionFilter::TechnicalRelations(filter),
                )
            },
        }
    }

    /// Whether `runtime` is this registration restarted: at the initial
    /// cursor, with no demand and nothing buffered.
    pub open spec fn restarted_as(self, runtime: RuntimeSubscription) -> bool {
        &&& runtime.subscription == self.identity().0
        &&& runtime.stream == self.identity().1
        &&& runtime.filter == self.identity().2
        &&& runtime.last_cursor == 0
        &&& runtime.demand == 0
        &&& runtime.pending@.len() == 0
        &&& runtime.buffer_bound == SUBSCRIPTION_BUFFER_BOUND
        &&& !runtime.overflowed
    }

    pub fn into_runtime(self) -> (runtime: RuntimeSubscription)
        ensures
            runtime.wf(),
            self.restarted_as(runtime),
    {
        match self {
            RuntimeSubscriptionRegistration::Thoughts { subscription, filter } => {
                RuntimeSubscription::thoughts(subscription, filter, 0, 0)
            },
            RuntimeSubscriptionRegistration::Relations { subscription, filter } => {
                RuntimeSubscription::relations(subscription, filter, 0, 0)
            },
            RuntimeSubscriptionRegistration::TechnicalNodes { subscription, filter } => {
                RuntimeSubscription::technical_nodes(subscription, filter, 0, 0)
            },
            RuntimeSubscriptionRegistration::TechnicalRelations { subscription, filter } => {
                RuntimeSubscription::technical_relations(subscription, filter, 0, 0)
            },
        }
    }
}

/// The subscription registry and the log of delivered events.
#[derive(Debug)]
pub struct SubscriptionSupervisor {
    pub post_commit_count: u64,
    pub subscriptions: Vec<RuntimeSubscription>,
    pub delivered_events: Vec<SubscriptionEvent>,
    pub store_bound: bool,
}

impl SubscriptionSupervisor {
    /// Every live subscription is well formed and identifiers are unique.
    pub open spec fn wf(&self) -> bool {
        &&& forall|i: int| 0 <= i < self.subscriptions@.len() ==> (#[trigger] self.subscriptions@[i]).wf()
        &&& forall|i: int, j: int|
            0 <= i < j < self.subscriptions@.len() ==> (#[trigger] self.subscriptions@[i]).subscription@
                != (#[trigger] self.subscriptions@[j]).subscription@
    }

    /// The step in which the subscription at `index` accepted `payload`: only
    /// that subscription changes, and the event it delivers at once, if any,
    /// is appended to the log and counted.
    pub open spec fn publication(before: Self, after: Self, index: int, payload: SubscriptionPayload) -> bool {
        let result = appended_event(before.delivered_events@, after.delivered_events@);
        &&& 0 <= index < before.subscriptions@.len()
        &&& after.subscriptions@.len() == before.subscriptions@.len()
        &&& forall|j: int|
            0 <= j < before.subscriptions@.len() && j != index ==> #[trigger] after.subscriptions@[j]
                == before.subscriptions@[j]
        &&& RuntimeSubscription::payload_step(
            before.subscriptions@[index],
            after.subscriptions@[index],
            payload,
            result,
        )
        &&& after.delivered_events@ == match result {
            Some(event) => before.delivered_events@.push(event),
            None => before.delivered_events@,
        }
        &&& after.post_commit_count == before.post_commit_count + if result is Some { 1int } else { 0int }
        &&& after.store_bound == before.store_bound
    }

    /// Whether a publication to subscription `id` could deliver an event now.
    pub open spec fn could_deliver(&self, id: Seq<char>) -> bool {
        has_subscription(self.subscriptions@, id) && {
            let s = self.subscriptions@[subscription_index(self.subscriptions@, id)];
            !s.overflowed && s.demand > 0
        }
    }

    pub fn new(post_commit_count: u64) -> (supervisor: Self)
        ensures
            supervisor.wf(),
            supervisor.post_commit_count == post_commit_count,
            supervisor.subscriptions@.len() == 0,
            supervisor.delivered_events@.len() == 0,
            !supervisor.store_bound,
    {
        Self { post_commit_count, subscriptions: Vec::new(), delivered_events: Vec::new(), store_bound: false }
    }

    /// The position of the live subscription `id`.
    pub fn find(&self, id: &String) -> (index: Option<usize>)
        requires
            self.wf(),
        ensures
            index matches Some(i) ==> i < self.subscriptions@.len() && i == subscription_index(
                self.subscriptions@,
                id@,
            ) && self.subscriptions@[i as int].subscription@ == id@,
            index is None ==> !has_subscription(self.subscriptions@, id@),
    {
        let mut index: usize = 0;
        while index < self.subscriptions.len()
            invariant
                self.wf(),
                index <= self.subscriptions@.len(),
                forall|i: int| 0 <= i < index ==> (#[trigger] self.subscriptions@[i]).subscription@ != id@,
            decreases self.subscriptions@.len() - index,
        {
            if self.subscriptions[index].subscription == *id {
                proof {
                    let k = subscription_index(self.subscriptions@, id@);
                    assert(self.subscriptions@[index as int].subscription@ == id@);
                    assert(0 <= k < self.subscriptions@.len() && self.subscriptions@[k].subscription@ == id@);
                    if k != index {
                        if k < index {
                        } else {
                            assert(self.subscriptions@[index as int].subscription@ != self.subscriptions@[k].subscription@);
                        }
                    }
                }
                return Some(index);
            }
            index = index + 1;
        }
        None
    }

    /// Adds a live subscription, replacing any with the same identifier.
    pub fn register(&mut self, subscription: RuntimeSubscription)
        requires
            old(self).wf(),
            subscription.wf(),
        ensures
            final(self).wf(),
            final(self).subscriptions@ == if has_subscription(old(self).subscriptions@, subscription.subscription@) {
                old(self).subscriptions@.update(
                    subscription_index(old(self).subscriptions@, subscription.subscription@),
                    subscription,
                )
            } else {
                old(self).subscriptions@.push(subscription)
            },
            final(self).post_commit_count == old(self).post_commit_count,
            final(self).delivered_events == old(self).delivered_events,
            final(self).store_bound == old(self).store_bound,
    {
        match self.find(&subscription.subscription) {
            Some(index) => {
                let ghost before = self.subscriptions@;
                self.subscriptions.set(index, subscription);
                proof {
                    assert forall|i: int, j: int| 0 <= i < j < self.subscriptions@.len() implies (#[trigger] self.subscriptions@[i]).subscription@
                        != (#[trigger] self.subscriptions@[j]).subscription@ by {
                        if i != index && j != index {
                            assert(before[i] == self.subscriptions@[i]);
                            assert(before[j] == self.subscriptions@[j]);
                        } else if i == index {
                            assert(before[j] == self.subscriptions@[j]);
                        } else {
                            assert(before[i] == self.subscriptions@[i]);
                        }
                    }
                }
            },
            None => {
                let ghost before = self.subscriptions@;
                self.subscriptions.push(subscription);
                proof {
                    assert forall|i: int, j: int| 0 <= i < j < self.subscriptions@.len() implies (#[trigger] self.subscriptions@[i]).subscription@
                        != (#[trigger] self.subscriptions@[j]).subscription@ by {
                        if j == before.len() {
                            assert(self.subscriptions@[i] == before[i]);
                        } else {
                            assert(self.subscriptions@[i] == before[i]);
                            assert(self.subscriptions@[j] == before[j]);
                        }
                    }
                }
            },
        }
    }

    /// Counts one post-commit notification from the store.
    pub fn publish_post_commit(&mut self)
        requires
            old(self).post_commit_count < u64::MAX,
        ensures
            final(self).post_commit_count == old(self).post_commit_count + 1,
            final(self).subscriptions == old(self).subscriptions,
            final(self).delivered_events == old(self).delivered_events,
            final(self).store_bound == old(self).store_bound,
    {
        self.post_commit_count = self.post_commit_count + 1;
    }

    /// Registers a persisted subscription again, as it restarts.
    pub fn restore(&mut self, registration: RuntimeSubscriptionRegistration)
        requires
            old(self).wf(),
        ensures
            final(self).wf(),
            ({
                let id = registration.identity().0@;
                let position = if has_subscription(old(self).subscriptions@, id) {
                    subscription_index(old(self).subscriptions@, id)
                } else {
                    old(self).subscriptions@.len() as int
                };
                &&& final(self).subscriptions@.len() == if has_subscription(old(self).subscriptions@, id) {
                    old(self).subscriptions@.len()
                } else {
                    old(self).subscriptions@.len() + 1
                }
                &&& registration.restarted_as(final(self).subscriptions@[position])
                &&& forall|j: int|
                    0 <= j < old(self).subscriptions@.len() && j != position ==> #[trigger] final(self).subscriptions@[j]
                        == old(self).subscriptions@[j]
            }),
            final(self).post_commit_count == old(self).post_commit_count,
            final(self).delivered_events == old(self).delivered_events,
            final(self).store_bound == old(self).store_bound,
    {
        let runtime = registration.into_runtime();
        self.register(runtime);
    }

    pub fn bind_store(&mut self) -> (receipt: StoreBindReceipt)
        ensures
            receipt.bound,
            final(self).store_bound,
            final(self).post_commit_count == old(self).post_commit_count,
            final(self).subscriptions == old(self).subscriptions,
            final(self).delivered_events == old(self).delivered_events,
    {
        self.store_bound = true;
        StoreBindReceipt::bound()
    }

    /// Appends a delivered event to the log and counts it.
    fn publish(&mut self, event: SubscriptionEvent) -> (receipt: SubscriptionPublishReceipt)
        requires
            old(self).post_commit_count < u64::MAX,
        ensures
            final(self).post_commit_count == old(self).post_commit_count + 1,
            final(self).delivered_events@ == old(self).delivered_events@.push(event),
            final(self).subscriptions == old(self).subscriptions,
            final(self).store_bound == old(self).store_bound,
            receipt.published_count == final(self).post_commit_count,
    {
        self.post_commit_count = self.post_commit_count + 1;
        self.delivered_events.push(event);
        SubscriptionPublishReceipt::new(self.post_commit_count)
    }

    /// Hands a selected record to the subscription at `index`.
    fn publish_for_subscription(&mut self, index: usize, payload: SubscriptionPayload) -> (receipt: SubscriptionPublishReceipt)
        requires
            old(self).wf(),
            index < old(self).subscriptions@.len(),
            !old(self).subscriptions@[index as int].overflowed && old(self).subscriptions@[index as int].demand > 0
                ==> old(self).post_commit_count < u64::MAX,
        ensures
            final(self).wf(),
            Self::publication(*old(self), *final(self), index as int, payload),
            receipt.published_count == final(self).post_commit_count,
    {
        let ghost before = *self;
        let mut runtime = self.subscriptions.remove(index);
        let delivered = runtime.accept_payload(payload);
        let ghost changed = runtime;
        self.subscriptions.insert(index, runtime);
        proof {
            assert(self.subscriptions@ =~= before.subscriptions@.update(index as int, changed));
            assert forall|i: int, j: int| 0 <= i < j < self.subscriptions@.len() implies (#[trigger] self.subscriptions@[i]).subscription@
                != (#[trigger] self.subscriptions@[j]).subscription@ by {
                assert(before.subscriptions@[i].subscription@ != before.subscriptions@[j].subscription@);
            }
        }
        match delivered {
            Some(event) => self.publish(event),
            None => SubscriptionPublishReceipt::new(self.post_commit_count),
        }
    }

    /// Publishes a committed thought to subscription `id`.  `relations` are
    /// the stored relations, or `None` when the store could not be read.
    pub fn publish_thought(&mut self, id: &String, thought: Thought, relations: Option<&Vec<Relation>>) -> (receipt: SubscriptionPublishReceipt)
        requires
            old(self).wf(),
            old(self).could_deliver(id@) ==> old(self).post_commit_count < u64::MAX,
        ensures
            final(self).wf(),
            receipt.published_count == final(self).post_commit_count,
            ({
                let index = subscription_index(old(self).subscriptions@, id@);
                if has_subscription(old(self).subscriptions@, id@) && old(self).store_bound
                    && relations is Some && (old(self).subscriptions@[index].filter matches RuntimeSubscriptionFilter::Thoughts(filter)
                    && thought_selected(filter, relations.unwrap()@, thought)) {
                    Self::publication(*old(self), *final(self), index, SubscriptionPayload::Thought(thought))
                } else {
                    *final(self) == *old(self)
                }
            }),
    {
        let index = match self.find(id) {
            Some(index) => index,
            None => return SubscriptionPublishReceipt::new(self.post_commit_count),
        };
        if !self.store_bound {
            return SubscriptionPublishReceipt::new(self.post_commit_count);
        }
        let relations = match relations {
            Some(relations) => relations,
            None => return SubscriptionPublishReceipt::new(self.post_commit_count),
        };
        let accepted = match &self.subscriptions[index].filter {
            RuntimeSubscriptionFilter::Thoughts(filter) => thought_is_selected(filter, relations, &thought),
            _ => false,
        };
        if accepted {
            self.publish_for_subscription(index, SubscriptionPayload::Thought(thought))
        } else {
            SubscriptionPublishReceipt::new(self.post_commit_count)
        }
    }

    /// Publishes a committed relation to subscription `id`.
    pub fn publish_relation(&mut self, id: &String, relation: Relation) -> (receipt: SubscriptionPublishReceipt)
        requires
            old(self).wf(),
            old(self).could_deliver(id@) ==> old(self).post_commit_count < u64::MAX,
        ensures
            final(self).wf(),
            receipt.published_count == final(self).post_commit_count,
            ({
                let index = subscription_index(old(self).subscriptions@, id@);
                if has_subscription(old(self).subscriptions@, id@)
                    && (old(self).subscriptions@[index].filter matches RuntimeSubscriptionFilter::Relations(filter)
                    && relation_selected(filter, relation)) {
                    Self::publication(*old(self), *final(self), index, SubscriptionPayload::Relation(relation))
                } else {
                    *final(self) == *old(self)
                }
            }),
    {
        let index = match self.find(id) {
            Some(index) => index,
            None => return SubscriptionPublishReceipt::new(self.post_commit_count),
        };
        let accepted = match &self.subscriptions[index].filter {
            RuntimeSubscriptionFilter::Relations(filter) => relation_is_selected(filter, &relation),
            _ => false,
        };
        if accepted {
            self.publish_for_subscription(index, SubscriptionPayload::Relation(relation))
        } else {
            SubscriptionPublishReceipt::new(self.post_commit_count)
        }
    }

    /// Publishes a committed technical node to subscription `id`.
    pub fn publish_technical_node(&mut self, id: &String, node: TechnicalNode) -> (receipt: SubscriptionPublishReceipt)
        requires
            old(self).wf(),
            old(self).could_deliver(id@) ==> old(self).post_commit_count < u64::MAX,
        ensures
            final(self).wf(),
            receipt.published_count == final(self).post_commit_count,
            ({
                let index = subscription_index(old(self).subscriptions@, id@);
                if has_subscription(old(self).subscriptions@, id@)
                    && (old(self).subscriptions@[index].filter matches RuntimeSubscriptionFilter::TechnicalNodes(filter)
                    && technical_node_selected(filter, node)) {
                    Self::publication(*old(self), *final(self), index, SubscriptionPayload::TechnicalNode(node))
                } else {
                    *final(self) == *old(self)
                }
            }),
    {
        let index = match self.find(id) {
            Some(index) => index,
            None => return SubscriptionPublishReceipt::new(self.post_commit_count),
        };
        let accepted = match &self.subscriptions[index].filter {
            RuntimeSubscriptionFilter::TechnicalNodes(filter) => technical_node_is_selected(filter, &node),
            _ => false,
        };
        if accepted {
            self.publish_for_subscription(index, SubscriptionPayload::TechnicalNode(node))
        } else {
            SubscriptionPublishReceipt::new(self.post_commit_count)
        }
    }

    /// Publishes a committed technical relation to subscription `id`.
    pub fn publish_technical_relation(&mut self, id: &String, relation: TechnicalRelation) -> (receipt: SubscriptionPublishReceipt)
        requires
            old(self).wf(),
            old(self).could_deliver(id@) ==> old(self).post_commit_count < u64::MAX,
        ensures
            final(self).wf(),
            receipt.published_count == final(self).post_commit_count,
            ({
                let index = subscription_index(old(self).subscriptions@, id@);
                if has_subscription(old(self).subscriptions@, id@)
                    && (old(self).subscriptions@[index].filter matches RuntimeSubscriptionFilter::TechnicalRelations(filter)
                    && technical_relation_selected(filter, relation)) {
                    Self::publication(*old(self), *final(self), index, SubscriptionPayload::TechnicalRelation(relation))
                } else {
                    *final(self) == *old(self)
                }
            }),
    {
        let index = match self.find(id) {
            Some(index) => index,
            None => return SubscriptionPublishReceipt::new(self.post_commit_count),
        };
        let accepted = match &self.subscriptions[index].filter {
            RuntimeSubscriptionFilter::TechnicalRelations(filter) => technical_relation_is_selected(filter, &relation),
            _ => false,
        };
        if accepted {
            self.publish_for_subscription(index, SubscriptionPayload::TechnicalRelation(relation))
        } else {
            SubscriptionPublishReceipt::new(self.post_commit_count)
        }
    }

    /// The first delivered events, up to the requested limit.
    pub fn event_log(&self, request: ReadSubscriptionEvents) -> (events: Vec<SubscriptionEvent>)
        ensures
            events@ == self.delivered_events@.take(
                if self.delivered_events@.len() > request.limit { request.limit as int } else { self.delivered_events@.len() as int },
            ),
    {
        let count = if self.delivered_events.len() > request.limit() {
            request.limit()
        } else {
            self.delivered_events.len()
        };
        let mut events: Vec<SubscriptionEvent> = Vec::new();
        let mut index: usize = 0;
        while index < count
            invariant
                count <= self.delivered_events@.len(),
                index <= count,
                events@ == self.delivered_events@.take(index as int),
            decreases count - index,
        {
            events.push(self.delivered_events[index].duplicate());
            proof {
                assert(self.delivered_events@.take(index + 1) =~= self.delivered_events@.take(index as int).push(
                    self.delivered_events@[index as int],
                ));
            }
            index = index + 1;
        }
        events
    }

    /// Grants `credit` more events to subscription `id`; buffered events are
    /// delivered with it, in order.
    pub fn accept_demand(&mut self, id: String, credit: u16) -> (reply: SubscriptionLifecycleReply)
        requires
            old(self).wf(),
            has_subscription(old(self).subscriptions@, id@) ==> {
                let s = old(self).subscriptions@[subscription_index(old(self).subscriptions@, id@)];
                old(self).post_commit_count + delivered_count(s.demand, credit, s.pending@.len()) <= u64::MAX
            },
        ensures
            final(self).wf(),
            if has_subscription(old(self).subscriptions@, id@) {
                let index = subscription_index(old(self).subscriptions@, id@);
                let delivered = final(self).delivered_events@.skip(old(self).delivered_events@.len() as int);
                &&& reply == (SubscriptionLifecycleReply::DemandAccepted { subscription: id, accepted: credit })
                &&& final(self).subscriptions@.len() == old(self).subscriptions@.len()
                &&& forall|j: int|
                    0 <= j < old(self).subscriptions@.len() && j != index ==> #[trigger] final(self).subscriptions@[j]
                        == old(self).subscriptions@[j]
                &&& RuntimeSubscription::demand_step(
                    old(self).subscriptions@[index],
                    final(self).subscriptions@[index],
                    credit,
                    delivered,
                )
                &&& final(self).delivered_events@.len() >= old(self).delivered_events@.len()
                &&& final(self).delivered_events@.take(old(self).delivered_events@.len() as int)
                    == old(self).delivered_events@
                &&& final(self).post_commit_count == old(self).post_commit_count + delivered.len()
                &&& final(self).store_bound == old(self).store_bound
            } else {
                &&& reply is Unimplemented
                &&& *final(self) == *old(self)
            },
    {
        let index = match self.find(&id) {
            Some(index) => index,
            None => return SubscriptionLifecycleReply::Unimplemented,
        };
        let ghost before = *self;
        let mut runtime = self.subscriptions.remove(index);
        let delivered = runtime.accept_demand(credit);
        let ghost changed = runtime;
        self.subscriptions.insert(index, runtime);
        proof {
            assert(self.subscriptions@ =~= before.subscriptions@.update(index as int, changed));
            assert forall|i: int, j: int| 0 <= i < j < self.subscriptions@.len() implies (#[trigger] self.subscriptions@[i]).subscription@
                != (#[trigger] self.subscriptions@[j]).subscription@ by {
                assert(before.subscriptions@[i].subscription@ != before.subscriptions@[j].subscription@);
            }
        }
        let mut remaining = delivered;
        let ghost all = remaining@;
        let mut published: usize = 0;
        while remaining.len() > 0
            invariant
                published <= all.len(),
                remaining@ == all.skip(published as int),
                all.len() == delivered_count(
                    before.subscriptions@[index as int].demand,
                    credit,
                    before.subscriptions@[index as int].pending@.len(),
                ),
                before.post_commit_count + all.len() <= u64::MAX,
                self.post_commit_count == before.post_commit_count + published,
                self.delivered_events@ == before.delivered_events@ + all.take(published as int),
                self.subscriptions@ == before.subscriptions@.update(index as int, changed),
                self.wf(),
                self.store_bound == before.store_bound,
            decreases remaining@.len(),
        {
            let event = remaining.remove(0);
            proof {
                assert(all[published as int] == event);
                assert(all.take(published + 1) =~= all.take(published as int).push(event));
                assert(all.skip(published + 1) =~= all.skip(published as int).drop_first());
            }
            self.publish(event);
            published = published + 1;
        }
        proof {
            assert(all.take(published as int) =~= all);
            assert(self.delivered_events@.skip(before.delivered_events@.len() as int) =~= all);
            assert(self.delivered_events@.take(before.delivered_events@.len() as int) =~= before.delivered_events@);
        }
        SubscriptionLifecycleReply::DemandAccepted { subscription: id, accepted: credit }
    }

    /// Ends subscription `id`, and names the stored registration to retract:
    /// the same identifier, when the subscription was live and a store is
    /// bound.
    pub fn retract_subscription_step(&mut self, id: String) -> (step: SubscriptionRetraction)
        requires
            old(self).wf(),
        ensures
            final(self).wf(),
            if has_subscription(old(self).subscriptions@, id@) {
                let index = subscription_index(old(self).subscriptions@, id@);
                let retired = old(self).subscriptions@[index];
                &&& step.reply == (SubscriptionLifecycleReply::Retracted {
                    subscription: id,
                    stream: retired.stream,
                    last_cursor: retired.last_cursor,
                })
                &&& final(self).subscriptions@ == old(self).subscriptions@.remove(index)
                &&& final(self).delivered_events == old(self).delivered_events
                &&& final(self).post_commit_count == old(self).post_commit_count
                &&& final(self).store_bound == old(self).store_bound
                &&& step.retract_stored == (if old(self).store_bound {
                    Some(id)
                } else {
                    None
                })
            } else {
                &&& step.reply is Unimplemented
                &&& step.retract_stored is None
                &&& *final(self) == *old(self)
            },
    {
        let stored_key = id.clone();
        let reply = self.retract_subscription(id);
        let retract_stored = match reply {
            SubscriptionLifecycleReply::Retracted { .. } => if self.store_bound {
                Some(stored_key)
            } else {
                None
            },
            _ => None,
        };
        SubscriptionRetraction { reply, retract_stored }
    }

    /// Ends subscription `id`.
    pub fn retract_subscription(&mut self, id: String) -> (reply: SubscriptionLifecycleReply)
        requires
            old(self).wf(),
        ensures
            final(self).wf(),
            if has_subscription(old(self).subscriptions@, id@) {
                let index = subscription_index(old(self).subscriptions@, id@);
                let retired = old(self).subscriptions@[index];
                &&& reply == (SubscriptionLifecycleReply::Retracted {
                    subscription: id,
                    stream: retired.stream,
                    last_cursor: retired.last_cursor,
                })
                &&& final(self).subscriptions@ == old(self).subscriptions@.remove(index)
                &&& !has_subscription(final(self).subscriptions@, id@)
                &&& final(self).delivered_events == old(self).delivered_events
                &&& final(self).post_commit_count == old(self).post_commit_count
                &&& final(self).store_bound == old(self).store_bound
            } else {
                &&& reply is Unimplemented
                &&& *final(self) == *old(self)
            },
    {
        let index = match self.find(&id) {
            Some(index) => index,
            None => return SubscriptionLifecycleReply::Unimplemented,
        };
        let ghost before = self.subscriptions@;
        let retired = self.subscriptions.remove(index);
        proof {
            assert forall|i: int, j: int| 0 <= i < j < self.subscriptions@.len() implies (#[trigger] self.subscriptions@[i]).subscription@
                != (#[trigger] self.subscriptions@[j]).subscription@ by {
                let bi = if i < index { i } else { i + 1 };
                let bj = if j < index { j } else { j + 1 };
                assert(self.subscriptions@[i] == before[bi]);
                assert(self.subscriptions@[j] == before[bj]);
            }
            if has_subscription(self.subscriptions@, id@) {
                let k = choose|k: int| 0 <= k < self.subscriptions@.len() && (#[trigger] self.subscriptions@[k]).subscription@ == id@;
                let bk = if k < index { k } else { k + 1 };
                assert(self.subscriptions@[k] == before[bk]);
                assert(before[index as int].subscription@ == id@);
                if bk < index {
                    assert(before[bk].subscription@ != before[index as int].subscription@);
                } else {
                    assert(before[index as int].subscription@ != before[bk].subscription@);
                }
            }
        }
        SubscriptionLifecycleReply::Retracted { subscription: id, stream: retired.stream, last_cursor: retired.last_cursor }
    }
}

} // verus!
