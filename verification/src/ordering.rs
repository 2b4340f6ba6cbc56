//! Ordering, limiting and resuming record lists: query results come back in
//! commit-time order (records committed at the same time keep their stored
//! order), cut to the query limit with a flag for what was left out; a resumed
//! subscription skips what the subscriber has already seen.

use vstd::prelude::*;

use crate::records::GraphRecord;

verus! {

/// Where a record with time `time` goes in `sorted`: after every record whose
/// time is not later than it.
pub open spec fn insertion_point<T: GraphRecord>(sorted: Seq<T>, time: u64) -> nat
    decreases sorted.len(),
{
    if sorted.len() == 0 {
        0
    } else if sorted[0].time() > time {
        0
    } else {
        1 + insertion_point(sorted.drop_first(), time)
    }
}

/// `records` ordered by commit time, stably: records with equal times keep
/// their relative order.
pub open spec fn sorted_by_time<T: GraphRecord>(records: Seq<T>) -> Seq<T>
    decreases records.len(),
{
    if records.len() == 0 {
        records
    } else {
        let rest = sorted_by_time(records.drop_last());
        rest.insert(insertion_point(rest, records.last().time()) as int, records.last())
    }
}

/// Whether `records` are in non-decreasing commit-time order.
pub open spec fn is_time_ordered<T: GraphRecord>(records: Seq<T>) -> bool {
    forall|i: int, j: int| 0 <= i <= j < records.len() ==> records[i].time() <= records[j].time()
}

proof fn lemma_insertion_point_bounds<T: GraphRecord>(sorted: Seq<T>, time: u64)
    ensures
        insertion_point(sorted, time) <= sorted.len(),
        forall|i: int| 0 <= i < insertion_point(sorted, time) ==> #[trigger] sorted[i].time() <= time,
        is_time_ordered(sorted) ==> forall|i: int|
            insertion_point(sorted, time) <= i < sorted.len() ==> #[trigger] sorted[i].time() > time,
    decreases sorted.len(),
{
    if sorted.len() > 0 && sorted[0].time() <= time {
        let rest = sorted.drop_first();
        lemma_insertion_point_bounds(rest, time);
        assert forall|i: int| 0 <= i < insertion_point(sorted, time) implies #[trigger] sorted[i].time()
            <= time by {
            if i > 0 {
                assert(sorted[i] == rest[i - 1]);
            }
        }
        if is_time_ordered(sorted) {
            assert(is_time_ordered(rest)) by {
                assert forall|i: int, j: int| 0 <= i <= j < rest.len() implies rest[i].time()
                    <= rest[j].time() by {
                    assert(rest[i] == sorted[i + 1]);
                    assert(rest[j] == sorted[j + 1]);
                }
            }
            assert forall|i: int| insertion_point(sorted, time) <= i < sorted.len() implies #[trigger] sorted[i].time()
                > time by {
                assert(sorted[i] == rest[i - 1]);
            }
        }
    } else if sorted.len() > 0 {
        if is_time_ordered(sorted) {
            assert forall|i: int| insertion_point(sorted, time) <= i < sorted.len() implies #[trigger] sorted[i].time()
                > time by {
                assert(sorted[0].time() <= sorted[i].time());
            }
        }
    }
}

/// Stable ordering by time yields records in time order, and the same number
/// of them.
pub proof fn lemma_sorted_by_time_is_ordered<T: GraphRecord>(records: Seq<T>)
    ensures
        is_time_ordered(sorted_by_time(records)),
        sorted_by_time(records).len() == records.len(),
    decreases records.len(),
{
    if records.len() > 0 {
        let rest = sorted_by_time(records.drop_last());
        lemma_sorted_by_time_is_ordered(records.drop_last());
        let x = records.last();
        let p = insertion_point(rest, x.time()) as int;
        lemma_insertion_point_bounds(rest, x.time());
        let result = rest.insert(p, x);
        assert(result == sorted_by_time(records));
        assert forall|i: int, j: int| 0 <= i <= j < result.len() implies result[i].time()
            <= result[j].time() by {
            if i < p {
                assert(result[i] == rest[i]);
            } else if i == p {
                assert(result[i] == x);
            } else {
                assert(result[i] == rest[i - 1]);
            }
            if j < p {
                assert(result[j] == rest[j]);
            } else if j == p {
                assert(result[j] == x);
            } else {
                assert(result[j] == rest[j - 1]);
            }
        }
    }
}

/// Orders `records` by commit time, stably.
pub fn sort_by_occurred_at<T: GraphRecord>(records: Vec<T>) -> (sorted: Vec<T>)
    ensures
        sorted@ == sorted_by_time(records@),
{
    let ghost given = records@;
    let total = records.len();
    assert(given.len() == total);
    let mut remaining = records;
    let mut sorted: Vec<T> = Vec::new();
    let mut consumed: usize = 0;
    while remaining.len() > 0
        invariant
            consumed <= given.len(),
            given.len() <= usize::MAX,
            remaining@ == given.skip(consumed as int),
            sorted@ == sorted_by_time(given.take(consumed as int)),
        decreases remaining@.len(),
    {
        let ghost before = sorted@;
        let record = remaining.remove(0);
        let time = record.occurred_at_time();
        let mut position: usize = 0;
        while position < sorted.len() && sorted[position].occurred_at_time() <= time
            invariant
                position <= sorted@.len(),
                sorted@ == before,
                forall|i: int| 0 <= i < position ==> #[trigger] sorted@[i].time() <= time,
            decreases sorted@.len() - position,
        {
            position = position + 1;
        }
        proof {
            lemma_insertion_point_is_first_later(before, time, position as nat);
            let taken = given.take(consumed + 1);
            assert(taken.drop_last() =~= given.take(consumed as int));
            assert(taken.last() == record);
            assert(given.skip(consumed as int)[0] == record);
            assert(given.skip(consumed + 1) =~= given.skip(consumed as int).drop_first());
        }
        sorted.insert(position, record);
        consumed = consumed + 1;
    }
    proof {
        assert(given.take(consumed as int) =~= given);
    }
    sorted
}

proof fn lemma_insertion_point_is_first_later<T: GraphRecord>(sorted: Seq<T>, time: u64, position: nat)
    requires
        position <= sorted.len(),
        forall|i: int| 0 <= i < position ==> #[trigger] sorted[i].time() <= time,
        position == sorted.len() || sorted[position as int].time() > time,
    ensures
        insertion_point(sorted, time) == position,
    decreases position,
{
    if position > 0 {
        let rest = sorted.drop_first();
        assert(sorted[0].time() <= time);
        assert forall|i: int| 0 <= i < position - 1 implies #[trigger] rest[i].time() <= time by {
            assert(rest[i] == sorted[i + 1]);
        }
        if position < sorted.len() {
            assert(rest[position - 1] == sorted[position as int]);
        }
        lemma_insertion_point_is_first_later(rest, time, (position - 1) as nat);
    }
}

/// At most `limit` records, the first ones; `has_more` tells whether any were
/// left out.
#[derive(Debug)]
pub struct LimitedRecords<T> {
    pub records: Vec<T>,
    pub has_more: bool,
}

/// The query limit applied to an ordered record list.
#[derive(Debug, Clone, Copy, PartialEq, Eq)]
pub struct GraphLimit {
    pub value: usize,
}

impl GraphLimit {
    pub fn new(limit: u16) -> (graph_limit: Self)
        ensures
            graph_limit.value == limit,
    {
        Self { value: limit as usize }
    }

    pub fn apply<T>(&self, records: Vec<T>) -> (limited: LimitedRecords<T>)
        ensures
            limited.has_more == (records@.len() > self.value),
            limited.records@ == records@.take(
                if records@.len() > self.value { self.value as int } else { records@.len() as int },
            ),
    {
        let has_more = records.len() > self.value;
        let mut kept = records;
        if has_more {
            kept.truncate(self.value);
        }
        proof {
            if !has_more {
                assert(records@.take(records@.len() as int) =~= records@);
            }
        }
        LimitedRecords { records: kept, has_more }
    }
}

/// A subscription's initial snapshot after skipping what the subscriber has
/// already seen, and the cursor that the stream continues from.
#[derive(Debug)]
pub struct ResumedSnapshot<T> {
    pub records: Vec<T>,
    pub cursor: u64,
}

impl<T> ResumedSnapshot<T> {
    pub fn new(records: Vec<T>, resume_after: u64) -> (resumed: Self)
        ensures
            resumed.records@ == records@.skip(
                if resume_after as int <= records@.len() { resume_after as int } else { records@.len() as int },
            ),
            resumed.cursor == resume_after + resumed.records@.len(),
    {
        let length = records.len();
        let mut kept = records;
        if (resume_after as u128) < (length as u128) {
            let skip = resume_after as usize;
            let tail = kept.split_off(skip);
            kept = tail;
        } else {
            kept = Vec::new();
            proof {
                assert(records@.skip(records@.len() as int) =~= Seq::<T>::empty());
            }
        }
        let cursor = resume_after + kept.len() as u64;
        ResumedSnapshot { records: kept, cursor }
    }
}

/// The records of `records` that `keep` accepts, in order.
pub open spec fn kept_records<T>(records: Seq<T>, keep: spec_fn(T) -> bool) -> Seq<T>
    decreases records.len(),
{
    if records.len() == 0 {
        records
    } else {
        let rest = kept_records(records.drop_last(), keep);
        if keep(records.last()) {
            rest.push(records.last())
        } else {
            rest
        }
    }
}

/// The first `count` records of a query result, counted from the front.
pub proof fn lemma_kept_records_take_step<T>(records: Seq<T>, keep: spec_fn(T) -> bool, count: int)
    requires
        0 <= count < records.len(),
    ensures
        kept_records(records.take(count + 1), keep) == if keep(records[count]) {
            kept_records(records.take(count), keep).push(records[count])
        } else {
            kept_records(records.take(count), keep)
        },
{
    assert(records.take(count + 1).drop_last() =~= records.take(count));
    assert(records.take(count + 1).last() == records[count]);
}


/// Ordering by time rearranges records: the same records, each as often.
pub proof fn lemma_sorted_by_time_rearranges<T: GraphRecord>(records: Seq<T>)
    ensures
        sorted_by_time(records).to_multiset() == records.to_multiset(),
    decreases records.len(),
{
    if records.len() > 0 {
        let init = records.drop_last();
        let rest = sorted_by_time(init);
        let last = records.last();
        lemma_sorted_by_time_rearranges(init);
        lemma_insertion_point_bounds(rest, last.time());
        vstd::seq_lib::to_multiset_insert(rest, insertion_point(rest, last.time()) as int, last);
        vstd::seq_lib::to_multiset_build(init, last);
        assert(init.push(last) =~= records);
    }
}

/// A record is kept exactly when it is one of `records` and `keep` accepts it.
pub proof fn lemma_kept_records_members<T>(records: Seq<T>, keep: spec_fn(T) -> bool)
    ensures
        forall|x: T| #[trigger] kept_records(records, keep).contains(x) <==> records.contains(x) && keep(x),
    decreases records.len(),
{
    broadcast use vstd::seq_lib::group_seq_properties;

    if records.len() > 0 {
        let init = records.drop_last();
        let last = records.last();
        lemma_kept_records_members(init, keep);
        assert(init.push(last) =~= records);
        assert forall|x: T| #[trigger] kept_records(records, keep).contains(x) <==> records.contains(x) && keep(x) by {
            assert(records.contains(x) <==> init.contains(x) || last == x);
            assert(kept_records(init, keep).contains(x) <==> init.contains(x) && keep(x));
        }
    }
}

} // verus!
