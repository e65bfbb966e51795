//! The target queue: a bounded first-in-first-out hand-off of target records
//! from the sensor's side to the renderer, with an explicit rule for what
//! happens when it is full.

use crate::geometry::TargetRecord;
use vstd::prelude::*;

verus! {

/// Capacity of the queue between the sensor and the renderer.
pub const DEFAULT_CAPACITY: usize = 10;

/// What becomes of a record that arrives while the queue is full.
#[derive(Clone, Copy, Debug, PartialEq, Eq, Structural)]
pub enum OverflowPolicy {
    /// The record is not taken; the producer has to wait for room and offer
    /// it again.
    Block,
    /// The oldest queued record makes room for the new one.
    DropOldest,
    /// The new record is thrown away.
    DropNewest,
}

/// What a push did.
#[derive(Clone, Copy, Debug, PartialEq, Eq, Structural)]
pub enum PushOutcome {
    /// The record was appended.
    Queued,
    /// The record was appended after the oldest record, given here, was
    /// removed.
    Displaced(TargetRecord),
    /// The record was thrown away.
    Discarded,
    /// The queue is full and keeps what it has; the record was not taken.
    MustWait,
}

/// The queue's contents after one push.
pub open spec fn pushed(
    items: Seq<TargetRecord>,
    capacity: nat,
    policy: OverflowPolicy,
    record: TargetRecord,
) -> Seq<TargetRecord> {
    if items.len() < capacity {
        items.push(record)
    } else if policy == OverflowPolicy::DropOldest && items.len() > 0 {
        items.drop_first().push(record)
    } else {
        items
    }
}

/// The outcome of one push.
pub open spec fn push_outcome(
    items: Seq<TargetRecord>,
    capacity: nat,
    policy: OverflowPolicy,
) -> PushOutcome {
    if items.len() < capacity {
        PushOutcome::Queued
    } else {
        match policy {
            OverflowPolicy::Block => PushOutcome::MustWait,
            OverflowPolicy::DropNewest => PushOutcome::Discarded,
            OverflowPolicy::DropOldest => if items.len() > 0 {
                PushOutcome::Displaced(items[0])
            } else {
                PushOutcome::Discarded
            },
        }
    }
}

/// The queue's contents after pushing `records` one by one, first to last.
pub open spec fn pushed_all(
    items: Seq<TargetRecord>,
    capacity: nat,
    policy: OverflowPolicy,
    records: Seq<TargetRecord>,
) -> Seq<TargetRecord>
    decreases records.len(),
{
    if records.len() == 0 {
        items
    } else {
        pushed(
            pushed_all(items, capacity, policy, records.drop_last()),
            capacity,
            policy,
            records.last(),
        )
    }
}

/// A bounded first-in-first-out queue of target records.
pub struct TargetQueue {
    items: Vec<TargetRecord>,
    capacity: usize,
    policy: OverflowPolicy,
}

impl View for TargetQueue {
    type V = Seq<TargetRecord>;

    /// The queued records, oldest first.
    closed spec fn view(&self) -> Seq<TargetRecord> {
        self.items@
    }
}

impl TargetQueue {
    /// The most records the queue holds.
    pub closed spec fn bound(&self) -> nat {
        self.capacity as nat
    }

    /// The rule applied when the queue is full.
    pub closed spec fn rule(&self) -> OverflowPolicy {
        self.policy
    }

    /// The queue never holds more than its capacity.
    pub open spec fn wf(&self) -> bool {
        self@.len() <= self.bound()
    }

    /// An empty queue of the given capacity and overflow policy.
    pub fn new(capacity: usize, policy: OverflowPolicy) -> (queue: Self)
        ensures
            queue.wf(),
            queue@ == Seq::<TargetRecord>::empty(),
            queue.bound() == capacity,
            queue.rule() == policy,
    {
        TargetQueue { items: Vec::new(), capacity, policy }
    }

    /// The most records the queue holds.
    pub fn capacity(&self) -> (capacity: usize)
        ensures
            capacity == self.bound(),
    {
        self.capacity
    }

    /// The rule applied when the queue is full.
    pub fn policy(&self) -> (policy: OverflowPolicy)
        ensures
            policy == self.rule(),
    {
        self.policy
    }

    /// Number of queued records.
    pub fn len(&self) -> (count: usize)
        ensures
            count == self@.len(),
    {
        self.items.len()
    }

    /// Whether nothing is queued.
    pub fn is_empty(&self) -> (empty: bool)
        ensures
            empty == (self@.len() == 0),
    {
        self.items.len() == 0
    }

    /// Whether the queue holds as many records as it may.
    pub fn is_full(&self) -> (full: bool)
        ensures
            full == (self@.len() >= self.bound()),
    {
        self.items.len() >= self.capacity
    }

    /// Offers one record. With room it is appended; without, the overflow
    /// policy decides, and the outcome says what was done.
    pub fn push(&mut self, record: TargetRecord) -> (outcome: PushOutcome)
        requires
            old(self).wf(),
        ensures
            final(self).wf(),
            final(self).bound() == old(self).bound(),
            final(self).rule() == old(self).rule(),
            final(self)@ == pushed(old(self)@, old(self).bound(), old(self).rule(), record),
            outcome == push_outcome(old(self)@, old(self).bound(), old(self).rule()),
    {
        if self.items.len() < self.capacity {
            self.items.push(record);
            return PushOutcome::Queued;
        }
        match self.policy {
            OverflowPolicy::Block => PushOutcome::MustWait,
            OverflowPolicy::DropNewest => PushOutcome::Discarded,
            OverflowPolicy::DropOldest => {
                if self.items.len() == 0 {
                    PushOutcome::Discarded
                } else {
                    let oldest: TargetRecord = self.items.remove(0);
                    self.items.push(record);
                    assert(self.items@ =~= old(self)@.drop_first().push(record));
                    PushOutcome::Displaced(oldest)
                }
            },
        }
    }

    /// Forwards the records of one notification, from index `from` on, in
    /// order. Under `Block` it stops at the first record for which there is
    /// no room and returns that record's index; the caller offers the rest
    /// again once the queue was drained. Under the other policies every
    /// record is pushed and the result is the number of records.
    pub fn forward(&mut self, records: &Vec<TargetRecord>, from: usize) -> (next: usize)
        requires
            old(self).wf(),
        ensures
            final(self).wf(),
            final(self).bound() == old(self).bound(),
            final(self).rule() == old(self).rule(),
            from >= records@.len() ==> next == from && final(self)@ == old(self)@,
            from <= records@.len() ==> {
                &&& from <= next <= records@.len()
                &&& final(self)@ == pushed_all(
                    old(self)@,
                    old(self).bound(),
                    old(self).rule(),
                    records@.subrange(from as int, next as int),
                )
                &&& next < records@.len() ==> old(self).rule() == OverflowPolicy::Block
                    && final(self)@.len() == old(self).bound()
                &&& old(self).rule() == OverflowPolicy::Block ==> final(self)@ == old(self)@
                    + records@.subrange(from as int, next as int)
            },
    {
        let mut next: usize = from;
        if from > records.len() {
            return next;
        }
        assert(records@.subrange(from as int, from as int) =~= Seq::<TargetRecord>::empty());
        assert(self@ + Seq::<TargetRecord>::empty() =~= self@);
        while next < records.len()
            invariant
                from <= next <= records@.len(),
                self.wf(),
                self.bound() == old(self).bound(),
                self.rule() == old(self).rule(),
                self@ == pushed_all(
                    old(self)@,
                    old(self).bound(),
                    old(self).rule(),
                    records@.subrange(from as int, next as int),
                ),
                old(self).rule() == OverflowPolicy::Block ==> self@ == old(self)@
                    + records@.subrange(from as int, next as int),
            decreases records@.len() - next,
        {
            if self.policy == OverflowPolicy::Block && self.items.len() >= self.capacity {
                return next;
            }
            let ghost before = self@;
            let ghost longer = records@.subrange(from as int, next as int + 1);
            proof {
                assert(longer.drop_last() =~= records@.subrange(from as int, next as int));
                assert(longer.last() == records@[next as int]);
            }
            self.push(records[next]);
            proof {
                if old(self).rule() == OverflowPolicy::Block {
                    assert(before.push(records@[next as int]) =~= old(self)@ + longer);
                }
            }
            next += 1;
        }
        next
    }

    /// Takes everything that is queued, oldest first, and leaves the queue
    /// empty. It never waits: from an empty queue it returns no records.
    pub fn drain(&mut self) -> (records: Vec<TargetRecord>)
        ensures
            records@ == old(self)@,
            old(self)@.len() == 0 ==> records@.len() == 0,
            final(self)@ == Seq::<TargetRecord>::empty(),
            final(self).wf(),
            final(self).bound() == old(self).bound(),
            final(self).rule() == old(self).rule(),
    {
        let mut records: Vec<TargetRecord> = Vec::new();
        std::mem::swap(&mut self.items, &mut records);
        records
    }
}

/// Records pushed while there is room for all of them are queued behind
/// what was there, in the order in which they were pushed: none is lost,
/// repeated or moved. A drain then returns exactly them.
pub proof fn lemma_pushes_keep_order(
    items: Seq<TargetRecord>,
    capacity: nat,
    policy: OverflowPolicy,
    records: Seq<TargetRecord>,
)
    requires
        items.len() + records.len() <= capacity,
    ensures
        pushed_all(items, capacity, policy, records) == items + records,
    decreases records.len(),
{
    if records.len() == 0 {
        assert(items + records =~= items);
    } else {
        lemma_pushes_keep_order(items, capacity, policy, records.drop_last());
        assert((items + records.drop_last()).push(records.last()) =~= items + records);
    }
}

/// One record more than an empty queue holds: under `Block` and under
/// `DropNewest` the queue keeps the first records and the last one is
/// refused or thrown away; under `DropOldest` the first record leaves and
/// the others move up.
pub proof fn lemma_overflow_by_one(capacity: nat, policy: OverflowPolicy, records: Seq<TargetRecord>)
    requires
        records.len() == capacity + 1,
    ensures
        push_outcome(records.drop_last(), capacity, policy) == match policy {
            OverflowPolicy::Block => PushOutcome::MustWait,
            OverflowPolicy::DropNewest => PushOutcome::Discarded,
            OverflowPolicy::DropOldest => if capacity > 0 {
                PushOutcome::Displaced(records[0])
            } else {
                PushOutcome::Discarded
            },
        },
        pushed_all(Seq::empty(), capacity, policy, records) == match policy {
            OverflowPolicy::Block => records.drop_last(),
            OverflowPolicy::DropNewest => records.drop_last(),
            OverflowPolicy::DropOldest => if capacity > 0 {
                records.drop_first()
            } else {
                Seq::empty()
            },
        },
{
    let kept = records.drop_last();
    lemma_pushes_keep_order(Seq::empty(), capacity, policy, kept);
    assert(Seq::<TargetRecord>::empty() + kept =~= kept);
    if policy == OverflowPolicy::DropOldest && capacity > 0 {
        assert(kept.drop_first().push(records.last()) =~= records.drop_first());
    }
}

} // verus!
