//! The log broadcast hub.
//!
//! Every line the supervised process prints is published here and offered
//! to every current subscriber. Each subscriber owns a bounded queue of
//! lines it has not yet read: publishing never blocks, and a full queue
//! drops its oldest line to make room. The hub keeps no history, so a late
//! subscriber sees only lines published after it subscribed.

use vstd::prelude::*;

verus! {

/// One subscriber: a handle id and the lines published since it subscribed
/// that it has not yet taken, oldest first.
pub struct HubSubscriber {
    pub id: u64,
    pub queue: Vec<String>,
}

/// The hub: the live subscribers and the bound on each subscriber's queue.
pub struct BroadcastHub {
    pub subscribers: Vec<HubSubscriber>,
    pub capacity: usize,
    pub next_id: u64,
}

impl BroadcastHub {
    /// A hub is well formed when its bound is positive, no two subscribers
    /// share a handle id, ids already handed out are below the next one,
    /// and no queue exceeds the bound.
    pub open spec fn wf(self) -> bool {
        &&& self.capacity >= 1
        &&& forall|i: int, j: int|
            0 <= i < j < self.subscribers@.len() ==> self.subscribers@[i].id
                != self.subscribers@[j].id
        &&& forall|i: int|
            0 <= i < self.subscribers@.len() ==> self.subscribers@[i].id < self.next_id
        &&& forall|i: int|
            0 <= i < self.subscribers@.len() ==> self.subscribers@[i].queue@.len()
                <= self.capacity
    }

    /// A hub with no subscribers and the given queue bound.
    pub fn new(capacity: usize) -> (h: BroadcastHub)
        requires
            capacity >= 1,
        ensures
            h.wf(),
            h.subscribers@.len() == 0,
            h.capacity == capacity,
            h.next_id == 0,
    {
        BroadcastHub { subscribers: Vec::new(), capacity, next_id: 0 }
    }

    /// How many subscribers are live.
    pub fn subscriber_count(&self) -> (n: usize)
        ensures
            n == self.subscribers@.len(),
    {
        self.subscribers.len()
    }

    /// Registers a new subscriber with an empty queue and returns its
    /// handle id; every other subscriber is untouched.
    pub fn subscribe(&mut self) -> (id: u64)
        requires
            old(self).wf(),
            old(self).next_id < u64::MAX,
        ensures
            final(self).wf(),
            id == old(self).next_id,
            final(self).next_id == old(self).next_id + 1,
            final(self).capacity == old(self).capacity,
            final(self).subscribers@.len() == old(self).subscribers@.len() + 1,
            final(self).subscribers@.subrange(0, old(self).subscribers@.len() as int) == old(
                self,
            ).subscribers@,
            final(self).subscribers@.last().id == id,
            final(self).subscribers@.last().queue@ == Seq::<String>::empty(),
    {
        let id = self.next_id;
        self.next_id = id + 1;
        self.subscribers.push(HubSubscriber { id, queue: Vec::new() });
        proof {
            assert(self.subscribers@.subrange(0, old(self).subscribers@.len() as int) =~= old(
                self,
            ).subscribers@);
        }
        id
    }

    /// Removes the subscriber holding `id`, if it is live; every other
    /// subscriber keeps its place and its queue.
    pub fn unsubscribe(&mut self, id: u64)
        requires
            old(self).wf(),
        ensures
            final(self).wf(),
            final(self).capacity == old(self).capacity,
            final(self).next_id == old(self).next_id,
            (forall|i: int|
                0 <= i < old(self).subscribers@.len() ==> old(self).subscribers@[i].id != id)
                ==> final(self).subscribers@ == old(self).subscribers@,
            forall|i: int|
                0 <= i < old(self).subscribers@.len() && old(self).subscribers@[i].id == id
                    ==> final(self).subscribers@ == old(self).subscribers@.remove(i),
    {
        let n = self.subscribers.len();
        let mut idx: usize = 0;
        while idx < n
            invariant
                old(self).wf(),
                n == self.subscribers@.len(),
                idx <= n,
                *self == *old(self),
                forall|i: int| 0 <= i < idx ==> self.subscribers@[i].id != id,
            decreases n - idx,
        {
            if self.subscribers[idx].id == id {
                self.subscribers.remove(idx);
                proof {
                    assert(self.subscribers@ =~= old(self).subscribers@.remove(idx as int));
                    assert forall|i: int|
                        0 <= i < old(self).subscribers@.len() && old(self).subscribers@[i].id
                            == id implies final(self).subscribers@ == old(
                        self,
                    ).subscribers@.remove(i) by {
                        assert(i == idx);
                    }
                }
                return ;
            }
            idx = idx + 1;
        }
    }

    /// Delivers a line to every subscriber: it is appended to each queue,
    /// and a queue already at the bound first drops its oldest line.
    pub fn publish(&mut self, line: &String)
        requires
            old(self).wf(),
        ensures
            final(self).wf(),
            final(self).capacity == old(self).capacity,
            final(self).next_id == old(self).next_id,
            final(self).subscribers@.len() == old(self).subscribers@.len(),
            forall|i: int|
                0 <= i < old(self).subscribers@.len() ==> {
                    &&& final(self).subscribers@[i].id == old(self).subscribers@[i].id
                    &&& final(self).subscribers@[i].queue@ == spec_offer(
                        old(self).subscribers@[i].queue@,
                        *line,
                        old(self).capacity as nat,
                    )
                },
    {
        let mut subs: Vec<HubSubscriber> = Vec::new();
        core::mem::swap(&mut subs, &mut self.subscribers);
        let ghost before = subs@;
        let n = subs.len();
        let mut updated: Vec<HubSubscriber> = Vec::new();
        let mut idx: usize = 0;
        while idx < n
            invariant
                old(self).wf(),
                before == old(self).subscribers@,
                self.capacity == old(self).capacity,
                self.next_id == old(self).next_id,
                n == subs@.len() + idx,
                idx <= n,
                before.len() == n,
                subs@ == before.skip(idx as int),
                updated@.len() == idx,
                self.capacity >= 1,
                forall|i: int| 0 <= i < before.len() ==> before[i].queue@.len() <= self.capacity,
                forall|i: int|
                    0 <= i < idx ==> {
                        &&& updated@[i].id == before[i].id
                        &&& updated@[i].queue@ == spec_offer(
                            before[i].queue@,
                            *line,
                            self.capacity as nat,
                        )
                    },
            decreases n - idx,
        {
            let mut sub = subs.remove(0);
            if sub.queue.len() == self.capacity {
                sub.queue.remove(0);
            }
            sub.queue.push(line.clone());
            updated.push(sub);
            idx = idx + 1;
        }
        core::mem::swap(&mut updated, &mut self.subscribers);
        proof {
            assert forall|i: int, j: int|
                0 <= i < j < self.subscribers@.len() implies self.subscribers@[i].id
                != self.subscribers@[j].id by {
                assert(self.subscribers@[i].id == old(self).subscribers@[i].id);
                assert(self.subscribers@[j].id == old(self).subscribers@[j].id);
            }
            assert forall|i: int| 0 <= i < self.subscribers@.len() implies self.subscribers@[i].id
                < self.next_id by {
                assert(self.subscribers@[i].id == old(self).subscribers@[i].id);
            }
            assert forall|i: int|
                0 <= i < self.subscribers@.len() implies self.subscribers@[i].queue@.len()
                <= self.capacity by {
                let oldq = old(self).subscribers@[i].queue@;
                assert(self.subscribers@[i].queue@ == spec_offer(
                    oldq,
                    *line,
                    self.capacity as nat,
                ));
                assert(oldq.len() <= self.capacity);
            }
        }
    }

    /// Takes the oldest unread line of the subscriber holding `id`, or
    /// returns `None` when there is no such subscriber or its queue is
    /// empty; every other subscriber is untouched.
    pub fn take_next(&mut self, id: u64) -> (r: Option<String>)
        requires
            old(self).wf(),
        ensures
            final(self).wf(),
            final(self).capacity == old(self).capacity,
            final(self).next_id == old(self).next_id,
            final(self).subscribers@.len() == old(self).subscribers@.len(),
            forall|i: int|
                0 <= i < old(self).subscribers@.len() ==> final(self).subscribers@[i].id == old(
                    self,
                ).subscribers@[i].id,
            forall|i: int|
                0 <= i < old(self).subscribers@.len() && old(self).subscribers@[i].id != id ==>
                    final(self).subscribers@[i] == old(self).subscribers@[i],
            match r {
                Some(l) => exists|i: int|
                    {
                        &&& 0 <= i < old(self).subscribers@.len()
                        &&& old(self).subscribers@[i].id == id
                        &&& old(self).subscribers@[i].queue@.len() > 0
                        &&& l == old(self).subscribers@[i].queue@[0]
                        &&& final(self).subscribers@[i].id == id
                        &&& final(self).subscribers@[i].queue@ == old(
                            self,
                        ).subscribers@[i].queue@.skip(1)
                    },
                None => forall|i: int|
                    0 <= i < old(self).subscribers@.len() ==> ((old(self).subscribers@[i].id != id
                        || old(self).subscribers@[i].queue@.len() == 0)
                        && final(self).subscribers@[i] == old(self).subscribers@[i]),
            },
    {
        let n = self.subscribers.len();
        let mut idx: usize = 0;
        while idx < n
            invariant
                old(self).wf(),
                n == self.subscribers@.len(),
                idx <= n,
                *self == *old(self),
                forall|i: int|
                    0 <= i < idx ==> self.subscribers@[i].id != id
                        || self.subscribers@[i].queue@.len() == 0,
            decreases n - idx,
        {
            if self.subscribers[idx].id == id {
                let mut sub = self.subscribers.remove(idx);
                let ghost removed = sub;
                if sub.queue.len() == 0 {
                    self.subscribers.insert(idx, sub);
                    proof {
                        assert(self.subscribers@ =~= old(self).subscribers@);
                    }
                    return None;
                }
                let line = sub.queue.remove(0);
                let ghost shortened = sub;
                self.subscribers.insert(idx, sub);
                proof {
                    assert(removed == old(self).subscribers@[idx as int]);
                    assert(shortened.queue@ =~= removed.queue@.skip(1));
                    assert(self.subscribers@ =~= old(self).subscribers@.update(
                        idx as int,
                        shortened,
                    ));
                }
                return Some(line);
            }
            idx = idx + 1;
        }
        None
    }
}

/// What offering a line to one bounded queue yields: the line is appended,
/// after the oldest entry is dropped if the queue is full.
pub open spec fn spec_offer(queue: Seq<String>, line: String, capacity: nat) -> Seq<String> {
    if queue.len() >= capacity {
        queue.skip(1).push(line)
    } else {
        queue.push(line)
    }
}

/// Fan-out: one published line is offered to every subscriber, so any two
/// subscribers both see it as the newest entry of their queues.
pub proof fn lemma_broadcast_fanout(pre: BroadcastHub, post: BroadcastHub, line: String, i: int, j: int)
    requires
        pre.wf(),
        post.capacity == pre.capacity,
        post.subscribers@.len() == pre.subscribers@.len(),
        forall|k: int|
            0 <= k < pre.subscribers@.len() ==> post.subscribers@[k].queue@ == spec_offer(
                pre.subscribers@[k].queue@,
                line,
                pre.capacity as nat,
            ),
        0 <= i < pre.subscribers@.len(),
        0 <= j < pre.subscribers@.len(),
    ensures
        post.subscribers@[i].queue@.last() == line,
        post.subscribers@[j].queue@.last() == line,
{
}

} // verus!
