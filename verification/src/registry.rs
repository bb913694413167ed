//! The subscription registry: one per event kind, mapping each subscriber's
//! identity to the sending half of its bounded outbound queue.
//!
//! Identities are pairwise distinct, and every identity present sits below
//! the registry's sequence counter, so an identity handed out once is never
//! handed out again. Registration only inserts; the forwarding worker is the
//! only caller that removes entries, through [`Registry::evict`].

use vstd::prelude::*;

use crate::channel::{clone_sender, new_event_channel, try_send_event, SendOutcome};
use crate::event::{Event, EventKind};
use crate::ids::{random_u64, SubscriberId};

verus! {

/// Number of slots in a subscriber's outbound queue when the caller does not
/// pick one.
pub const OUTBOUND_QUEUE_CAPACITY: usize = 1000;

/// One registered subscriber: its identity and the sending half of its
/// outbound queue.
pub struct RegistryEntry {
    pub id: SubscriberId,
    pub sender: tokio::sync::mpsc::Sender<Event>,
}

/// The subscribers of one event kind, in registration order (the order is
/// irrelevant to delivery; it only fixes the order of delivery attempts
/// within a pass).
pub struct Registry {
    pub kind: EventKind,
    pub entries: Vec<RegistryEntry>,
    pub next_seq: u64,
    /// What each subscriber's outbound queue has accepted, in delivery
    /// order: the model of the queue's contents over time, which the queue
    /// itself (an opaque channel) cannot show.
    pub delivered: Ghost<Map<SubscriberId, Seq<Event>>>,
}

/// Whether some entry of the sequence carries the identity.
pub open spec fn entries_contain(s: Seq<RegistryEntry>, id: SubscriberId) -> bool {
    exists|i: int| 0 <= i < s.len() && s[i].id == id
}

/// Whether some attempt of a pass named the identity.
pub open spec fn attempts_contain(
    attempts: Seq<(SubscriberId, SendOutcome)>,
    sid: SubscriberId,
) -> bool {
    exists|i: int| 0 <= i < attempts.len() && attempts[i].0 == sid
}

/// Whether a pass named no identity twice; true of every pass made against
/// a well-formed registry's snapshot.
pub open spec fn attempt_ids_distinct(attempts: Seq<(SubscriberId, SendOutcome)>) -> bool {
    forall|i: int, j: int|
        0 <= i < j < attempts.len() ==> (#[trigger] attempts[i]).0 != (#[trigger] attempts[j]).0
}

/// The identities whose delivery attempt reported a closed queue, in
/// attempt order.
pub open spec fn closed_ids(attempts: Seq<(SubscriberId, SendOutcome)>) -> Seq<SubscriberId>
    decreases attempts.len(),
{
    if attempts.len() == 0 {
        Seq::empty()
    } else {
        let rest = closed_ids(attempts.drop_last());
        if attempts.last().1 is Closed {
            rest.push(attempts.last().0)
        } else {
            rest
        }
    }
}

/// Collects the identities whose attempt reported a closed queue, keeping
/// their order.
pub fn failed_sends(attempts: &Vec<(SubscriberId, SendOutcome)>) -> (r: Vec<SubscriberId>)
    ensures
        r@ == closed_ids(attempts@),
{
    let mut r: Vec<SubscriberId> = Vec::new();
    let mut i: usize = 0;
    while i < attempts.len()
        invariant
            i <= attempts@.len(),
            r@ == closed_ids(attempts@.take(i as int)),
        decreases attempts@.len() - i,
    {
        proof {
            assert(attempts@.take(i + 1).drop_last() =~= attempts@.take(i as int));
            assert(attempts@.take(i + 1).last() == attempts@[i as int]);
        }
        if matches!(attempts[i].1, SendOutcome::Closed) {
            r.push(attempts[i].0);
        }
        i += 1;
    }
    proof {
        assert(attempts@.take(attempts@.len() as int) =~= attempts@);
    }
    r
}

/// One fan-out pass over a snapshot, with no lock held: a non-blocking
/// delivery attempt of the event to every snapshot entry, in order, one
/// attempt each. The outcomes go back to [`Registry::apply_pass`] under the
/// registry's next critical section.
pub fn deliver_to_snapshot(snapshot: &Vec<RegistryEntry>, ev: &Event) -> (attempts: Vec<
    (SubscriberId, SendOutcome),
>)
    ensures
        attempts@.len() == snapshot@.len(),
        forall|i: int| 0 <= i < attempts@.len() ==> (#[trigger] attempts@[i]).0 == snapshot@[i].id,
{
    let mut attempts: Vec<(SubscriberId, SendOutcome)> = Vec::new();
    let mut i: usize = 0;
    while i < snapshot.len()
        invariant
            i <= snapshot@.len(),
            attempts@.len() == i,
            forall|k: int| 0 <= k < i ==> (#[trigger] attempts@[k]).0 == snapshot@[k].id,
        decreases snapshot@.len() - i,
    {
        let outcome = try_send_event(&snapshot[i].sender, ev.clone());
        attempts.push((snapshot[i].id, outcome));
        i += 1;
    }
    attempts
}

impl Registry {
    /// An identity is present when some entry carries it.
    pub open spec fn contains_id(self, id: SubscriberId) -> bool {
        entries_contain(self.entries@, id)
    }

    /// The events delivered into the identity's outbound queue so far, in
    /// delivery order.
    pub open spec fn history(self, sid: SubscriberId) -> Seq<Event> {
        if self.delivered@.contains_key(sid) {
            self.delivered@[sid]
        } else {
            Seq::empty()
        }
    }

    /// Well-formedness: identities are pairwise distinct (their sequence
    /// halves already differ), and each sits below the counter, so no future
    /// registration can repeat one.
    pub open spec fn wf(self) -> bool {
        &&& forall|i: int, j: int|
            0 <= i < j < self.entries@.len() ==> #[trigger] self.entries@[i].id.seq
                != #[trigger] self.entries@[j].id.seq
        &&& forall|i: int|
            0 <= i < self.entries@.len() ==> (#[trigger] self.entries@[i].id.seq) < self.next_seq
    }

    /// An empty registry for the given kind.
    pub fn new(kind: EventKind) -> (r: Registry)
        ensures
            r.wf(),
            r.kind == kind,
            r.entries@.len() == 0,
            r.next_seq == 0,
            r.delivered@ == Map::<SubscriberId, Seq<Event>>::empty(),
    {
        Registry { kind, entries: Vec::new(), next_seq: 0, delivered: Ghost(Map::empty()) }
    }

    /// How many subscribers are registered.
    pub fn len(&self) -> (r: usize)
        ensures
            r == self.entries@.len(),
    {
        self.entries.len()
    }

    /// Whether the identity is currently registered.
    pub fn contains(&self, id: SubscriberId) -> (r: bool)
        ensures
            r == self.contains_id(id),
    {
        let mut i: usize = 0;
        while i < self.entries.len()
            invariant
                i <= self.entries@.len(),
                forall|k: int| 0 <= k < i ==> self.entries@[k].id != id,
            decreases self.entries@.len() - i,
        {
            if self.entries[i].id == id {
                return true;
            }
            i += 1;
        }
        false
    }

    /// A copy of the current entries, each with a cloned sending handle;
    /// taken under the caller's critical section, so that the delivery pass
    /// itself ([`deliver_to_snapshot`]) can run with no lock held.
    pub fn snapshot(&self) -> (r: Vec<RegistryEntry>)
        ensures
            r@.len() == self.entries@.len(),
            forall|i: int| 0 <= i < r@.len() ==> (#[trigger] r@[i]).id == self.entries@[i].id,
    {
        let mut r: Vec<RegistryEntry> = Vec::new();
        let mut i: usize = 0;
        while i < self.entries.len()
            invariant
                i <= self.entries@.len(),
                r@.len() == i,
                forall|k: int| 0 <= k < i ==> (#[trigger] r@[k]).id == self.entries@[k].id,
            decreases self.entries@.len() - i,
        {
            r.push(RegistryEntry {
                id: self.entries[i].id,
                sender: clone_sender(&self.entries[i].sender),
            });
            i += 1;
        }
        r
    }

    /// Registers a fresh subscriber with an outbound queue of the given
    /// capacity. Always succeeds unless the identity counter is exhausted
    /// (resource exhaustion); the fresh identity was never present before
    /// and every prior entry is kept unchanged.
    pub fn register_with_capacity(&mut self, capacity: usize) -> (r: Option<
        (SubscriberId, tokio::sync::mpsc::Receiver<Event>),
    >)
        requires
            old(self).wf(),
            1 <= capacity <= 0x1fff_ffff,
        ensures
            final(self).wf(),
            final(self).kind == old(self).kind,
            final(self).delivered == old(self).delivered,
            r is None <==> old(self).next_seq == u64::MAX,
            r is None ==> *final(self) == *old(self),
            r matches Some(p) ==> {
                &&& p.0.seq == old(self).next_seq
                &&& !old(self).contains_id(p.0)
                &&& final(self).contains_id(p.0)
                &&& final(self).next_seq == old(self).next_seq + 1
                &&& final(self).entries@.len() == old(self).entries@.len() + 1
                &&& (forall|k: int|
                    0 <= k < old(self).entries@.len() ==> final(self).entries@[k]
                        == old(self).entries@[k])
                &&& final(self).entries@.last().id == p.0
            },
    {
        if self.next_seq == u64::MAX {
            return None;
        }
        let entropy = random_u64();
        let id = SubscriberId { entropy, seq: self.next_seq };
        let (sender, receiver) = new_event_channel(capacity);
        self.entries.push(RegistryEntry { id, sender });
        self.next_seq = self.next_seq + 1;
        proof {
            let pre = *old(self);
            let n = pre.entries@.len() as int;
            assert(self.entries@[n].id == id);
            assert(entries_contain(self.entries@, id));
            assert(!entries_contain(pre.entries@, id)) by {
                if entries_contain(pre.entries@, id) {
                    let w = choose|k: int|
                        0 <= k < pre.entries@.len() && (#[trigger] pre.entries@[k]).id == id;
                    assert(pre.entries@[w].id.seq < pre.next_seq);
                }
            }
            assert forall|a: int, b: int| 0 <= a < b < self.entries@.len() implies #[trigger] self
                .entries@[a].id.seq != #[trigger] self.entries@[b].id.seq by {
                if b == n {
                    assert(self.entries@[a] == pre.entries@[a]);
                    assert(pre.entries@[a].id.seq < pre.next_seq);
                } else {
                    assert(self.entries@[a] == pre.entries@[a]);
                    assert(self.entries@[b] == pre.entries@[b]);
                }
            }
            assert forall|k: int| 0 <= k < self.entries@.len() implies (#[trigger] self
                .entries@[k].id.seq) < self.next_seq by {
                if k < n {
                    assert(self.entries@[k] == pre.entries@[k]);
                }
            }
        }
        Some((id, receiver))
    }

    /// Registers a fresh subscriber with the default outbound capacity.
    pub fn register(&mut self) -> (r: Option<
        (SubscriberId, tokio::sync::mpsc::Receiver<Event>),
    >)
        requires
            old(self).wf(),
        ensures
            final(self).wf(),
            final(self).kind == old(self).kind,
            final(self).delivered == old(self).delivered,
            r is None <==> old(self).next_seq == u64::MAX,
            r is None ==> *final(self) == *old(self),
            r matches Some(p) ==> {
                &&& p.0.seq == old(self).next_seq
                &&& !old(self).contains_id(p.0)
                &&& final(self).contains_id(p.0)
                &&& final(self).next_seq == old(self).next_seq + 1
                &&& final(self).entries@.len() == old(self).entries@.len() + 1
                &&& (forall|k: int|
                    0 <= k < old(self).entries@.len() ==> final(self).entries@[k]
                        == old(self).entries@[k])
                &&& final(self).entries@.last().id == p.0
            },
    {
        self.register_with_capacity(OUTBOUND_QUEUE_CAPACITY)
    }

    /// Books the outcome of one delivery pass back into the registry, under
    /// its critical section: each attempted subscriber's delivery history
    /// grows by exactly one copy of the event when its queue accepted it and
    /// not at all otherwise, every unattempted history is untouched, and
    /// every subscriber whose queue reported closed is evicted while all
    /// others are kept.
    pub fn apply_pass(&mut self, ev: &Event, attempts: &Vec<(SubscriberId, SendOutcome)>)
        requires
            old(self).wf(),
        ensures
            final(self).wf(),
            final(self).kind == old(self).kind,
            final(self).next_seq == old(self).next_seq,
            attempt_ids_distinct(attempts@) ==> forall|i: int|
                0 <= i < attempts@.len() ==> #[trigger] final(self).history(attempts@[i].0) == (
                if attempts@[i].1 is Delivered {
                    old(self).history(attempts@[i].0).push(*ev)
                } else {
                    old(self).history(attempts@[i].0)
                }),
            forall|sid: SubscriberId|
                !attempts_contain(attempts@, sid) ==> #[trigger] final(self).history(sid) == old(
                    self,
                ).history(sid),
            forall|sid: SubscriberId|
                closed_ids(attempts@).contains(sid) ==> !(#[trigger] final(self).contains_id(
                    sid,
                )),
            forall|sid: SubscriberId|
                !closed_ids(attempts@).contains(sid) ==> ((#[trigger] final(self).contains_id(
                    sid,
                )) <==> old(self).contains_id(sid)),
    {
        let mut i: usize = 0;
        while i < attempts.len()
            invariant
                i <= attempts@.len(),
                self.wf(),
                self.entries@ == old(self).entries@,
                self.kind == old(self).kind,
                self.next_seq == old(self).next_seq,
                attempt_ids_distinct(attempts@) ==> (forall|k: int|
                    0 <= k < i ==> #[trigger] self.history(attempts@[k].0) == (
                    if attempts@[k].1 is Delivered {
                        old(self).history(attempts@[k].0).push(*ev)
                    } else {
                        old(self).history(attempts@[k].0)
                    })),
                attempt_ids_distinct(attempts@) ==> (forall|k: int|
                    i <= k < attempts@.len() ==> #[trigger] self.history(attempts@[k].0) == old(
                        self,
                    ).history(attempts@[k].0)),
                forall|sid: SubscriberId|
                    !attempts_contain(attempts@, sid) ==> #[trigger] self.history(sid) == old(
                        self,
                    ).history(sid),
            decreases attempts@.len() - i,
        {
            let ghost mid = *self;
            let ghost id = attempts@[i as int].0;
            if matches!(attempts[i].1, SendOutcome::Delivered) {
                self.delivered = Ghost(self.delivered@.insert(id, self.history(id).push(*ev)));
            }
            proof {
                if attempt_ids_distinct(attempts@) {
                    assert forall|k: int|
                        0 <= k < i + 1 implies #[trigger] self.history(attempts@[k].0) == (
                    if attempts@[k].1 is Delivered {
                        old(self).history(attempts@[k].0).push(*ev)
                    } else {
                        old(self).history(attempts@[k].0)
                    }) by {
                        let kid = attempts@[k].0;
                        if k < i {
                            assert(kid != id);
                            assert(self.history(kid) == mid.history(kid));
                        } else {
                            assert(mid.history(kid) == old(self).history(kid));
                        }
                    }
                    assert forall|k: int|
                        i + 1 <= k < attempts@.len() implies #[trigger] self.history(
                        attempts@[k].0,
                    ) == old(self).history(attempts@[k].0) by {
                        let kid = attempts@[k].0;
                        assert(kid != id);
                        assert(self.history(kid) == mid.history(kid));
                    }
                }
                assert forall|sid: SubscriberId|
                    !attempts_contain(attempts@, sid) implies #[trigger] self.history(sid) == old(
                    self,
                ).history(sid) by {
                    assert(sid != id) by {
                        if sid == id {
                            assert(attempts@[i as int].0 == sid);
                        }
                    }
                    assert(self.history(sid) == mid.history(sid));
                }
            }
            i += 1;
        }
        let ghost recorded = *self;
        let failed = failed_sends(attempts);
        self.evict_all(&failed);
        proof {
            assert forall|sid: SubscriberId| #[trigger] self.history(sid) == recorded.history(
                sid,
            ) by {
                assert(self.delivered@ == recorded.delivered@);
            }
        }
    }

    /// Removes the entry carrying the identity, if present; idempotent, a
    /// no-op when the identity is absent, and every other subscriber is kept.
    pub fn evict(&mut self, id: SubscriberId)
        requires
            old(self).wf(),
        ensures
            final(self).wf(),
            final(self).kind == old(self).kind,
            final(self).next_seq == old(self).next_seq,
            final(self).delivered == old(self).delivered,
            !final(self).contains_id(id),
            forall|other: SubscriberId|
                other != id ==> (final(self).contains_id(other) <==> old(self).contains_id(
                    other,
                )),
            old(self).contains_id(id) ==> final(self).entries@.len() == old(
                self,
            ).entries@.len() - 1,
            !old(self).contains_id(id) ==> *final(self) == *old(self),
    {
        let mut i: usize = 0;
        while i < self.entries.len()
            invariant
                i <= self.entries@.len(),
                *self == *old(self),
                old(self).wf(),
                forall|k: int| 0 <= k < i ==> self.entries@[k].id != id,
            decreases self.entries@.len() - i,
        {
            if self.entries[i].id == id {
                let ghost pre = self.entries@;
                self.entries.remove(i);
                proof {
                    Self::lemma_remove_found(pre, self.entries@, i as int, id);
                    assert forall|k: int| 0 <= k < self.entries@.len() implies (#[trigger] self
                        .entries@[k].id.seq) < self.next_seq by {
                        assert(self.entries@[k] == pre[k] || self.entries@[k] == pre[k + 1]);
                    }
                }
                return ;
            }
            i += 1;
        }
        proof {
            if entries_contain(self.entries@, id) {
                let w = choose|k: int|
                    0 <= k < self.entries@.len() && (#[trigger] self.entries@[k]).id == id;
                assert(self.entries@[w].id != id);
            }
        }
    }

    /// After removing the single entry that carried `id` from a sequence of
    /// entries with pairwise-distinct identities, `id` is gone and every
    /// other identity is present exactly as before.
    proof fn lemma_remove_found(pre: Seq<RegistryEntry>, post: Seq<RegistryEntry>, at: int, id: SubscriberId)
        requires
            0 <= at < pre.len(),
            pre[at].id == id,
            post == pre.remove(at),
            forall|i: int, j: int|
                0 <= i < j < pre.len() ==> #[trigger] pre[i].id.seq != #[trigger] pre[j].id.seq,
        ensures
            !entries_contain(post, id),
            forall|other: SubscriberId|
                other != id ==> (#[trigger] entries_contain(post, other) <==> entries_contain(
                    pre,
                    other,
                )),
            forall|i: int, j: int|
                0 <= i < j < post.len() ==> #[trigger] post[i].id.seq != #[trigger] post[j].id.seq,
            forall|k: int|
                0 <= k < post.len() ==> (#[trigger] post[k]) == pre[k] || post[k] == pre[k + 1],
    {
        assert forall|k: int| 0 <= k < post.len() implies (#[trigger] post[k]) == pre[k]
            || post[k] == pre[k + 1] by {
            if k < at {
                assert(post[k] == pre[k]);
            } else {
                assert(post[k] == pre[k + 1]);
            }
        }
        assert forall|i: int| 0 <= i < post.len() implies post[i].id != id by {
            if i < at {
                assert(post[i] == pre[i]);
                assert(pre[i].id.seq != pre[at].id.seq);
            } else {
                assert(post[i] == pre[i + 1]);
                assert(pre[at].id.seq != pre[i + 1].id.seq);
            }
        }
        assert forall|other: SubscriberId|
            other != id && entries_contain(pre, other) implies entries_contain(post, other) by {
            let w = choose|i: int| 0 <= i < pre.len() && pre[i].id == other;
            if w < at {
                assert(post[w] == pre[w]);
            } else {
                assert(w != at);
                assert(post[w - 1] == pre[w]);
            }
        }
        assert forall|other: SubscriberId|
            other != id && entries_contain(post, other) implies entries_contain(pre, other) by {
            let w = choose|i: int| 0 <= i < post.len() && post[i].id == other;
            if w < at {
                assert(post[w] == pre[w]);
            } else {
                assert(post[w] == pre[w + 1]);
            }
        }
        assert forall|i: int, j: int| 0 <= i < j < post.len() implies #[trigger] post[i].id.seq
            != #[trigger] post[j].id.seq by {
            let pi: int = if i < at { i } else { i + 1 };
            let pj: int = if j < at { j } else { j + 1 };
            assert(post[i] == pre[pi]);
            assert(post[j] == pre[pj]);
        }
    }

    /// Evicts every identity in the list: all of them are gone afterwards,
    /// and every identity not listed is present exactly as before.
    pub fn evict_all(&mut self, ids: &Vec<SubscriberId>)
        requires
            old(self).wf(),
        ensures
            final(self).wf(),
            final(self).kind == old(self).kind,
            final(self).next_seq == old(self).next_seq,
            final(self).delivered == old(self).delivered,
            forall|sid: SubscriberId|
                ids@.contains(sid) ==> !(#[trigger] final(self).contains_id(sid)),
            forall|sid: SubscriberId|
                !ids@.contains(sid) ==> ((#[trigger] final(self).contains_id(sid))
                    <==> old(self).contains_id(sid)),
    {
        let mut i: usize = 0;
        while i < ids.len()
            invariant
                i <= ids@.len(),
                self.wf(),
                self.kind == old(self).kind,
                self.next_seq == old(self).next_seq,
                self.delivered == old(self).delivered,
                forall|sid: SubscriberId|
                    ids@.take(i as int).contains(sid) ==> !(#[trigger] self.contains_id(sid)),
                forall|sid: SubscriberId|
                    !ids@.take(i as int).contains(sid) ==> ((#[trigger] self.contains_id(sid))
                        <==> old(self).contains_id(sid)),
            decreases ids@.len() - i,
        {
            let ghost mid = *self;
            let target = ids[i];
            self.evict(target);
            proof {
                assert(ids@.take(i + 1).drop_last() =~= ids@.take(i as int));
                assert(ids@.take(i + 1).last() == target);
                assert forall|sid: SubscriberId|
                    ids@.take(i + 1).contains(sid) implies !(#[trigger] self.contains_id(
                    sid,
                )) by {
                    let w = choose|k: int|
                        0 <= k < i + 1 && (#[trigger] ids@.take(i + 1)[k]) == sid;
                    if w < i {
                        assert(ids@.take(i as int).contains(sid)) by {
                            assert(ids@.take(i as int)[w] == sid);
                        }
                        if sid != target {
                            assert(!mid.contains_id(sid));
                        }
                    } else {
                        assert(sid == target);
                    }
                }
                assert forall|sid: SubscriberId|
                    !ids@.take(i + 1).contains(sid) implies ((#[trigger] self.contains_id(sid))
                    <==> old(self).contains_id(sid)) by {
                    assert(forall|k: int|
                        0 <= k < i ==> ids@.take(i + 1)[k] == #[trigger] ids@.take(i as int)[k]);
                    assert(!ids@.take(i as int).contains(sid)) by {
                        if ids@.take(i as int).contains(sid) {
                            let w = choose|k: int|
                                0 <= k < i && ids@.take(i as int)[k] == sid;
                            assert(ids@.take(i + 1)[w] == sid);
                        }
                    }
                    assert(sid != target) by {
                        if sid == target {
                            assert(ids@.take(i + 1)[i as int] == target);
                        }
                    }
                }
            }
            i += 1;
        }
        proof {
            assert(ids@.take(ids@.len() as int) =~= ids@);
        }
    }
}

} // verus!
