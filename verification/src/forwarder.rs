//! The forwarding worker's logic: one state machine that consumes the two
//! ingress streams, fans each event out to the registry of its kind, and
//! evicts the subscribers whose outbound queues reported closed.
//!
//! The waiting itself — a multiplexed wait on the two ingress queues — is
//! the caller's: it hands each arrival (or a closure notice, when a queue
//! has no producers left) to the methods here and stops once
//! [`Forwarder::should_shutdown`] says both sources are permanently closed.

use vstd::prelude::*;

use crate::channel::SendOutcome;
use crate::event::{Bundle, Event, EventKind, PacketBatch};
use crate::ids::{CorrelationId, SubscriberId};
use crate::registry::{
    attempt_ids_distinct, attempts_contain, closed_ids, deliver_to_snapshot, entries_contain,
    Registry,
};

verus! {

/// What one complete fan-out pass leaves behind: one delivery attempt per
/// subscriber that was registered when the pass began, in entry order; each
/// such subscriber's delivery history grown by exactly one copy of the event
/// when its queue accepted it and unchanged otherwise; every subscriber
/// whose queue reported closed evicted; every other subscriber kept; and
/// the identity counter untouched.
pub open spec fn dispatch_pass_post(
    pre: Registry,
    post: Registry,
    ev: Event,
    attempts: Seq<(SubscriberId, SendOutcome)>,
) -> bool {
    &&& attempts.len() == pre.entries@.len()
    &&& (forall|i: int| 0 <= i < attempts.len() ==> (#[trigger] attempts[i]).0 == pre.entries@[i].id)
    &&& (forall|i: int|
        0 <= i < attempts.len() ==> #[trigger] post.history(pre.entries@[i].id) == (
        if attempts[i].1 is Delivered {
            pre.history(pre.entries@[i].id).push(ev)
        } else {
            pre.history(pre.entries@[i].id)
        }))
    &&& (forall|sid: SubscriberId|
        !entries_contain(pre.entries@, sid) ==> #[trigger] post.history(sid) == pre.history(sid))
    &&& (forall|sid: SubscriberId|
        closed_ids(attempts).contains(sid) ==> !(#[trigger] post.contains_id(sid)))
    &&& (forall|sid: SubscriberId|
        !closed_ids(attempts).contains(sid) ==> ((#[trigger] post.contains_id(sid))
            <==> pre.contains_id(sid)))
    &&& post.next_seq == pre.next_seq
    &&& post.kind == pre.kind
    &&& post.wf()
}

/// A pass delivered against a well-formed registry's snapshot names each
/// registered identity exactly once and no other: its attempt list is
/// duplicate-free, and an identity outside the registry is outside the
/// attempts.
proof fn lemma_pass_over_snapshot(pre: Registry, attempts: Seq<(SubscriberId, SendOutcome)>)
    requires
        pre.wf(),
        attempts.len() == pre.entries@.len(),
        forall|i: int| 0 <= i < attempts.len() ==> (#[trigger] attempts[i]).0 == pre.entries@[i].id,
    ensures
        attempt_ids_distinct(attempts),
        forall|sid: SubscriberId|
            !entries_contain(pre.entries@, sid) ==> !attempts_contain(attempts, sid),
{
    assert forall|i: int, j: int| 0 <= i < j < attempts.len() implies (#[trigger] attempts[i]).0
        != (#[trigger] attempts[j]).0 by {
        assert(pre.entries@[i].id.seq != pre.entries@[j].id.seq);
    }
    assert forall|sid: SubscriberId|
        !entries_contain(pre.entries@, sid) implies !attempts_contain(attempts, sid) by {
        if attempts_contain(attempts, sid) {
            let w = choose|i: int|
                0 <= i < attempts.len() && (#[trigger] attempts[i]).0 == sid;
            assert(pre.entries@[w].id == sid);
        }
    }
}

/// The forwarding worker's state: the two registries it is the sole evictor
/// of, and one flag per ingress queue that latches once that queue reports
/// no remaining producers.
///
/// `forward_packets` and `forward_bundle` compose one pass for an owner
/// that holds the registries alone. A caller that shares them across
/// threads takes the same pass in three steps — [`Registry::snapshot`]
/// under its critical section, [`deliver_to_snapshot`] with it released,
/// [`Registry::apply_pass`] under it again — so that no delivery attempt
/// ever runs under the lock.
pub struct Forwarder {
    pub packet_subscriptions: Registry,
    pub bundle_subscriptions: Registry,
    pub packets_closed: bool,
    pub bundles_closed: bool,
}

impl Forwarder {
    pub open spec fn wf(self) -> bool {
        &&& self.packet_subscriptions.wf()
        &&& self.bundle_subscriptions.wf()
        &&& self.packet_subscriptions.kind == EventKind::Packet
        &&& self.bundle_subscriptions.kind == EventKind::Bundle
    }

    /// A fresh worker: both registries empty, both sources open.
    pub fn new() -> (r: Forwarder)
        ensures
            r.wf(),
            r.packet_subscriptions.entries@.len() == 0,
            r.bundle_subscriptions.entries@.len() == 0,
            r.packet_subscriptions.next_seq == 0,
            r.bundle_subscriptions.next_seq == 0,
            !r.packets_closed,
            !r.bundles_closed,
    {
        Forwarder {
            packet_subscriptions: Registry::new(EventKind::Packet),
            bundle_subscriptions: Registry::new(EventKind::Bundle),
            packets_closed: false,
            bundles_closed: false,
        }
    }

    /// One full pass for a packet batch: fan out to the packet subscribers,
    /// then evict those whose queues reported closed. Bundle subscribers and
    /// both closure flags are untouched, whatever the outcome of any
    /// delivery attempt — a slow or dead packet subscriber never affects the
    /// bundle side, and the other way round.
    pub fn forward_packets(&mut self, batch: PacketBatch) -> (attempts: Vec<
        (SubscriberId, SendOutcome),
    >)
        requires
            old(self).wf(),
        ensures
            final(self).wf(),
            dispatch_pass_post(
                old(self).packet_subscriptions,
                final(self).packet_subscriptions,
                (Event::PacketBatchEvent { batch }),
                attempts@,
            ),
            final(self).bundle_subscriptions == old(self).bundle_subscriptions,
            final(self).packets_closed == old(self).packets_closed,
            final(self).bundles_closed == old(self).bundles_closed,
    {
        let ev = Event::PacketBatchEvent { batch };
        let ghost pre = old(self).packet_subscriptions;
        let snapshot = self.packet_subscriptions.snapshot();
        let attempts = deliver_to_snapshot(&snapshot, &ev);
        proof {
            lemma_pass_over_snapshot(pre, attempts@);
        }
        self.packet_subscriptions.apply_pass(&ev, &attempts);
        attempts
    }

    /// One full pass for a bundle, identical in shape to the packet pass,
    /// against the bundle subscribers only.
    pub fn forward_bundle(&mut self, bundle: Bundle, correlation_id: CorrelationId) -> (attempts:
        Vec<(SubscriberId, SendOutcome)>)
        requires
            old(self).wf(),
        ensures
            final(self).wf(),
            dispatch_pass_post(
                old(self).bundle_subscriptions,
                final(self).bundle_subscriptions,
                (Event::BundleEvent { bundle, correlation_id }),
                attempts@,
            ),
            final(self).packet_subscriptions == old(self).packet_subscriptions,
            final(self).packets_closed == old(self).packets_closed,
            final(self).bundles_closed == old(self).bundles_closed,
    {
        let ev = Event::BundleEvent { bundle, correlation_id };
        let ghost pre = old(self).bundle_subscriptions;
        let snapshot = self.bundle_subscriptions.snapshot();
        let attempts = deliver_to_snapshot(&snapshot, &ev);
        proof {
            lemma_pass_over_snapshot(pre, attempts@);
        }
        self.bundle_subscriptions.apply_pass(&ev, &attempts);
        attempts
    }

    /// One full pass for whichever event arrived: only the registry of the
    /// event's kind is touched.
    pub fn handle_event(&mut self, ev: Event) -> (attempts: Vec<(SubscriberId, SendOutcome)>)
        requires
            old(self).wf(),
        ensures
            final(self).wf(),
            ev.kind() == EventKind::Packet ==> dispatch_pass_post(
                old(self).packet_subscriptions,
                final(self).packet_subscriptions,
                ev,
                attempts@,
            ) && final(self).bundle_subscriptions == old(self).bundle_subscriptions,
            ev.kind() == EventKind::Bundle ==> dispatch_pass_post(
                old(self).bundle_subscriptions,
                final(self).bundle_subscriptions,
                ev,
                attempts@,
            ) && final(self).packet_subscriptions == old(self).packet_subscriptions,
            final(self).packets_closed == old(self).packets_closed,
            final(self).bundles_closed == old(self).bundles_closed,
    {
        match ev {
            Event::PacketBatchEvent { batch } => self.forward_packets(batch),
            Event::BundleEvent { bundle, correlation_id } => self.forward_bundle(
                bundle,
                correlation_id,
            ),
        }
    }

    /// The packet ingress queue reported that its last producer is gone — a
    /// terminal state; the flag only latches, nothing else moves.
    pub fn on_packet_source_closed(&mut self)
        ensures
            final(self).packets_closed,
            final(self).bundles_closed == old(self).bundles_closed,
            final(self).packet_subscriptions == old(self).packet_subscriptions,
            final(self).bundle_subscriptions == old(self).bundle_subscriptions,
    {
        self.packets_closed = true;
    }

    /// The bundle ingress queue reported that its last producer is gone.
    pub fn on_bundle_source_closed(&mut self)
        ensures
            final(self).bundles_closed,
            final(self).packets_closed == old(self).packets_closed,
            final(self).packet_subscriptions == old(self).packet_subscriptions,
            final(self).bundle_subscriptions == old(self).bundle_subscriptions,
    {
        self.bundles_closed = true;
    }

    /// The loop ends exactly when both ingress queues are permanently
    /// closed: a fatal, non-retryable shutdown signal for the process
    /// supervisor, never raised while either source can still produce.
    pub fn should_shutdown(&self) -> (r: bool)
        ensures
            r == (self.packets_closed && self.bundles_closed),
    {
        self.packets_closed && self.bundles_closed
    }
}

/// Law: a fan-out pass attempts delivery to every subscriber registered
/// when it began — each exactly once. Distinct attempt indices name
/// distinct subscribers, and every registered subscriber appears.
pub proof fn lemma_one_attempt_per_subscriber(
    pre: Registry,
    post: Registry,
    ev: Event,
    attempts: Seq<(SubscriberId, SendOutcome)>,
)
    requires
        pre.wf(),
        dispatch_pass_post(pre, post, ev, attempts),
    ensures
        forall|sid: SubscriberId|
            #[trigger] pre.contains_id(sid) ==> exists|i: int|
                0 <= i < attempts.len() && (#[trigger] attempts[i]).0 == sid,
        forall|i: int, j: int|
            0 <= i < attempts.len() && 0 <= j < attempts.len() && (#[trigger] attempts[i]).0 == (
            #[trigger] attempts[j]).0 ==> i == j,
{
    assert forall|sid: SubscriberId| #[trigger] pre.contains_id(sid) implies exists|i: int|
        0 <= i < attempts.len() && (#[trigger] attempts[i]).0 == sid by {
        let w = choose|i: int|
            0 <= i < pre.entries@.len() && (#[trigger] pre.entries@[i]).id == sid;
        assert(attempts[w].0 == sid);
    }
    assert forall|i: int, j: int|
        0 <= i < attempts.len() && 0 <= j < attempts.len() && (#[trigger] attempts[i]).0 == (
        #[trigger] attempts[j]).0 implies i == j by {
        if i < j {
            assert(attempts[i].0 == pre.entries@[i].id);
            assert(attempts[j].0 == pre.entries@[j].id);
            assert(pre.entries@[i].id.seq != pre.entries@[j].id.seq);
        } else if j < i {
            assert(attempts[i].0 == pre.entries@[i].id);
            assert(attempts[j].0 == pre.entries@[j].id);
            assert(pre.entries@[j].id.seq != pre.entries@[i].id.seq);
        }
    }
}

/// Law: a subscriber whose queue reported closed during a pass is out of
/// the registry when the pass ends, and every subscriber that reported
/// nothing of the kind is still registered.
pub proof fn lemma_closed_subscriber_evicted(
    pre: Registry,
    post: Registry,
    ev: Event,
    attempts: Seq<(SubscriberId, SendOutcome)>,
    sid: SubscriberId,
)
    requires
        dispatch_pass_post(pre, post, ev, attempts),
    ensures
        closed_ids(attempts).contains(sid) ==> !post.contains_id(sid),
        !closed_ids(attempts).contains(sid) && pre.contains_id(sid) ==> post.contains_id(sid),
{
}

/// Law: a subscriber registered when a pass of its kind begins is handed
/// exactly one copy of that pass's event — its outbound queue grows by one
/// copy when the queue accepted the attempt, and by nothing at all when the
/// queue was full (or closed) at delivery time.
pub proof fn lemma_exactly_one_copy_per_pass(
    pre: Registry,
    post: Registry,
    ev: Event,
    attempts: Seq<(SubscriberId, SendOutcome)>,
    at: int,
)
    requires
        pre.wf(),
        dispatch_pass_post(pre, post, ev, attempts),
        0 <= at < pre.entries@.len(),
    ensures
        attempts[at].1 is Delivered ==> post.history(pre.entries@[at].id) == pre.history(
            pre.entries@[at].id,
        ).push(ev),
        !(attempts[at].1 is Delivered) ==> post.history(pre.entries@[at].id) == pre.history(
            pre.entries@[at].id,
        ),
{
}

/// Law: delivery is first-in, first-out within one kind — when three events
/// pass through the registry of their kind in order, a subscriber that was
/// registered before the first and whose queue accepted all three holds
/// them in exactly that order, after everything it already held.
pub proof fn lemma_fifo_per_kind(
    r0: Registry,
    r1: Registry,
    r2: Registry,
    r3: Registry,
    e1: Event,
    e2: Event,
    e3: Event,
    a1: Seq<(SubscriberId, SendOutcome)>,
    a2: Seq<(SubscriberId, SendOutcome)>,
    a3: Seq<(SubscriberId, SendOutcome)>,
    sid: SubscriberId,
    i1: int,
    i2: int,
    i3: int,
)
    requires
        r0.wf(),
        dispatch_pass_post(r0, r1, e1, a1),
        dispatch_pass_post(r1, r2, e2, a2),
        dispatch_pass_post(r2, r3, e3, a3),
        0 <= i1 < r0.entries@.len() && r0.entries@[i1].id == sid && a1[i1].1 is Delivered,
        0 <= i2 < r1.entries@.len() && r1.entries@[i2].id == sid && a2[i2].1 is Delivered,
        0 <= i3 < r2.entries@.len() && r2.entries@[i3].id == sid && a3[i3].1 is Delivered,
    ensures
        r3.history(sid) == r0.history(sid).push(e1).push(e2).push(e3),
        r3.history(sid).len() == r0.history(sid).len() + 3,
        r3.history(sid)[r3.history(sid).len() - 3] == e1,
        r3.history(sid)[r3.history(sid).len() - 2] == e2,
        r3.history(sid)[r3.history(sid).len() - 1] == e3,
{
    assert(r1.history(sid) == r0.history(sid).push(e1));
    assert(r2.history(sid) == r1.history(sid).push(e2));
    assert(r3.history(sid) == r2.history(sid).push(e3));
}

/// Law: an identity present in a well-formed registry is never the identity
/// handed out by any later registration — every present identity sits below
/// the counter, registration hands out the counter's value and advances it,
/// and eviction never moves the counter. So an evicted subscriber can never
/// reappear under its old identity.
pub proof fn lemma_no_id_reuse(reg: Registry, present: SubscriberId, later: SubscriberId)
    requires
        reg.wf(),
        reg.contains_id(present),
        later.seq >= reg.next_seq,
    ensures
        later != present,
{
    let w = choose|i: int|
        0 <= i < reg.entries@.len() && (#[trigger] reg.entries@[i]).id == present;
    assert(reg.entries@[w].id.seq < reg.next_seq);
}

} // verus!
