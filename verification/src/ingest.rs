//! The producer-side fronts of the two ingress queues.
//!
//! The bundle ingest front validates an inbound bundle submission, tags it
//! with a fresh correlation id, and places it on the bundle ingress queue
//! without ever blocking the caller; the packet front injects packet
//! batches as they are. Each front carries a ghost record of every event it
//! has placed on its queue, in queue order — the model of the queue's
//! contents, which the queue itself (an opaque channel) cannot show.
//!
//! Submission is fire-and-forget: a returned correlation id means the event
//! entered the ingress queue, not that any subscriber has received it.

use vstd::prelude::*;

use crate::channel::{try_send_event, SendOutcome};
use crate::event::{Bundle, Event, PacketBatch};
use crate::ids::{random_u64, CorrelationId};

verus! {

/// The producer-side injection point for packet batches; not exposed to
/// untrusted callers, so it neither validates nor tags.
pub struct PacketIngest {
    pub packet_sender: tokio::sync::mpsc::Sender<Event>,
    /// Every event this front has placed on the packet ingress queue, in
    /// queue order: the model of what entered the queue, which the queue
    /// itself (an opaque channel) cannot show.
    pub pushed: Ghost<Seq<Event>>,
}

impl PacketIngest {
    /// A fresh front over the given ingress queue; nothing pushed yet.
    pub fn new(packet_sender: tokio::sync::mpsc::Sender<Event>) -> (r: PacketIngest)
        ensures
            r.pushed@.len() == 0,
            r.packet_sender == packet_sender,
    {
        PacketIngest { packet_sender, pushed: Ghost(Seq::empty()) }
    }

    /// One non-blocking attempt to place the batch on the packet ingress
    /// queue: when the queue takes it, exactly the batch's event — and
    /// nothing else — is appended to what this front has pushed; when it
    /// does not (it is full, or its consumer is gone), the batch is dropped
    /// and the front is unchanged.
    pub fn push_packet_batch(&mut self, batch: PacketBatch) -> (accepted: bool)
        ensures
            accepted ==> final(self).pushed@ == old(self).pushed@.push(
                (Event::PacketBatchEvent { batch }),
            ),
            !accepted ==> *final(self) == *old(self),
            final(self).packet_sender == old(self).packet_sender,
    {
        let ev = Event::PacketBatchEvent { batch };
        let ghost pushed_event = ev;
        match try_send_event(&self.packet_sender, ev) {
            SendOutcome::Delivered => {
                self.pushed = Ghost(self.pushed@.push(pushed_event));
                true
            },
            SendOutcome::Full | SendOutcome::Closed => false,
        }
    }
}

/// The only two conditions a producer ever sees.
#[derive(Clone, Copy, Debug, PartialEq, Eq, Structural)]
pub enum SubmitError {
    /// The submission carried no bundle; surfaced synchronously, no retry.
    InvalidInput,
    /// The ingress queue could not take the event now (it is full, or its
    /// consumer is gone for good), or the id counter is exhausted; the
    /// caller may retry with its own backoff.
    ResourceExhausted,
}

/// A submission is structurally valid exactly when a bundle is present.
pub open spec fn valid_submission(bundle: Option<Bundle>) -> bool {
    bundle is Some
}

/// The ingest front: the sending half of the bundle ingress queue and the
/// counter that makes every issued correlation id distinct.
pub struct BundleIngest {
    pub bundle_sender: tokio::sync::mpsc::Sender<Event>,
    pub next_seq: u64,
    /// Every correlation id issued so far, in issue order.
    pub issued: Ghost<Seq<CorrelationId>>,
    /// Every event this front has placed on the bundle ingress queue, in
    /// queue order: the model of what entered the queue, which the queue
    /// itself (an opaque channel) cannot show.
    pub enqueued: Ghost<Seq<Event>>,
}

impl BundleIngest {
    /// The ids issued so far carry strictly increasing sequence halves, all
    /// below the counter — so no id is ever issued twice.
    pub open spec fn wf(self) -> bool {
        &&& forall|i: int, j: int|
            0 <= i < j < self.issued@.len() ==> (#[trigger] self.issued@[i]).seq < (
            #[trigger] self.issued@[j]).seq
        &&& forall|i: int|
            0 <= i < self.issued@.len() ==> (#[trigger] self.issued@[i]).seq < self.next_seq
    }

    /// A fresh front over the given ingress queue; nothing issued yet.
    pub fn new(bundle_sender: tokio::sync::mpsc::Sender<Event>) -> (r: BundleIngest)
        ensures
            r.wf(),
            r.next_seq == 0,
            r.issued@.len() == 0,
            r.enqueued@.len() == 0,
            r.bundle_sender == bundle_sender,
    {
        BundleIngest {
            bundle_sender,
            next_seq: 0,
            issued: Ghost(Seq::empty()),
            enqueued: Ghost(Seq::empty()),
        }
    }

    /// Validates the submission, tags it, and tries to enqueue it without
    /// blocking. A missing bundle is rejected as invalid input, and nothing
    /// else is: every present bundle either enters the queue — yielding a
    /// fresh, never-before-issued correlation id — or is refused as
    /// resource exhaustion when the queue cannot take it now (or the id
    /// counter has run out). On failure nothing is issued and the front is
    /// unchanged.
    pub fn submit_bundle(&mut self, bundle: Option<Bundle>) -> (r: Result<
        CorrelationId,
        SubmitError,
    >)
        requires
            old(self).wf(),
        ensures
            final(self).wf(),
            final(self).bundle_sender == old(self).bundle_sender,
            r == Err::<CorrelationId, SubmitError>(SubmitError::InvalidInput)
                <==> !valid_submission(bundle),
            r matches Ok(id) ==> {
                &&& id.seq == old(self).next_seq
                &&& final(self).next_seq == old(self).next_seq + 1
                &&& final(self).issued@ == old(self).issued@.push(id)
                &&& !old(self).issued@.contains(id)
                &&& final(self).enqueued@ == old(self).enqueued@.push(
                    (Event::BundleEvent { bundle: bundle->Some_0, correlation_id: id }),
                )
            },
            r is Err ==> *final(self) == *old(self),
    {
        let b = match bundle {
            None => { return Err(SubmitError::InvalidInput) },
            Some(b) => b,
        };
        if self.next_seq == u64::MAX {
            return Err(SubmitError::ResourceExhausted);
        }
        let id = CorrelationId { entropy: random_u64(), seq: self.next_seq };
        let ev = Event::BundleEvent { bundle: b, correlation_id: id };
        let ghost enqueued_event = ev;
        match try_send_event(&self.bundle_sender, ev) {
            SendOutcome::Delivered => {
                proof {
                    if self.issued@.contains(id) {
                        let w = choose|k: int|
                            0 <= k < self.issued@.len() && (#[trigger] self.issued@[k]) == id;
                        assert(self.issued@[w].seq < self.next_seq);
                    }
                }
                self.next_seq = self.next_seq + 1;
                self.issued = Ghost(self.issued@.push(id));
                self.enqueued = Ghost(self.enqueued@.push(enqueued_event));
                Ok(id)
            },
            SendOutcome::Full | SendOutcome::Closed => Err(SubmitError::ResourceExhausted),
        }
    }
}

/// Law: correlation ids are pairwise distinct — any run of submissions
/// yields no id twice, because each successful submission issues the
/// counter's current value and advances it.
pub proof fn lemma_correlation_ids_pairwise_distinct(front: BundleIngest)
    requires
        front.wf(),
    ensures
        forall|i: int, j: int|
            0 <= i < front.issued@.len() && 0 <= j < front.issued@.len() && i != j ==> (
            #[trigger] front.issued@[i]) != (#[trigger] front.issued@[j]),
{
    assert forall|i: int, j: int|
        0 <= i < front.issued@.len() && 0 <= j < front.issued@.len() && i != j implies (
    #[trigger] front.issued@[i]) != (#[trigger] front.issued@[j]) by {
        if i < j {
            assert(front.issued@[i].seq < front.issued@[j].seq);
        } else {
            assert(front.issued@[j].seq < front.issued@[i].seq);
        }
    }
}

} // verus!
