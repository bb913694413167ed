//! The bounded queues that connect the relay's components: producers to the
//! forwarding worker, and the forwarding worker to each subscriber.
//!
//! The queues themselves come from tokio's bounded mpsc channel. A channel's
//! contents are shared with its other endpoint and so are opaque here; the
//! contracts state only what holds of every outcome of a call.

use vstd::prelude::*;

use crate::event::Event;

verus! {

/// The sending half of tokio's bounded mpsc channel, declared opaque: a
/// value of it only names a queue, and is carried through, never inspected.
#[verifier::external_type_specification]
#[verifier::external_body]
#[verifier::reject_recursive_types(T)]
pub struct ExSender<T>(tokio::sync::mpsc::Sender<T>);

/// The receiving half of tokio's bounded mpsc channel, declared opaque; the
/// relay only hands it out, to the subscriber it belongs to.
#[verifier::external_type_specification]
#[verifier::external_body]
#[verifier::reject_recursive_types(T)]
pub struct ExReceiver<T>(tokio::sync::mpsc::Receiver<T>);

/// Outcome of one non-blocking delivery attempt.
#[derive(Clone, Copy, Debug, PartialEq, Eq, Structural)]
pub enum SendOutcome {
    /// The event was placed in the queue.
    Delivered,
    /// The queue was at capacity; the event is dropped for this receiver
    /// only, which stays registered.
    Full,
    /// The receiving end is gone; the sender is due for eviction.
    Closed,
}

/// Relies on `tokio::sync::mpsc::channel`. It panics when the buffer is 0 or
/// above `usize::MAX >> 3`; the capacity bound required here stays under that
/// limit on 32- and 64-bit targets, so the call returns normally.
#[verifier::external_body]
pub fn new_event_channel(capacity: usize) -> (
    tokio::sync::mpsc::Sender<Event>,
    tokio::sync::mpsc::Receiver<Event>,
)
    requires
        1 <= capacity <= 0x1fff_ffff,
{
    tokio::sync::mpsc::channel(capacity)
}

/// Relies on `tokio::sync::mpsc::Sender::clone`: the clone is another
/// sending handle of the same channel. That tie cannot be stated of an
/// opaque value, so nothing is assumed of the result; it lets a dispatch
/// pass run against a snapshot of the registry, outside its critical
/// section.
#[verifier::external_body]
pub(crate) fn clone_sender(
    sender: &tokio::sync::mpsc::Sender<Event>,
) -> tokio::sync::mpsc::Sender<Event> {
    sender.clone()
}

/// Relies on `tokio::sync::mpsc::Sender::try_send`: it never blocks, and it
/// fails with `Full` when the buffer is at capacity and with `Closed` when
/// the receiver has been dropped or closed. Which outcome comes back depends
/// on the channel's current state, which only its other endpoint moves, so
/// nothing is assumed of it.
#[verifier::external_body]
pub(crate) fn try_send_event(
    sender: &tokio::sync::mpsc::Sender<Event>,
    ev: Event,
) -> SendOutcome {
    match sender.try_send(ev) {
        Ok(()) => SendOutcome::Delivered,
        Err(tokio::sync::mpsc::error::TrySendError::Full(_)) => SendOutcome::Full,
        Err(tokio::sync::mpsc::error::TrySendError::Closed(_)) => SendOutcome::Closed,
    }
}

} // verus!
