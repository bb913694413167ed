//! The transient events the relay carries, and the plain data they hold.
//!
//! Events are created at ingestion, consumed once by the forwarding worker,
//! and never persisted. A packet's payload is its raw bytes; the metadata
//! mirrors what the transport records about it.

use vstd::prelude::*;

use crate::ids::CorrelationId;

verus! {

/// Transport-level metadata of one packet.
#[derive(Clone, Debug, PartialEq, Eq)]
pub struct PacketMeta {
    pub size: u64,
    pub port: u32,
    pub sender_stake: u64,
}

/// One raw transaction-like payload.
#[derive(Clone, Debug, PartialEq, Eq)]
pub struct Packet {
    pub data: Vec<u8>,
    pub meta: Option<PacketMeta>,
}

/// A batch of packets relayed as one event to every packet subscriber.
#[derive(Clone, Debug, PartialEq, Eq)]
pub struct PacketBatch {
    pub packets: Vec<Packet>,
}

/// An atomically submitted, ordered group of packets.
#[derive(Clone, Debug, PartialEq, Eq)]
pub struct Bundle {
    pub packets: Vec<Packet>,
}

/// The two independent event streams the relay multiplexes.
#[derive(Clone, Copy, Debug, PartialEq, Eq, Structural)]
pub enum EventKind {
    Packet,
    Bundle,
}

/// One event: either a packet batch or a bundle tagged with the correlation
/// id assigned at submission.
#[derive(Clone, Debug)]
pub enum Event {
    PacketBatchEvent { batch: PacketBatch },
    BundleEvent { bundle: Bundle, correlation_id: CorrelationId },
}

impl Event {
    /// The stream an event belongs to; dispatch matches it against the
    /// registry of the same kind.
    pub open spec fn kind(self) -> EventKind {
        match self {
            Event::PacketBatchEvent { .. } => EventKind::Packet,
            Event::BundleEvent { .. } => EventKind::Bundle,
        }
    }
}

/// Builds the packet that carries one serialized transaction: the payload is
/// taken as given and the recorded size is exactly the payload's length.
pub fn packet_from_bytes(data: Vec<u8>) -> (r: Packet)
    ensures
        r.data@ == data@,
        r.meta matches Some(m) && m == (PacketMeta {
            size: data@.len() as u64,
            port: 0,
            sender_stake: 0,
        }),
        data@.len() == r.meta->Some_0.size,
{
    let size: u64 = data.len() as u64;
    Packet { data, meta: Some(PacketMeta { size, port: 0, sender_stake: 0 }) }
}

} // verus!
