//! Core of a two-stream event relay: untrusted producers feed raw
//! transaction-packet batches and atomically submitted transaction bundles
//! into bounded ingress queues; a single forwarding worker fans each event
//! out to the subscribers of its kind, applying per-subscriber backpressure
//! and evicting subscribers whose outbound queues have closed.
//!
//! The transport that carries events to and from the network, and the
//! process bootstrap around the forwarding worker, live outside this crate;
//! they exchange plain values with the types defined here.

pub mod auth;
pub mod channel;
pub mod client;
pub mod event;
pub mod fee;
pub mod forwarder;
pub mod ids;
pub mod ingest;
pub mod registry;
