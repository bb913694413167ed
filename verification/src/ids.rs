//! Identifiers handed out by the relay: correlation ids for accepted bundle
//! submissions and identities for registered subscribers.
//!
//! Both are 128 bits wide: one half drawn at issue time from a version-4
//! UUID (62 of its 64 bits are random; the other two are the UUID variant
//! marker), paired with a 64-bit sequence number taken from a counter owned
//! by the issuing component. The counter alone already makes every
//! identifier issued by one component distinct from all the others it has
//! issued; the random half keeps identifiers from different processes from
//! colliding in practice, and is a convention, not a security mechanism.

use vstd::prelude::*;

verus! {

/// Identifier returned to the caller of a bundle submission, attached to the
/// bundle event for client-side correlation, immutable thereafter.
#[derive(Clone, Copy, Debug, PartialEq, Eq, Structural)]
pub struct CorrelationId {
    pub entropy: u64,
    pub seq: u64,
}

/// Opaque identity of a registered subscriber; freshly generated on every
/// registration and never reused, even across reconnects.
#[derive(Clone, Copy, Debug, PartialEq, Eq, Structural)]
pub struct SubscriberId {
    pub entropy: u64,
    pub seq: u64,
}

/// Relies on `uuid::Uuid::new_v4` for the random half of an identifier.
/// The value is drawn from the process's entropy source, so nothing is
/// assumed of it.
#[verifier::external_body]
pub(crate) fn random_u64() -> u64 {
    uuid::Uuid::new_v4().as_u128() as u64
}

} // verus!
