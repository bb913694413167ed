//! The authentication collaborator's placeholder, outside the relay's core.
//!
//! The service hands out fixed, non-verifiable token values; that is a
//! stand-in for a real signed-credential scheme and must not be treated as
//! production-ready. Only the expiry arithmetic is worth stating: a token
//! issued now expires exactly its lifetime later, and the computation never
//! overflows the timestamp's signed range.

use vstd::prelude::*;

verus! {

/// Lifetime of a freshly generated access token, in seconds.
pub const ACCESS_TOKEN_TTL_SECS: u64 = 24 * 60 * 60;

/// Lifetime of an access token handed out on refresh, in seconds.
pub const REFRESHED_TOKEN_TTL_SECS: u64 = 30 * 60;

/// The fixed challenge the placeholder service hands to every caller; a
/// real deployment would derive a fresh challenge per request.
pub fn generate_auth_challenge() -> (r: &'static str)
    ensures
        r@ == "generate_auth_challenge"@,
{
    "generate_auth_challenge"
}

/// The authentication service placeholder; stateless.
pub struct AuthServiceImpl {}

/// Hook for attaching token checks to inbound calls; the placeholder
/// service checks nothing, so it carries no state.
pub struct AuthInterceptor {}

impl AuthServiceImpl {
    pub fn new() -> AuthServiceImpl {
        AuthServiceImpl {}
    }

    /// The expiry timestamp of a token issued at `now_secs` (seconds since
    /// the epoch) with the given lifetime: exactly their sum, or nothing
    /// when the sum leaves the timestamp's signed 64-bit range.
    pub fn token_expiry_seconds(now_secs: u64, ttl_secs: u64) -> (r: Option<i64>)
        ensures
            r matches Some(v) ==> v as int == now_secs + ttl_secs,
            r is Some <==> now_secs + ttl_secs <= i64::MAX,
    {
        match now_secs.checked_add(ttl_secs) {
            None => None,
            Some(total) => if total <= i64::MAX as u64 {
                Some(total as i64)
            } else {
                None
            },
        }
    }
}

} // verus!
