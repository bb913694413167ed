//! The block-builder fee info responder: a static answer, configured once
//! at construction and returned unchanged to every caller. It sits outside
//! the relay's hard core and holds no other state.

use vstd::prelude::*;

verus! {

/// The pre-configured block-builder identity and commission.
pub struct FeeInfoProvider {
    pub identity: String,
    pub commission: u64,
}

impl FeeInfoProvider {
    /// Configures the responder; the values are fixed from here on.
    pub fn new(identity: String, commission: u64) -> (r: FeeInfoProvider)
        ensures
            r.identity@ == identity@,
            r.commission == commission,
    {
        FeeInfoProvider { identity, commission }
    }

    /// The configured identity, exactly as it was handed in.
    pub fn identity(&self) -> (r: &String)
        ensures
            r@ == self.identity@,
    {
        &self.identity
    }

    /// The configured commission, exactly as it was handed in.
    pub fn commission(&self) -> (r: u64)
        ensures
            r == self.commission,
    {
        self.commission
    }
}

} // verus!
