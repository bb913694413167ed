//! Decisions of the searcher-side client's airdrop wait loop: the caller
//! polls its RPC collaborator for the confirmation status of each requested
//! signature and asks here what to do next; the RPC calls and the clock
//! stay with the caller.

use vstd::prelude::*;

verus! {

/// What the wait loop does next.
#[derive(Clone, Copy, Debug, PartialEq, Eq, Structural)]
pub enum AirdropWait {
    /// Every signature is confirmed; the airdrop succeeded.
    Confirmed,
    /// Some signature is still pending and the deadline has not passed:
    /// poll again.
    Poll,
    /// The deadline passed with some signature still pending: give up.
    TimedOut,
}

/// Whether every requested signature is confirmed.
pub open spec fn spec_all_confirmed(confirmed: Seq<bool>) -> bool {
    forall|i: int| 0 <= i < confirmed.len() ==> confirmed[i]
}

/// True exactly when every entry is true — with no entries there is
/// nothing left to wait for.
pub fn all_confirmed(confirmed: &Vec<bool>) -> (r: bool)
    ensures
        r == spec_all_confirmed(confirmed@),
{
    let mut i: usize = 0;
    while i < confirmed.len()
        invariant
            i <= confirmed@.len(),
            forall|k: int| 0 <= k < i ==> confirmed@[k],
        decreases confirmed@.len() - i,
    {
        if !confirmed[i] {
            return false;
        }
        i += 1;
    }
    true
}

/// One decision of the wait loop, from the latest confirmation statuses and
/// the elapsed time: done as soon as everything is confirmed, otherwise
/// poll again inside the deadline and give up at it.
pub fn airdrop_wait_step(confirmed: &Vec<bool>, elapsed_secs: u64, deadline_secs: u64) -> (r:
    AirdropWait)
    ensures
        r == AirdropWait::Confirmed <==> spec_all_confirmed(confirmed@),
        r == AirdropWait::Poll <==> !spec_all_confirmed(confirmed@) && elapsed_secs
            < deadline_secs,
        r == AirdropWait::TimedOut <==> !spec_all_confirmed(confirmed@) && elapsed_secs
            >= deadline_secs,
{
    if all_confirmed(confirmed) {
        AirdropWait::Confirmed
    } else if elapsed_secs < deadline_secs {
        AirdropWait::Poll
    } else {
        AirdropWait::TimedOut
    }
}

} // verus!
