use crate::error::SettlementError;
use vstd::prelude::*;

verus! {

/// The replay rule: a nonce is accepted if and only if it is strictly greater
/// than the last one accepted from the same screen.
pub open spec fn replay_outcome(nonce: u64, last_proof_nonce: u64) -> Result<(), SettlementError> {
    if nonce > last_proof_nonce {
        Ok(())
    } else {
        Err(SettlementError::ReplayedNonce)
    }
}

/// Checks a proof's nonce against the screen's stored anchor: `Ok` if and
/// only if `nonce > last_proof_nonce`, `ReplayedNonce` on equality and below.
pub fn check_nonce(nonce: u64, last_proof_nonce: u64) -> (outcome: Result<(), SettlementError>)
    ensures
        outcome == replay_outcome(nonce, last_proof_nonce),
        outcome is Ok <==> nonce > last_proof_nonce,
        outcome is Err ==> outcome == Err::<(), SettlementError>(SettlementError::ReplayedNonce),
{
    if nonce > last_proof_nonce {
        Ok(())
    } else {
        Err(SettlementError::ReplayedNonce)
    }
}

} // verus!
