use crate::pubkey::Pubkey;
use crate::state::shared::Dimensions;
use vstd::prelude::*;

verus! {

/// A registered display.
#[derive(Clone, Copy, Debug, PartialEq, Eq)]
pub struct ScreenAccount {
    /// Where the bounty of an accepted proof is paid.
    pub owner_wallet: Pubkey,
    /// The renderer's key: proofs of this screen verify under it.
    pub signing_key: Pubkey,
    pub dimensions: Dimensions,
    /// The screen accepts proofs exactly when this is set.
    pub is_active: bool,
    /// The highest nonce ever accepted from this screen.
    pub last_proof_nonce: u64,
    pub bump: u8,
}

impl ScreenAccount {
    /// The screen as it stands once a proof with `nonce` is accepted: only
    /// the replay anchor moves.
    pub open spec fn advanced_to(self, nonce: u64) -> ScreenAccount {
        ScreenAccount { last_proof_nonce: nonce, ..self }
    }
}

} // verus!
