use crate::error::SettlementError;
use crate::pubkey::Pubkey;
use vstd::prelude::*;
use vstd::utf8::encode_utf8;

verus! {

/// Longest content identifier a campaign may hold, in encoded bytes.
pub const MAX_CONTENT_CID_LEN: usize = 200;

/// A funded campaign.
#[derive(Clone, Debug, PartialEq, Eq)]
pub struct AdAccount {
    /// The advertiser in control of the campaign.
    pub authority: Pubkey,
    /// Reference to the creative, stored elsewhere and never read here.
    pub content_cid: String,
    /// The campaign accepts proofs exactly when this is set.
    pub is_active: bool,
    /// Payout of one accepted proof, in the smallest currency unit.
    pub bounty_per_play: u64,
    /// Ceiling of `play_count`.
    pub max_plays: u64,
    /// Number of proofs accepted so far.
    pub play_count: u64,
    /// Everything ever put in escrow for this campaign.
    pub total_funded: u64,
    /// The one screen that may claim, or `None` for any registered screen.
    pub target_screen_id: Option<Pubkey>,
    /// Content categories, published for renderers and never checked here.
    pub tag_mask: u64,
    pub bump: u8,
}

impl AdAccount {
    /// What the accepted proofs have cost: `play_count * bounty_per_play`.
    pub open spec fn spent(self) -> int {
        self.play_count * self.bounty_per_play
    }

    /// What is left in escrow: `total_funded - play_count * bounty_per_play`.
    pub open spec fn escrow(self) -> int {
        self.total_funded - self.spent()
    }

    /// The budget invariant: the plays stay under their ceiling and were all
    /// paid out of what was funded.
    pub open spec fn budget_ok(self) -> bool {
        &&& self.play_count <= self.max_plays
        &&& self.spent() <= self.total_funded
    }

    /// A record as the store may hold it: the budget invariant holds and the
    /// content identifier fits its field.
    pub open spec fn wf(self) -> bool {
        &&& self.budget_ok()
        &&& encode_utf8(self.content_cid@).len() <= MAX_CONTENT_CID_LEN
    }

    /// The campaign as it stands once one more proof is accepted: only the
    /// play counter moves, by one.
    pub open spec fn after_play(self) -> AdAccount {
        AdAccount { play_count: (self.play_count + 1) as u64, ..self }
    }

    /// What checked `u64` arithmetic makes of the escrow: the balance where
    /// both the product and the difference stay in range, and
    /// `ArithmeticOverflow` where either leaves it.
    pub open spec fn checked_escrow(self) -> Result<u64, SettlementError> {
        if self.spent() > u64::MAX || self.total_funded < self.spent() {
            Err(SettlementError::ArithmeticOverflow)
        } else {
            Ok(self.escrow() as u64)
        }
    }

    /// Computes the funds left in escrow with overflow-checked arithmetic.
    pub fn remaining_escrow(&self) -> (balance: Result<u64, SettlementError>)
        ensures
            balance == self.checked_escrow(),
            self.budget_ok() ==> balance == Ok::<u64, SettlementError>(self.escrow() as u64),
    {
        match self.play_count.checked_mul(self.bounty_per_play) {
            None => Err(SettlementError::ArithmeticOverflow),
            Some(spent) => match self.total_funded.checked_sub(spent) {
                None => Err(SettlementError::ArithmeticOverflow),
                Some(left) => Ok(left),
            },
        }
    }

    /// Tells whether every bit of `tag` is set in the campaign's `tag_mask`.
    pub fn has_tag(&self, tag: u64) -> (set: bool)
        ensures
            set == (self.tag_mask & tag == tag),
    {
        self.tag_mask & tag == tag
    }
}

} // verus!
