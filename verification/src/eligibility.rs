use crate::error::SettlementError;
use crate::pubkey::Pubkey;
use crate::state::ad_account::AdAccount;
use crate::state::screen_account::ScreenAccount;
use vstd::prelude::*;

verus! {

/// Whether the campaign lets `claimed_screen` claim: it is bound to no screen,
/// or to this one.
pub open spec fn targets(ad: AdAccount, claimed_screen: Pubkey) -> bool {
    ad.target_screen_id matches Some(target) ==> target == claimed_screen
}

/// The eligibility rules, in the order in which they are tried; the first one
/// that fails decides.
///
/// 1. the campaign is active, else `AdInactive`;
/// 2. the screen is active, else `ScreenInactive`;
/// 3. the campaign targets no other screen, else `ScreenMismatch`;
/// 4. `play_count < max_plays`, else `BudgetExhausted`;
/// 5. the escrow, `total_funded - play_count * bounty_per_play`, covers one
///    more bounty, else `InsufficientEscrow`; where `u64` arithmetic cannot
///    compute the escrow, `ArithmeticOverflow`.
pub open spec fn eligibility(ad: AdAccount, screen: ScreenAccount, claimed_screen: Pubkey) -> Result<
    (),
    SettlementError,
> {
    if !ad.is_active {
        Err(SettlementError::AdInactive)
    } else if !screen.is_active {
        Err(SettlementError::ScreenInactive)
    } else if !targets(ad, claimed_screen) {
        Err(SettlementError::ScreenMismatch)
    } else if ad.play_count >= ad.max_plays {
        Err(SettlementError::BudgetExhausted)
    } else if ad.checked_escrow() is Err {
        Err(SettlementError::ArithmeticOverflow)
    } else if ad.escrow() < ad.bounty_per_play {
        Err(SettlementError::InsufficientEscrow)
    } else {
        Ok(())
    }
}

/// Decides whether `ad` may pay `screen` for a claim that names
/// `claimed_screen`, by the rules of [`eligibility`].
pub fn check_eligibility(ad: &AdAccount, screen: &ScreenAccount, claimed_screen: &Pubkey) -> (outcome:
    Result<(), SettlementError>)
    ensures
        outcome == eligibility(*ad, *screen, *claimed_screen),
        outcome is Ok <==> {
            &&& ad.is_active
            &&& screen.is_active
            &&& targets(*ad, *claimed_screen)
            &&& ad.play_count < ad.max_plays
            &&& (ad.play_count + 1) * ad.bounty_per_play <= ad.total_funded
        },
{
    proof {
        lemma_one_more_play(*ad);
    }
    if !ad.is_active {
        return Err(SettlementError::AdInactive);
    }
    if !screen.is_active {
        return Err(SettlementError::ScreenInactive);
    }
    match &ad.target_screen_id {
        Some(target) => {
            if !(*target == *claimed_screen) {
                return Err(SettlementError::ScreenMismatch);
            }
        },
        None => {},
    }
    if ad.play_count >= ad.max_plays {
        return Err(SettlementError::BudgetExhausted);
    }
    match ad.remaining_escrow() {
        Err(overflow) => Err(overflow),
        Ok(left) => {
            if left < ad.bounty_per_play {
                Err(SettlementError::InsufficientEscrow)
            } else {
                Ok(())
            }
        },
    }
}

/// The escrow covers one more bounty exactly when the funds cover
/// `play_count + 1` bounties.
pub proof fn lemma_one_more_play(ad: AdAccount)
    ensures
        (ad.checked_escrow() is Ok && ad.escrow() >= ad.bounty_per_play) <==> (ad.play_count + 1)
            * ad.bounty_per_play <= ad.total_funded,
{
    assert((ad.play_count + 1) * ad.bounty_per_play == ad.play_count * ad.bounty_per_play
        + ad.bounty_per_play) by (nonlinear_arith);
}

} // verus!
