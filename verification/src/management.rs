use crate::pubkey::Pubkey;
use crate::state::ad_account::{AdAccount, MAX_CONTENT_CID_LEN};
use crate::state::screen_account::ScreenAccount;
use crate::state::shared::Dimensions;
use vstd::prelude::*;
use vstd::string::StringSliceAdditionalSpecFns;
use vstd::utf8::encode_utf8;

verus! {

/// Why a management operation was refused. A refused operation changes
/// nothing.
#[derive(Clone, Copy, Debug, PartialEq, Eq, Structural)]
pub enum ManagementError {
    /// The caller is not the identity recorded as in control of the record.
    Unauthorized,
    /// The content identifier is longer than its field.
    ContentTooLong,
    /// The funded total would leave the range of a `u64`.
    ArithmeticOverflow,
}

/// Opens a campaign for `authority`: active, with no plays and nothing in
/// escrow yet. Refused with `ContentTooLong` if and only if `content_cid`
/// takes more than [`MAX_CONTENT_CID_LEN`] bytes.
pub fn create_ad(
    authority: Pubkey,
    content_cid: String,
    bounty_per_play: u64,
    max_plays: u64,
    target_screen_id: Option<Pubkey>,
    tag_mask: u64,
    bump: u8,
) -> (created: Result<AdAccount, ManagementError>)
    ensures
        created is Ok <==> encode_utf8(content_cid@).len() <= MAX_CONTENT_CID_LEN,
        created is Err ==> created == Err::<AdAccount, ManagementError>(
            ManagementError::ContentTooLong,
        ),
        created matches Ok(ad) ==> ad == (AdAccount {
            authority,
            content_cid,
            is_active: true,
            bounty_per_play,
            max_plays,
            play_count: 0,
            total_funded: 0,
            target_screen_id,
            tag_mask,
            bump,
        }) && ad.wf(),
{
    if content_cid.as_str().as_bytes().len() > MAX_CONTENT_CID_LEN {
        return Err(ManagementError::ContentTooLong);
    }
    let ad = AdAccount {
        authority,
        content_cid,
        is_active: true,
        bounty_per_play,
        max_plays,
        play_count: 0,
        total_funded: 0,
        target_screen_id,
        tag_mask,
        bump,
    };
    assert(ad.spent() == 0) by (nonlinear_arith)
        requires
            ad.play_count == 0,
    ;
    Ok(ad)
}

/// Adds `amount` to the campaign's escrow on behalf of `caller`.
///
/// Refused with `Unauthorized` unless `caller` is the campaign's authority,
/// and with `ArithmeticOverflow` if the funded total would pass `u64::MAX`.
/// Otherwise `total_funded` grows by `amount` and nothing else changes.
pub fn fund_ad(ad: &mut AdAccount, caller: &Pubkey, amount: u64) -> (outcome: Result<
    (),
    ManagementError,
>)
    ensures
        outcome == (if *caller != old(ad).authority {
            Err::<(), ManagementError>(ManagementError::Unauthorized)
        } else if old(ad).total_funded + amount > u64::MAX {
            Err::<(), ManagementError>(ManagementError::ArithmeticOverflow)
        } else {
            Ok::<(), ManagementError>(())
        }),
        outcome is Ok ==> *final(ad) == (AdAccount {
            total_funded: (old(ad).total_funded + amount) as u64,
            ..*old(ad)
        }),
        outcome is Err ==> *final(ad) == *old(ad),
        old(ad).budget_ok() ==> final(ad).budget_ok(),
        old(ad).wf() ==> final(ad).wf(),
{
    if !(*caller == ad.authority) {
        return Err(ManagementError::Unauthorized);
    }
    match ad.total_funded.checked_add(amount) {
        None => Err(ManagementError::ArithmeticOverflow),
        Some(total) => {
            ad.total_funded = total;
            Ok(())
        },
    }
}

/// Opens or closes the campaign to new proofs on behalf of `caller`.
///
/// Refused with `Unauthorized` unless `caller` is the campaign's authority.
/// Otherwise `is_active` becomes `active` and nothing else changes.
pub fn set_ad_active(ad: &mut AdAccount, caller: &Pubkey, active: bool) -> (outcome: Result<
    (),
    ManagementError,
>)
    ensures
        outcome is Ok <==> *caller == old(ad).authority,
        outcome is Err ==> outcome == Err::<(), ManagementError>(ManagementError::Unauthorized),
        outcome is Ok ==> *final(ad) == (AdAccount { is_active: active, ..*old(ad) }),
        outcome is Err ==> *final(ad) == *old(ad),
        old(ad).budget_ok() ==> final(ad).budget_ok(),
        old(ad).wf() ==> final(ad).wf(),
{
    if !(*caller == ad.authority) {
        return Err(ManagementError::Unauthorized);
    }
    ad.is_active = active;
    Ok(())
}

/// Registers a display: active, with no proof accepted yet, so that its
/// first proof may carry any nonce but zero.
pub fn create_screen(owner_wallet: Pubkey, signing_key: Pubkey, dimensions: Dimensions, bump: u8)
    -> (screen: ScreenAccount)
    ensures
        screen == (ScreenAccount {
            owner_wallet,
            signing_key,
            dimensions,
            is_active: true,
            last_proof_nonce: 0,
            bump,
        }),
{
    ScreenAccount {
        owner_wallet,
        signing_key,
        dimensions,
        is_active: true,
        last_proof_nonce: 0,
        bump,
    }
}

/// Opens or closes the screen to new proofs on behalf of `caller`.
///
/// Refused with `Unauthorized` unless `caller` is the screen's owner.
/// Otherwise `is_active` becomes `active` and nothing else changes; the
/// replay anchor in particular stays where it is.
pub fn set_screen_active(screen: &mut ScreenAccount, caller: &Pubkey, active: bool) -> (outcome:
    Result<(), ManagementError>)
    ensures
        outcome is Ok <==> *caller == old(screen).owner_wallet,
        outcome is Err ==> outcome == Err::<(), ManagementError>(ManagementError::Unauthorized),
        outcome is Ok ==> *final(screen) == (ScreenAccount { is_active: active, ..*old(screen) }),
        outcome is Err ==> *final(screen) == *old(screen),
{
    if !(*caller == screen.owner_wallet) {
        return Err(ManagementError::Unauthorized);
    }
    screen.is_active = active;
    Ok(())
}

} // verus!
