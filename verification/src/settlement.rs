use crate::eligibility::{check_eligibility, eligibility, lemma_one_more_play};
use crate::error::SettlementError;
use crate::payload::ProofPayloadV1;
use crate::pubkey::Pubkey;
use crate::replay::{check_nonce, replay_outcome};
use crate::signature::{verify_signature, verify_strict_accepts, SIGNATURE_BYTES};
use crate::state::ad_account::AdAccount;
use crate::state::screen_account::ScreenAccount;
use vstd::prelude::*;

verus! {

/// What an accepted proof entitles the screen's owner to: the host pays
/// `amount` out of the campaign's escrow to `recipient`.
#[derive(Clone, Copy, Debug, PartialEq, Eq)]
pub struct SettlementReceipt {
    /// The campaign that pays.
    pub ad: Pubkey,
    /// The screen that displayed.
    pub screen: Pubkey,
    /// The nonce that was accepted, now the screen's replay anchor.
    pub nonce: u64,
    /// The wallet of the screen's owner.
    pub recipient: Pubkey,
    /// The campaign's bounty for one play.
    pub amount: u64,
}

/// The verdict on a claim, given whether its signature verified. The checks
/// run in a fixed order and the first failure decides: signature, replay,
/// then the eligibility rules.
pub open spec fn verdict(
    ad: AdAccount,
    screen: ScreenAccount,
    proof: ProofPayloadV1,
    signature_ok: bool,
) -> Result<(), SettlementError> {
    if !signature_ok {
        Err(SettlementError::InvalidSignature)
    } else if replay_outcome(proof.nonce, screen.last_proof_nonce) is Err {
        Err(SettlementError::ReplayedNonce)
    } else {
        eligibility(ad, screen, proof.screen)
    }
}

/// The receipt of an accepted claim.
pub open spec fn receipt_for(ad: AdAccount, screen: ScreenAccount, proof: ProofPayloadV1)
    -> SettlementReceipt {
    SettlementReceipt {
        ad: proof.ad,
        screen: proof.screen,
        nonce: proof.nonce,
        recipient: screen.owner_wallet,
        amount: ad.bounty_per_play,
    }
}

/// The settlement transition, as a relation between the records before an
/// attempt, its result, and the records after it.
///
/// An accepted claim moves the screen's replay anchor to the claim's nonce,
/// counts one more play, and yields the receipt; together, and nothing else.
/// A rejected claim yields its error and leaves both records as they were.
pub open spec fn settles(
    ad: AdAccount,
    screen: ScreenAccount,
    proof: ProofPayloadV1,
    signature_ok: bool,
    outcome: Result<SettlementReceipt, SettlementError>,
    ad_after: AdAccount,
    screen_after: ScreenAccount,
) -> bool {
    match verdict(ad, screen, proof, signature_ok) {
        Ok(_) => {
            &&& outcome == Ok::<SettlementReceipt, SettlementError>(receipt_for(ad, screen, proof))
            &&& ad_after == ad.after_play()
            &&& screen_after == screen.advanced_to(proof.nonce)
        },
        Err(error) => {
            &&& outcome == Err::<SettlementReceipt, SettlementError>(error)
            &&& ad_after == ad
            &&& screen_after == screen
        },
    }
}

/// Settles a claim whose signature has already been checked.
///
/// `signature_ok` tells whether the signature verified under
/// `screen.signing_key` over the claim's signable bytes. The remaining checks
/// run here; the records change only if all of them pass.
pub fn settle(
    ad: &mut AdAccount,
    screen: &mut ScreenAccount,
    proof: &ProofPayloadV1,
    signature_ok: bool,
) -> (outcome: Result<SettlementReceipt, SettlementError>)
    ensures
        settles(
            *old(ad),
            *old(screen),
            *proof,
            signature_ok,
            outcome,
            *final(ad),
            *final(screen),
        ),
        outcome is Ok <==> verdict(*old(ad), *old(screen), *proof, signature_ok) is Ok,
        outcome is Err ==> *final(ad) == *old(ad) && *final(screen) == *old(screen),
        outcome is Ok ==> final(ad).budget_ok() && final(screen).last_proof_nonce == proof.nonce,
        old(ad).wf() ==> final(ad).wf(),
{
    if !signature_ok {
        return Err(SettlementError::InvalidSignature);
    }
    match check_nonce(proof.nonce, screen.last_proof_nonce) {
        Err(error) => {
            return Err(error);
        },
        Ok(_) => {},
    }
    match check_eligibility(ad, screen, &proof.screen) {
        Err(error) => {
            return Err(error);
        },
        Ok(_) => {},
    }
    let play_count: u64 = match ad.play_count.checked_add(1) {
        None => {
            return Err(SettlementError::ArithmeticOverflow);
        },
        Some(count) => count,
    };
    let receipt = SettlementReceipt {
        ad: proof.ad,
        screen: proof.screen,
        nonce: proof.nonce,
        recipient: screen.owner_wallet,
        amount: ad.bounty_per_play,
    };
    proof {
        lemma_one_more_play(*ad);
    }
    screen.last_proof_nonce = proof.nonce;
    ad.play_count = play_count;
    Ok(receipt)
}

/// Verifies and settles a display claim: the single entry point that turns a
/// claim into a state change.
///
/// `ad` and `screen` are the records that the store holds at the addresses
/// `proof.ad` and `proof.screen`. The claim is encoded into its signable
/// bytes, `signature` is verified over them under `screen.signing_key`, then
/// the nonce is checked against the screen's anchor and the eligibility rules
/// are applied, as [`settle`] does. Either the screen's replay anchor, the
/// campaign's play counter and the receipt all come about, or an error is
/// returned and both records are exactly as before.
pub fn submit_proof(
    ad: &mut AdAccount,
    screen: &mut ScreenAccount,
    proof: &ProofPayloadV1,
    signature: &[u8; SIGNATURE_BYTES],
) -> (outcome: Result<SettlementReceipt, SettlementError>)
    ensures
        settles(
            *old(ad),
            *old(screen),
            *proof,
            verify_strict_accepts(old(screen).signing_key@, proof.signable_bytes(), signature@),
            outcome,
            *final(ad),
            *final(screen),
        ),
        outcome is Err ==> *final(ad) == *old(ad) && *final(screen) == *old(screen),
        outcome is Ok ==> final(ad).budget_ok() && final(screen).last_proof_nonce == proof.nonce,
        old(ad).wf() ==> final(ad).wf(),
{
    let message: Vec<u8> = proof.to_signable_bytes();
    let signed = verify_signature(message.as_slice(), signature, &screen.signing_key);
    settle(ad, screen, proof, signed.is_ok())
}

/// Replay monotonicity. For a screen whose anchor is `n`, an attempt with a
/// nonce at or below `n` is rejected and changes nothing, as a replay if its
/// signature verified. An attempt with a greater nonce, `n + 1` in
/// particular, is accepted when its signature verified and the eligibility
/// rules pass, and its nonce is the screen's anchor afterwards.
pub proof fn lemma_replay_monotonicity(
    ad: AdAccount,
    screen: ScreenAccount,
    proof: ProofPayloadV1,
    signature_ok: bool,
    outcome: Result<SettlementReceipt, SettlementError>,
    ad_after: AdAccount,
    screen_after: ScreenAccount,
)
    requires
        settles(ad, screen, proof, signature_ok, outcome, ad_after, screen_after),
    ensures
        proof.nonce <= screen.last_proof_nonce ==> {
            &&& outcome is Err
            &&& screen_after == screen
            &&& ad_after == ad
        },
        proof.nonce <= screen.last_proof_nonce && signature_ok ==> outcome == Err::<
            SettlementReceipt,
            SettlementError,
        >(SettlementError::ReplayedNonce),
        proof.nonce > screen.last_proof_nonce && signature_ok && eligibility(
            ad,
            screen,
            proof.screen,
        ) is Ok ==> {
            &&& outcome is Ok
            &&& screen_after.last_proof_nonce == proof.nonce
            &&& screen_after.last_proof_nonce > screen.last_proof_nonce
        },
        screen_after.last_proof_nonce >= screen.last_proof_nonce,
{
}

/// No claim is paid twice. Once a claim is accepted, every later attempt on
/// the same screen with that nonce or a smaller one is rejected, whatever
/// campaign it names and whether or not its signature verifies.
pub proof fn lemma_accepted_nonce_is_spent(
    ad: AdAccount,
    screen: ScreenAccount,
    proof: ProofPayloadV1,
    signature_ok: bool,
    outcome: Result<SettlementReceipt, SettlementError>,
    ad_after: AdAccount,
    screen_after: ScreenAccount,
    later_ad: AdAccount,
    later_proof: ProofPayloadV1,
    later_signature_ok: bool,
)
    requires
        settles(ad, screen, proof, signature_ok, outcome, ad_after, screen_after),
        outcome is Ok,
        later_proof.nonce <= proof.nonce,
    ensures
        verdict(later_ad, screen_after, later_proof, later_signature_ok) is Err,
        later_signature_ok ==> verdict(later_ad, screen_after, later_proof, later_signature_ok)
            == Err::<(), SettlementError>(SettlementError::ReplayedNonce),
{
}

/// Targeting. A campaign bound to `target` rejects a claim that names another
/// screen with `ScreenMismatch` and changes nothing, although the signature
/// verified and the nonce is fresh, and whatever its budget is. Both records
/// are active here: an inactive one is reported first.
pub proof fn lemma_targeting(
    ad: AdAccount,
    screen: ScreenAccount,
    proof: ProofPayloadV1,
    target: Pubkey,
    outcome: Result<SettlementReceipt, SettlementError>,
    ad_after: AdAccount,
    screen_after: ScreenAccount,
)
    requires
        ad.target_screen_id == Some(target),
        proof.screen != target,
        ad.is_active,
        screen.is_active,
        proof.nonce > screen.last_proof_nonce,
        settles(ad, screen, proof, true, outcome, ad_after, screen_after),
    ensures
        outcome == Err::<SettlementReceipt, SettlementError>(SettlementError::ScreenMismatch),
        ad_after == ad,
        screen_after == screen,
{
}

/// An accepted claim debits the escrow by exactly one bounty, and the escrow
/// stays at or above zero with the plays at or under their ceiling.
pub proof fn lemma_accepted_claim_is_paid(
    ad: AdAccount,
    screen: ScreenAccount,
    proof: ProofPayloadV1,
    signature_ok: bool,
)
    requires
        verdict(ad, screen, proof, signature_ok) is Ok,
    ensures
        ad.after_play().play_count == ad.play_count + 1,
        ad.after_play().escrow() == ad.escrow() - ad.bounty_per_play,
        ad.after_play().escrow() >= 0,
        ad.after_play().budget_ok(),
{
    lemma_one_more_play(ad);
    assert((ad.play_count + 1) * ad.bounty_per_play == ad.play_count * ad.bounty_per_play
        + ad.bounty_per_play) by (nonlinear_arith);
}

/// One attempt against a campaign: the screen record as the store held it at
/// that moment, the claim, and whether the claim's signature verified.
pub struct Attempt {
    pub screen: ScreenAccount,
    pub proof: ProofPayloadV1,
    pub signature_ok: bool,
}

/// The campaign after a history of attempts, each settled in turn.
pub open spec fn campaign_after(ad: AdAccount, history: Seq<Attempt>) -> AdAccount
    decreases history.len(),
{
    if history.len() == 0 {
        ad
    } else {
        let before = campaign_after(ad, history.drop_last());
        let attempt = history.last();
        if verdict(before, attempt.screen, attempt.proof, attempt.signature_ok) is Ok {
            before.after_play()
        } else {
            before
        }
    }
}

/// How many attempts of a history were accepted.
pub open spec fn accepted_count(ad: AdAccount, history: Seq<Attempt>) -> nat
    decreases history.len(),
{
    if history.len() == 0 {
        0
    } else {
        let before = campaign_after(ad, history.drop_last());
        let attempt = history.last();
        let earlier = accepted_count(ad, history.drop_last());
        if verdict(before, attempt.screen, attempt.proof, attempt.signature_ok) is Ok {
            earlier + 1
        } else {
            earlier
        }
    }
}

/// Budget conservation. Over any history of attempts on one campaign, the
/// play counter grows by the number of accepted claims and by nothing else,
/// it never passes `max_plays`, and the escrow shrinks by one bounty per
/// accepted claim without ever going below zero. No other field of the
/// campaign changes.
pub proof fn lemma_budget_conservation(ad: AdAccount, history: Seq<Attempt>)
    requires
        ad.budget_ok(),
    ensures
        campaign_after(ad, history).play_count == ad.play_count + accepted_count(ad, history),
        campaign_after(ad, history).play_count <= ad.max_plays,
        campaign_after(ad, history).escrow() == ad.escrow() - accepted_count(ad, history)
            * ad.bounty_per_play,
        campaign_after(ad, history).escrow() >= 0,
        campaign_after(ad, history).budget_ok(),
        campaign_after(ad, history) == (AdAccount {
            play_count: campaign_after(ad, history).play_count,
            ..ad
        }),
    decreases history.len(),
{
    if history.len() > 0 {
        let earlier = history.drop_last();
        let attempt = history.last();
        let before = campaign_after(ad, earlier);
        lemma_budget_conservation(ad, earlier);
        if verdict(before, attempt.screen, attempt.proof, attempt.signature_ok) is Ok {
            lemma_accepted_claim_is_paid(
                before,
                attempt.screen,
                attempt.proof,
                attempt.signature_ok,
            );
            assert((accepted_count(ad, earlier) + 1) * ad.bounty_per_play == accepted_count(
                ad,
                earlier,
            ) * ad.bounty_per_play + ad.bounty_per_play) by (nonlinear_arith);
        }
    }
}

} // verus!
