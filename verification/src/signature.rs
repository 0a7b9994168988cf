use crate::error::SettlementError;
use crate::pubkey::{Pubkey, PUBKEY_BYTES};
use vstd::prelude::*;

verus! {

/// Number of bytes in a signature.
pub const SIGNATURE_BYTES: usize = 64;

/// Whether strict Ed25519 verification accepts `signature` as a signature of
/// `message` under the key that the 32 bytes `key` encode: what
/// `ed25519_dalek::VerifyingKey::verify_strict` decides, with `false` for
/// bytes that decode to no key. Nothing is proved of it here beyond its being
/// a function of these three byte strings.
pub uninterp spec fn verify_strict_accepts(
    key: Seq<u8>,
    message: Seq<u8>,
    signature: Seq<u8>,
) -> bool;

/// Runs `ed25519_dalek::VerifyingKey::verify_strict` on raw bytes, after
/// decoding `key` with `VerifyingKey::from_bytes` and `signature` with
/// `Signature::from_bytes`. Trusted: the answer is `verify_strict_accepts` of
/// the same bytes, that is, it depends on nothing but the three arguments;
/// key bytes that do not decode are answered with `false`.
#[verifier::external_body]
fn ed25519_verify_strict(
    key: &[u8; PUBKEY_BYTES],
    message: &[u8],
    signature: &[u8; SIGNATURE_BYTES],
) -> (accepted: bool)
    ensures
        accepted == verify_strict_accepts(key@, message@, signature@),
{
    let signature = ed25519_dalek::Signature::from_bytes(signature);
    match ed25519_dalek::VerifyingKey::from_bytes(key) {
        Ok(verifying_key) => verifying_key.verify_strict(message, &signature).is_ok(),
        Err(_) => false,
    }
}

/// What the verifier reports for a signature that was accepted or not.
pub open spec fn signature_outcome(accepted: bool) -> Result<(), SettlementError> {
    if accepted {
        Ok(())
    } else {
        Err(SettlementError::InvalidSignature)
    }
}

/// Checks `signature` over exactly the bytes of `message` under
/// `signing_key`: `Ok` if and only if strict Ed25519 verification accepts it,
/// `InvalidSignature` otherwise.
pub fn verify_signature(
    message: &[u8],
    signature: &[u8; SIGNATURE_BYTES],
    signing_key: &Pubkey,
) -> (outcome: Result<(), SettlementError>)
    ensures
        outcome == signature_outcome(verify_strict_accepts(signing_key@, message@, signature@)),
        outcome is Ok <==> verify_strict_accepts(signing_key@, message@, signature@),
        outcome is Err ==> outcome == Err::<(), SettlementError>(SettlementError::InvalidSignature),
{
    if ed25519_verify_strict(&signing_key.bytes, message, signature) {
        Ok(())
    } else {
        Err(SettlementError::InvalidSignature)
    }
}

} // verus!
