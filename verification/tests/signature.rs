use ed25519_dalek::{Signer, SigningKey};
use samizdat::signature::verify_signature;
use samizdat::{ProofPayloadV1, Pubkey, SettlementError};

fn renderer(seed: u8) -> SigningKey {
    SigningKey::from_bytes(&[seed; 32])
}

fn public_key(signer: &SigningKey) -> Pubkey {
    Pubkey::new_from_array(signer.verifying_key().to_bytes())
}

fn claim() -> ProofPayloadV1 {
    ProofPayloadV1 {
        ad: Pubkey::new_from_array([0x11; 32]),
        screen: Pubkey::new_from_array([0x22; 32]),
        nonce: 7,
        timestamp: 1_700_000_123,
    }
}

#[test]
fn signature_over_the_encoded_bytes_verifies() {
    let signer = renderer(1);
    let message = claim().to_signable_bytes();
    let signature = signer.sign(&message).to_bytes();
    assert_eq!(verify_signature(&message, &signature, &public_key(&signer)), Ok(()));
}

#[test]
fn signature_fails_when_any_payload_byte_is_flipped() {
    let signer = renderer(1);
    let message = claim().to_signable_bytes();
    let signature = signer.sign(&message).to_bytes();
    for index in 0..message.len() {
        let mut tampered = message.clone();
        tampered[index] ^= 0x01;
        assert_eq!(
            verify_signature(&tampered, &signature, &public_key(&signer)),
            Err(SettlementError::InvalidSignature)
        );
    }
}

#[test]
fn signature_fails_when_any_signature_byte_is_flipped() {
    let signer = renderer(1);
    let message = claim().to_signable_bytes();
    let signature = signer.sign(&message).to_bytes();
    for index in 0..signature.len() {
        let mut tampered = signature;
        tampered[index] ^= 0x01;
        assert_eq!(
            verify_signature(&message, &tampered, &public_key(&signer)),
            Err(SettlementError::InvalidSignature)
        );
    }
}

#[test]
fn signature_fails_under_a_different_key() {
    let signer = renderer(1);
    let stranger = renderer(2);
    let message = claim().to_signable_bytes();
    let signature = signer.sign(&message).to_bytes();
    assert_eq!(
        verify_signature(&message, &signature, &public_key(&stranger)),
        Err(SettlementError::InvalidSignature)
    );
}

#[test]
fn signature_fails_for_a_truncated_or_extended_message() {
    let signer = renderer(3);
    let message = claim().to_signable_bytes();
    let signature = signer.sign(&message).to_bytes();
    let mut longer = message.clone();
    longer.push(0);
    assert_eq!(
        verify_signature(&longer, &signature, &public_key(&signer)),
        Err(SettlementError::InvalidSignature)
    );
    assert_eq!(
        verify_signature(&message[..96], &signature, &public_key(&signer)),
        Err(SettlementError::InvalidSignature)
    );
}

#[test]
fn signature_without_the_domain_tag_does_not_verify() {
    let signer = renderer(4);
    let message = claim().to_signable_bytes();
    let untagged = signer.sign(&message[17..]).to_bytes();
    assert_eq!(
        verify_signature(&message, &untagged, &public_key(&signer)),
        Err(SettlementError::InvalidSignature)
    );
}

#[test]
fn all_zero_signature_and_key_are_rejected() {
    let message = claim().to_signable_bytes();
    let zero_key = Pubkey::new_from_array([0u8; 32]);
    assert_eq!(
        verify_signature(&message, &[0u8; 64], &zero_key),
        Err(SettlementError::InvalidSignature)
    );
    let signer = renderer(5);
    assert_eq!(
        verify_signature(&message, &[0u8; 64], &public_key(&signer)),
        Err(SettlementError::InvalidSignature)
    );
}

#[test]
fn key_bytes_that_encode_no_point_are_rejected() {
    let signer = renderer(6);
    let message = claim().to_signable_bytes();
    let signature = signer.sign(&message).to_bytes();
    let mut rejected = 0;
    for low in 0u8..=255 {
        let mut bytes = [0xffu8; 32];
        bytes[0] = low;
        bytes[31] = 0x7f;
        let candidate = Pubkey::new_from_array(bytes);
        if ed25519_dalek::VerifyingKey::from_bytes(&bytes).is_err() {
            rejected += 1;
            assert_eq!(
                verify_signature(&message, &signature, &candidate),
                Err(SettlementError::InvalidSignature)
            );
        }
    }
    assert!(rejected > 0);
}

#[test]
fn verification_is_repeatable() {
    let signer = renderer(7);
    let message = claim().to_signable_bytes();
    let signature = signer.sign(&message).to_bytes();
    let key = public_key(&signer);
    let first = verify_signature(&message, &signature, &key);
    let second = verify_signature(&message, &signature, &key);
    assert_eq!(first, second);
    assert_eq!(first, Ok(()));
}
