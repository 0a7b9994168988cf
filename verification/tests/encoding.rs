use samizdat::encoding::{i64_to_twos_complement, push_i64_le, push_u64_le};
use samizdat::{ProofPayloadV1, Pubkey, PROOF_DOMAIN_V1, PROOF_DOMAIN_V1_LEN, SIGNABLE_LEN};

fn key(byte: u8) -> Pubkey {
    Pubkey::new_from_array([byte; 32])
}

fn sample() -> ProofPayloadV1 {
    ProofPayloadV1 {
        ad: key(1),
        screen: key(2),
        nonce: 0x0102_0304_0506_0708,
        timestamp: 1_700_000_000,
    }
}

#[test]
fn domain_tag_is_the_protocol_name() {
    assert_eq!(&PROOF_DOMAIN_V1[..], b"samizdat:proof:v1");
    assert_eq!(PROOF_DOMAIN_V1.len(), PROOF_DOMAIN_V1_LEN);
    assert_eq!(SIGNABLE_LEN, 97);
}

#[test]
fn signable_bytes_have_the_exact_layout() {
    let payload = ProofPayloadV1 {
        ad: key(1),
        screen: key(2),
        nonce: 0x0102_0304_0506_0708,
        timestamp: -2,
    };
    let mut expected: Vec<u8> = Vec::new();
    expected.extend_from_slice(b"samizdat:proof:v1");
    expected.extend_from_slice(&[1u8; 32]);
    expected.extend_from_slice(&[2u8; 32]);
    expected.extend_from_slice(&[8, 7, 6, 5, 4, 3, 2, 1]);
    expected.extend_from_slice(&[0xfe, 0xff, 0xff, 0xff, 0xff, 0xff, 0xff, 0xff]);
    assert_eq!(payload.to_signable_bytes(), expected);
}

#[test]
fn signable_bytes_have_fixed_length() {
    let extremes = [
        (0u64, 0i64),
        (u64::MAX, i64::MAX),
        (1, i64::MIN),
        (u64::MAX, -1),
    ];
    for (nonce, timestamp) in extremes {
        let payload = ProofPayloadV1 { ad: key(0), screen: key(255), nonce, timestamp };
        assert_eq!(payload.to_signable_bytes().len(), 17 + 80);
    }
}

#[test]
fn signable_bytes_agree_with_std_little_endian() {
    let nonces = [0u64, 1, 255, 256, 0xdead_beef, u64::MAX - 1, u64::MAX];
    let timestamps = [0i64, 1, -1, 1_700_000_000, -1_700_000_000, i64::MAX, i64::MIN];
    for nonce in nonces {
        for timestamp in timestamps {
            let payload = ProofPayloadV1 { ad: key(9), screen: key(8), nonce, timestamp };
            let bytes = payload.to_signable_bytes();
            assert_eq!(&bytes[..17], &PROOF_DOMAIN_V1[..]);
            assert_eq!(&bytes[17..49], &[9u8; 32][..]);
            assert_eq!(&bytes[49..81], &[8u8; 32][..]);
            assert_eq!(&bytes[81..89], &nonce.to_le_bytes()[..]);
            assert_eq!(&bytes[89..97], &timestamp.to_le_bytes()[..]);
        }
    }
}

#[test]
fn encoding_is_deterministic() {
    let payload = sample();
    assert_eq!(payload.to_signable_bytes(), payload.to_signable_bytes());
    assert_eq!(payload.to_signable_bytes(), sample().to_signable_bytes());
}

#[test]
fn changing_any_single_field_changes_the_bytes() {
    let base = sample();
    let reference = base.to_signable_bytes();
    let other_ad = ProofPayloadV1 { ad: key(3), ..base };
    let other_screen = ProofPayloadV1 { screen: key(3), ..base };
    let other_nonce = ProofPayloadV1 { nonce: base.nonce + 1, ..base };
    let other_timestamp = ProofPayloadV1 { timestamp: base.timestamp - 1, ..base };
    assert_ne!(other_ad.to_signable_bytes(), reference);
    assert_ne!(other_screen.to_signable_bytes(), reference);
    assert_ne!(other_nonce.to_signable_bytes(), reference);
    assert_ne!(other_timestamp.to_signable_bytes(), reference);
}

#[test]
fn changing_one_bit_of_a_key_changes_the_bytes() {
    let base = sample();
    let reference = base.to_signable_bytes();
    for index in 0..32 {
        let mut ad = [1u8; 32];
        ad[index] ^= 0x80;
        let changed = ProofPayloadV1 { ad: Pubkey::new_from_array(ad), ..base };
        let bytes = changed.to_signable_bytes();
        assert_ne!(bytes, reference);
        assert_eq!(bytes[17 + index], 0x81);
    }
}

#[test]
fn swapping_ad_and_screen_changes_the_bytes() {
    let base = sample();
    let swapped = ProofPayloadV1 { ad: base.screen, screen: base.ad, ..base };
    assert_ne!(swapped.to_signable_bytes(), base.to_signable_bytes());
}

#[test]
fn push_u64_le_appends_eight_bytes() {
    let mut buf: Vec<u8> = vec![0xaa];
    push_u64_le(&mut buf, 0x1122_3344_5566_7788);
    assert_eq!(buf, vec![0xaa, 0x88, 0x77, 0x66, 0x55, 0x44, 0x33, 0x22, 0x11]);
    push_u64_le(&mut buf, 0);
    assert_eq!(buf.len(), 17);
    assert_eq!(&buf[9..], &[0u8; 8][..]);
}

#[test]
fn push_i64_le_uses_twos_complement() {
    let mut buf: Vec<u8> = Vec::new();
    push_i64_le(&mut buf, -1);
    assert_eq!(buf, vec![0xff; 8]);
    let mut buf: Vec<u8> = Vec::new();
    push_i64_le(&mut buf, i64::MIN);
    assert_eq!(buf, vec![0, 0, 0, 0, 0, 0, 0, 0x80]);
    let mut buf: Vec<u8> = Vec::new();
    push_i64_le(&mut buf, 258);
    assert_eq!(buf, vec![2, 1, 0, 0, 0, 0, 0, 0]);
}

#[test]
fn twos_complement_keeps_the_bit_pattern() {
    assert_eq!(i64_to_twos_complement(0), 0);
    assert_eq!(i64_to_twos_complement(42), 42);
    assert_eq!(i64_to_twos_complement(i64::MAX), 0x7fff_ffff_ffff_ffff);
    assert_eq!(i64_to_twos_complement(-1), u64::MAX);
    assert_eq!(i64_to_twos_complement(-2), u64::MAX - 1);
    assert_eq!(i64_to_twos_complement(i64::MIN), 0x8000_0000_0000_0000);
    for value in [-5i64, -1_700_000_000, 77, i64::MIN + 1] {
        assert_eq!(i64_to_twos_complement(value), u64::from_le_bytes(value.to_le_bytes()));
    }
}

#[test]
fn pubkey_round_trips_its_bytes() {
    let mut bytes = [0u8; 32];
    for (index, byte) in bytes.iter_mut().enumerate() {
        *byte = index as u8;
    }
    let key = Pubkey::new_from_array(bytes);
    assert_eq!(key.to_bytes(), bytes);
    assert_eq!(key.bytes, bytes);
}

#[test]
fn pubkey_equality_is_bytewise() {
    let a = key(4);
    let b = key(4);
    assert!(a == b);
    for index in 0..32 {
        let mut bytes = [4u8; 32];
        bytes[index] = 5;
        assert!(a != Pubkey::new_from_array(bytes));
    }
}
