use crate::encoding::{
    i64_le_bytes, lemma_i64_le_injective, lemma_u64_le_injective, push_i64_le, push_u64_le,
    u64_le_bytes,
};
use crate::pubkey::{Pubkey, PUBKEY_BYTES};
use vstd::prelude::*;

verus! {

/// Number of bytes in [`PROOF_DOMAIN_V1`].
pub const PROOF_DOMAIN_V1_LEN: usize = 17;

/// Domain-separation tag of version 1 display proofs: the ASCII text
/// `samizdat:proof:v1`.
///
/// It is the prefix of every signable message, so a signature made for another
/// protocol, or for a later payload version, never verifies here.
pub const PROOF_DOMAIN_V1: [u8; 17] = [
    0x73, 0x61, 0x6d, 0x69, 0x7a, 0x64, 0x61, 0x74, 0x3a,
    0x70, 0x72, 0x6f, 0x6f, 0x66, 0x3a,
    0x76, 0x31,
];

/// Number of bytes in every signable message: the tag, two keys and two
/// 64-bit numbers.
pub const SIGNABLE_LEN: usize = PROOF_DOMAIN_V1_LEN + 80;

/// The claim that a screen showed an ad: what the renderer signs.
///
/// A payload is built from the inputs of one submission, encoded, verified and
/// dropped; only its effect on the records persists.
#[derive(Clone, Copy, Debug, PartialEq, Eq)]
pub struct ProofPayloadV1 {
    /// Address of the campaign that was displayed.
    pub ad: Pubkey,
    /// Address of the screen that displayed it.
    pub screen: Pubkey,
    /// The screen's proof counter for this claim.
    pub nonce: u64,
    /// When the ad was displayed, as the renderer reports it.
    pub timestamp: i64,
}

impl ProofPayloadV1 {
    /// The message to sign: the domain tag, the 32 bytes of `ad`, the 32 bytes
    /// of `screen`, `nonce` as 8 little-endian bytes, and `timestamp` as 8
    /// little-endian two's complement bytes, in that order.
    pub open spec fn signable_bytes(self) -> Seq<u8> {
        PROOF_DOMAIN_V1@ + self.ad@ + self.screen@ + u64_le_bytes(self.nonce) + i64_le_bytes(
            self.timestamp,
        )
    }

    /// Encodes the domain tag and the payload into the message to sign.
    pub fn to_signable_bytes(&self) -> (message: Vec<u8>)
        ensures
            message@ == self.signable_bytes(),
            message@.len() == SIGNABLE_LEN,
    {
        let mut buf: Vec<u8> = Vec::with_capacity(SIGNABLE_LEN);
        let ad: [u8; PUBKEY_BYTES] = self.ad.to_bytes();
        let screen: [u8; PUBKEY_BYTES] = self.screen.to_bytes();
        buf.extend_from_slice(PROOF_DOMAIN_V1.as_slice());
        buf.extend_from_slice(ad.as_slice());
        buf.extend_from_slice(screen.as_slice());
        push_u64_le(&mut buf, self.nonce);
        push_i64_le(&mut buf, self.timestamp);
        buf
    }

    /// Every signable message has the same layout: the tag in its first 17
    /// bytes, then `ad`, `screen`, `nonce` and `timestamp` at fixed offsets.
    pub proof fn lemma_signable_layout(self)
        ensures
            self.signable_bytes().len() == SIGNABLE_LEN,
            self.signable_bytes().subrange(0, 17) == PROOF_DOMAIN_V1@,
            self.signable_bytes().subrange(17, 49) == self.ad@,
            self.signable_bytes().subrange(49, 81) == self.screen@,
            self.signable_bytes().subrange(81, 89) == u64_le_bytes(self.nonce),
            self.signable_bytes().subrange(89, 97) == i64_le_bytes(self.timestamp),
    {
    }

    /// Encoding is a function of the four fields, and no two different
    /// payloads share a message: changing `ad`, `screen`, `nonce` or
    /// `timestamp` changes the bytes.
    pub proof fn lemma_signable_bytes_injective(a: ProofPayloadV1, b: ProofPayloadV1)
        ensures
            (a.signable_bytes() == b.signable_bytes()) <==> (a == b),
    {
        if a.signable_bytes() == b.signable_bytes() {
            a.lemma_signable_layout();
            b.lemma_signable_layout();
            Pubkey::lemma_view_injective(a.ad, b.ad);
            Pubkey::lemma_view_injective(a.screen, b.screen);
            lemma_u64_le_injective(a.nonce, b.nonce);
            lemma_i64_le_injective(a.timestamp, b.timestamp);
        }
    }
}

} // verus!
