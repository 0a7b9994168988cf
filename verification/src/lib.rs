//! Proof-of-display settlement: the signable encoding of a display claim,
//! signature and replay checks, campaign eligibility, and the all-or-nothing
//! state transition that pays a bounty for an accepted claim.

pub mod eligibility;
pub mod encoding;
pub mod error;
pub mod management;
pub mod payload;
pub mod pubkey;
pub mod replay;
pub mod settlement;
pub mod signature;
pub mod state;

pub use error::SettlementError;
pub use management::ManagementError;
pub use payload::{ProofPayloadV1, PROOF_DOMAIN_V1, PROOF_DOMAIN_V1_LEN, SIGNABLE_LEN};
pub use pubkey::{Pubkey, PUBKEY_BYTES};
pub use settlement::{settle, submit_proof, SettlementReceipt};
pub use signature::{verify_signature, SIGNATURE_BYTES};
pub use state::{
    AdAccount, Dimensions, ScreenAccount, MAX_CONTENT_CID_LEN, SEED_AD, SEED_SCREEN, TAG_ALCOHOL,
    TAG_BETTING, TAG_CRYPTO, TAG_NONE, TAG_NSFW, TAG_POLITICAL,
};
