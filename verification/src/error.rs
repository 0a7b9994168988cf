use vstd::prelude::*;

verus! {

/// Why a display proof was not settled.
///
/// Every failure is final for the attempt that produced it: nothing is
/// retried and no record is changed.
#[derive(Clone, Copy, Debug, PartialEq, Eq, Structural)]
pub enum SettlementError {
    /// The signature does not verify under the screen's signing key.
    InvalidSignature,
    /// The claimed nonce is not greater than the screen's last accepted nonce.
    ReplayedNonce,
    /// The campaign is not accepting proofs.
    AdInactive,
    /// The screen is not accepting proofs.
    ScreenInactive,
    /// The campaign is bound to a different screen.
    ScreenMismatch,
    /// The campaign has used all of its plays.
    BudgetExhausted,
    /// The funds left in escrow do not cover one more payout.
    InsufficientEscrow,
    /// A counter or balance computation left the range of a `u64`.
    ArithmeticOverflow,
}

} // verus!
