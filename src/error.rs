use vstd::prelude::*;

verus! {

/// Every failure the engine reports.
#[derive(Clone, Copy, Debug, PartialEq, Eq, Structural)]
pub enum ErrorCode {
    Unauthorized,
    InvalidGuess,
    InvalidBetAmount,
    BetOutOfRange,
    RandomnessAlreadyRevealed,
    RandomnessNotResolved,
    RandomnessExpired,
    InvalidRandomnessAccount,
    InvalidRandomnessData,
    InvalidAmount,
    InsufficientRentBalance,
    InsufficientTreasuryBalance,
    WithdrawalLimitExceeded,
    InsufficientTreasuryFunds,
    MathOverflow,
    /// The paying account holds less than the amount to move.
    InsufficientFunds,
    /// The session or treasury record exists already.
    AlreadyInitialized,
    /// The session has been settled; a session settles once.
    AlreadySettled,
}

} // verus!
