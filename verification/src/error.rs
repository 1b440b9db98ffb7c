use vstd::prelude::*;

verus! {

/// The errors that the market's own rules raise.
#[derive(Clone, Copy, Debug, PartialEq, Eq, Structural)]
pub enum PredictionMarketError {
    /// The expiry given at creation is not in the future.
    InvalidSettlementDeadline,
    /// The market has already been settled.
    MarketAlreadySettled,
    /// A zero amount, or nothing to merge.
    InvalidAmount,
    /// The market's expiry time has been reached.
    MarketExpired,
    /// A claim on a market that is not settled.
    MarketNotSettled,
    /// A settled market without a winner, or an unusable winner.
    InvalidWinningOutcome,
    /// The locked-collateral counter would overflow or underflow.
    MathOverflow,
}

/// What an instruction of the program can fail with: an account that breaks
/// one of the instruction's account constraints, or a market rule.
#[derive(Clone, Copy, Debug, PartialEq, Eq, Structural)]
pub enum InstructionError {
    ConstraintViolated,
    Market(PredictionMarketError),
}

} // verus!
