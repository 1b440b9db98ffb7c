//! A binary prediction market: collateral is split into pairs of outcome
//! tokens, pairs merge back into collateral, the market's authority settles
//! the winner before expiry, and winning tokens redeem one for one.
//!
//! Each instruction checks its accounts, applies the market's rules to the
//! market account, and returns the token-program instructions that carry
//! out the transfers, mints and burns, in the order they must be issued.
use vstd::prelude::*;

pub mod error;
pub mod instructions;
pub mod laws;
pub mod ledger;
pub mod outcomes;
pub mod state;
pub mod token;

use crate::error::{InstructionError, PredictionMarketError};
use crate::instructions::claim::ClaimRewards;
use crate::instructions::initialize::{InitializeMarket, InitializeMarketBumps};
use crate::instructions::merge::MergeToken;
use crate::instructions::split::SplitToken;
use crate::instructions::winner::SetWinner;
use crate::state::WinningOutcome;
use crate::token::{TokenCalls, TokenOp};

verus! {


/// The instruction that creates market `market_id`, trading until
/// `expiry_ts`; `now` is the current Unix time.
pub fn initialize(
    ctx: &mut InitializeMarket,
    market_id: u32,
    expiry_ts: i64,
    bumps: InitializeMarketBumps,
    now: i64,
) -> (r: Result<(), InstructionError>)
    ensures
        r is Ok <==> expiry_ts > now,
        r is Ok ==> *final(ctx) == (InitializeMarket {
            market: old(ctx).new_market(market_id, expiry_ts, bumps),
            ..*old(ctx)
        }),
        r is Err ==> r == Err::<(), InstructionError>(
            InstructionError::Market(PredictionMarketError::InvalidSettlementDeadline),
        ) && *final(ctx) == *old(ctx),
{
    match ctx.initilize_market(market_id, expiry_ts, bumps, now) {
        Ok(()) => Ok(()),
        Err(e) => Err(InstructionError::Market(e)),
    }
}

/// The instruction that splits `amount` collateral into outcome pairs on
/// market `market_id`; `now` is the current Unix time.
pub fn split_tokens(ctx: &mut SplitToken, market_id: u32, amount: u64, now: i64) -> (r: Result<
    TokenCalls,
    InstructionError,
>)
    ensures
        !old(ctx).accounts_valid(market_id) ==> r == Err::<TokenCalls, InstructionError>(
            InstructionError::ConstraintViolated,
        ) && *final(ctx) == *old(ctx),
        old(ctx).accounts_valid(market_id) ==> match old(ctx).split_checks(amount, now) {
            Err(e) => r == Err::<TokenCalls, InstructionError>(InstructionError::Market(e))
                && *final(ctx) == *old(ctx),
            Ok(()) => r matches Ok(calls) && calls.ops@ == old(ctx).split_ops(amount) && match old(
                ctx,
            ).split_result(amount, now) {
                Ok(m) => calls.finish is Ok && *final(ctx) == (SplitToken { market: m, ..*old(ctx) }),
                Err(e) => calls.finish == Err::<(), PredictionMarketError>(e) && *final(ctx) == *old(ctx),
            },
        },
{
    if !ctx.validate(market_id) {
        return Err(InstructionError::ConstraintViolated);
    }
    match ctx.split_token(market_id, amount, now) {
        Ok(calls) => Ok(calls),
        Err(e) => Err(InstructionError::Market(e)),
    }
}

/// The instruction that merges the user's outcome pairs back into
/// collateral on market `market_id`; `now` is the current Unix time.
pub fn merge_tokens(ctx: &mut MergeToken, market_id: u32, amount: u64, now: i64) -> (r: Result<
    Vec<TokenOp>,
    InstructionError,
>)
    ensures
        *final(ctx) == *old(ctx),
        !old(ctx).accounts_valid(market_id) ==> r == Err::<Vec<TokenOp>, InstructionError>(
            InstructionError::ConstraintViolated,
        ),
        old(ctx).accounts_valid(market_id) ==> match old(ctx).merge_result(amount, now) {
            Ok(p) => r matches Ok(ops) && ops@ == old(ctx).merge_ops(p),
            Err(e) => r == Err::<Vec<TokenOp>, InstructionError>(InstructionError::Market(e)),
        },
{
    if !ctx.validate(market_id) {
        return Err(InstructionError::ConstraintViolated);
    }
    match ctx.merge_tokens(market_id, amount, now) {
        Ok(ops) => Ok(ops),
        Err(e) => Err(InstructionError::Market(e)),
    }
}

/// The instruction with which the market's authority settles market
/// `market_id` with `winner`; `now` is the current Unix time.
pub fn set_winner_side(ctx: &mut SetWinner, market_id: u32, winner: WinningOutcome, now: i64) -> (r: Result<
    Vec<TokenOp>,
    InstructionError,
>)
    ensures
        !old(ctx).accounts_valid(market_id) ==> r == Err::<Vec<TokenOp>, InstructionError>(
            InstructionError::ConstraintViolated,
        ) && *final(ctx) == *old(ctx),
        old(ctx).accounts_valid(market_id) ==> match old(ctx).settle_result(winner, now) {
            Ok(m) => r matches Ok(ops) && ops@ == old(ctx).settle_ops()
                && *final(ctx) == (SetWinner { market: m, ..*old(ctx) }),
            Err(e) => r == Err::<Vec<TokenOp>, InstructionError>(InstructionError::Market(e))
                && *final(ctx) == *old(ctx),
        },
{
    if !ctx.validate(market_id) {
        return Err(InstructionError::ConstraintViolated);
    }
    match ctx.set_winner(market_id, winner, now) {
        Ok(ops) => Ok(ops),
        Err(e) => Err(InstructionError::Market(e)),
    }
}

/// The instruction that redeems the user's winning tokens on market
/// `market_id`.
pub fn claim_reward(ctx: &mut ClaimRewards, market_id: u32) -> (r: Result<TokenCalls, InstructionError>)
    ensures
        !old(ctx).accounts_valid(market_id) ==> r == Err::<TokenCalls, InstructionError>(
            InstructionError::ConstraintViolated,
        ) && *final(ctx) == *old(ctx),
        old(ctx).accounts_valid(market_id) ==> match old(ctx).claim_checks() {
            Err(e) => r == Err::<TokenCalls, InstructionError>(InstructionError::Market(e))
                && *final(ctx) == *old(ctx),
            Ok(()) => r matches Ok(calls) && calls.ops@ == old(ctx).claim_ops() && match old(
                ctx,
            ).claim_result() {
                Ok(m) => calls.finish is Ok && *final(ctx) == (ClaimRewards { market: m, ..*old(ctx) }),
                Err(e) => calls.finish == Err::<(), PredictionMarketError>(e) && *final(ctx) == *old(ctx),
            },
        },
{
    if !ctx.validate(market_id) {
        return Err(InstructionError::ConstraintViolated);
    }
    match ctx.claim_rewards(market_id) {
        Ok(calls) => Ok(calls),
        Err(e) => Err(InstructionError::Market(e)),
    }
}

} // verus!
