//! What each instruction gives, stated directly over its inputs: when it
//! succeeds, which error it fails with otherwise, the market it leaves and
//! the amounts that its token instructions move.
use vstd::prelude::*;
use crate::error::PredictionMarketError;
use crate::instructions::claim::ClaimRewards;
use crate::instructions::initialize::{InitializeMarket, InitializeMarketBumps};
use crate::instructions::merge::MergeToken;
use crate::instructions::split::SplitToken;
use crate::instructions::winner::SetWinner;
use crate::state::{Market, WinningOutcome};
use crate::token::{be_bytes, le_bytes, market_signer, market_signer_be, MarketSigner, TokenOp};

verus! {

/// A split of a positive amount on an open market before its expiry passes
/// its checks, and succeeds exactly when the locked-collateral counter plus
/// the amount still fits in a `u64`; it then raises the counter by exactly
/// the amount and changes nothing else of the market. Otherwise it fails
/// with `MathOverflow`, and with no other error.
pub proof fn split_succeeds_unless_the_counter_overflows(ctx: SplitToken, amount: u64, now: i64)
    requires
        !ctx.market.is_settled,
        amount > 0,
        now < ctx.market.expiry_ts,
    ensures
        ctx.split_checks(amount, now) == Ok::<(), PredictionMarketError>(()),
        ctx.split_result(amount, now) is Ok <==> ctx.market.total_collateral_locked + amount <= u64::MAX,
        ctx.split_result(amount, now) is Err ==> ctx.split_result(amount, now) == Err::<
            Market,
            PredictionMarketError,
        >(PredictionMarketError::MathOverflow),
        ctx.split_result(amount, now) matches Ok(m) ==> m.total_collateral_locked
            == ctx.market.total_collateral_locked + amount && (Market {
            total_collateral_locked: ctx.market.total_collateral_locked,
            ..m
        }) == ctx.market,
{
}

/// A split is refused, before any token instruction, on a settled market
/// (`MarketAlreadySettled`), then for a zero amount (`InvalidAmount`), then
/// at or after the expiry (`MarketExpired`).
pub proof fn split_refusals(ctx: SplitToken, amount: u64, now: i64)
    ensures
        ctx.market.is_settled ==> ctx.split_checks(amount, now) == Err::<(), PredictionMarketError>(
            PredictionMarketError::MarketAlreadySettled,
        ),
        !ctx.market.is_settled && amount == 0 ==> ctx.split_checks(amount, now) == Err::<
            (),
            PredictionMarketError,
        >(PredictionMarketError::InvalidAmount),
        !ctx.market.is_settled && amount > 0 && now >= ctx.market.expiry_ts ==> ctx.split_checks(amount, now)
            == Err::<(), PredictionMarketError>(PredictionMarketError::MarketExpired),
        ctx.split_checks(amount, now) is Err ==> ctx.split_result(amount, now) == Err::<
            Market,
            PredictionMarketError,
        >(ctx.split_checks(amount, now)->Err_0),
{
}

/// A split of `amount` moves `amount` collateral from the user's account
/// to the vault, signed by the user, then mints `amount` of outcome A and
/// `amount` of outcome B to the user's outcome accounts, signed by the
/// market's address with its own seeds.
pub proof fn split_moves_the_amount(ctx: SplitToken, amount: u64)
    ensures
        ctx.split_ops(amount).len() == 3,
        ctx.split_ops(amount)[0] matches TokenOp::Transfer { from, to, authority, amount: a, signer }
            && from == ctx.user_collateral.key && to == ctx.collateral_vault.key && authority == ctx.user
            && a == amount && signer is None,
        ctx.split_ops(amount)[1] matches TokenOp::MintTo { mint, to, authority, amount: a, signer }
            && mint == ctx.outcome_a_mint && to == ctx.user_outcome_a.key && authority == ctx.market_key
            && a == amount && signer == Some(market_signer(ctx.market)),
        ctx.split_ops(amount)[2] matches TokenOp::MintTo { mint, to, authority, amount: a, signer }
            && mint == ctx.outcome_b_mint && to == ctx.user_outcome_b.key && authority == ctx.market_key
            && a == amount && signer == Some(market_signer(ctx.market)),
{
}

/// A claim burns the user's whole balance of the winning outcome token and
/// pays exactly the same amount of collateral from the vault to the user:
/// what it pays equals what it burns, whatever the size of the balance.
pub proof fn claim_pays_what_it_burns(ctx: ClaimRewards)
    requires
        ctx.market.winning_outcome is Some,
    ensures
        ({
            let winner_a = ctx.market.winning_outcome == Some(WinningOutcome::OutcomeA);
            let held = if winner_a { ctx.user_outcome_a } else { ctx.user_outcome_b };
            let mint = if winner_a { ctx.outcome_a_mint } else { ctx.outcome_b_mint };
            &&& ctx.claim_ops().len() == 2
            &&& ctx.claim_ops()[0] matches TokenOp::Burn { mint: m, from, authority, amount: burnt, signer }
                && m == mint && from == held.key && authority == ctx.user && burnt == held.amount
                && signer is None
            &&& ctx.claim_ops()[1] matches TokenOp::TransferChecked {
                from,
                to,
                mint: m,
                authority,
                amount: paid,
                decimals,
                signer,
            } && from == ctx.collateral_vault.key && to == ctx.user_collateral.key && m
                == ctx.collateral_mint.key && authority == ctx.market_key && paid == held.amount && decimals
                == ctx.collateral_mint.decimals && signer == Some(market_signer(ctx.market))
        }),
{
}

/// A claim on a settled market with a winner passes its checks; it then
/// lowers the locked-collateral counter by the user's whole winning balance
/// and changes nothing else of the market, and fails with `MathOverflow`
/// exactly where the counter is below that balance. A claim on an open
/// market fails with `MarketNotSettled`.
pub proof fn claim_releases_the_balance(ctx: ClaimRewards)
    ensures
        !ctx.market.is_settled ==> ctx.claim_checks() == Err::<(), PredictionMarketError>(
            PredictionMarketError::MarketNotSettled,
        ) && ctx.claim_result() == Err::<Market, PredictionMarketError>(
            PredictionMarketError::MarketNotSettled,
        ),
        ctx.market.is_settled && ctx.market.winning_outcome is Some ==> ({
            let held = if ctx.market.winning_outcome == Some(WinningOutcome::OutcomeA) {
                ctx.user_outcome_a.amount
            } else {
                ctx.user_outcome_b.amount
            };
            &&& ctx.claim_checks() == Ok::<(), PredictionMarketError>(())
            &&& (ctx.claim_result() is Ok <==> held <= ctx.market.total_collateral_locked)
            &&& (ctx.claim_result() is Err ==> ctx.claim_result() == Err::<Market, PredictionMarketError>(
                PredictionMarketError::MathOverflow,
            ))
            &&& (ctx.claim_result() matches Ok(m) ==> m.total_collateral_locked + held
                == ctx.market.total_collateral_locked && (Market {
                total_collateral_locked: ctx.market.total_collateral_locked,
                ..m
            }) == ctx.market)
        }),
{
}

/// A merge of a positive amount on an open market before its expiry pays
/// out the number of complete pairs the user holds, the smaller of the two
/// outcome balances, whatever its size; it fails, with `InvalidAmount`,
/// only where the user holds no complete pair.
pub proof fn merge_pays_complete_pairs(ctx: MergeToken, amount: u64, now: i64)
    requires
        !ctx.market.is_settled,
        amount > 0,
        now < ctx.market.expiry_ts,
    ensures
        ({
            let a = ctx.user_outcome_a.amount;
            let b = ctx.user_outcome_b.amount;
            &&& a > 0 && b > 0 ==> ctx.merge_result(amount, now) is Ok
            &&& ctx.merge_result(amount, now) matches Ok(p) ==> p <= a && p <= b && (p == a || p == b)
            &&& (a == 0 || b == 0) ==> ctx.merge_result(amount, now) == Err::<u64, PredictionMarketError>(
                PredictionMarketError::InvalidAmount,
            )
        }),
{
}

/// A merge is refused on a settled market (`MarketAlreadySettled`), then
/// for a zero amount (`InvalidAmount`), then at or after the expiry
/// (`MarketExpired`).
pub proof fn merge_refusals(ctx: MergeToken, amount: u64, now: i64)
    ensures
        ctx.market.is_settled ==> ctx.merge_result(amount, now) == Err::<u64, PredictionMarketError>(
            PredictionMarketError::MarketAlreadySettled,
        ),
        !ctx.market.is_settled && amount == 0 ==> ctx.merge_result(amount, now) == Err::<
            u64,
            PredictionMarketError,
        >(PredictionMarketError::InvalidAmount),
        !ctx.market.is_settled && amount > 0 && now >= ctx.market.expiry_ts ==> ctx.merge_result(amount, now)
            == Err::<u64, PredictionMarketError>(PredictionMarketError::MarketExpired),
{
}

/// A merge paying `payout` moves `payout` collateral from the vault to the
/// user, signed with the market id's big-endian bytes, and burns `payout` of each of the user's outcome tokens.
pub proof fn merge_moves_the_payout(ctx: MergeToken, payout: u64)
    ensures
        ctx.merge_ops(payout).len() == 3,
        ctx.merge_ops(payout)[0] matches TokenOp::Transfer { from, to, authority, amount, signer }
            && from == ctx.collateral_vault.key && to == ctx.user_collateral.key && authority
            == ctx.market_key && amount == payout && signer == Some(market_signer_be(ctx.market)),
        ctx.merge_ops(payout)[1] matches TokenOp::Burn { mint, from, authority, amount, signer }
            && mint == ctx.outcome_a_mint && from == ctx.user_outcome_a.key && authority == ctx.user
            && amount == payout && signer is None,
        ctx.merge_ops(payout)[2] matches TokenOp::Burn { mint, from, authority, amount, signer }
            && mint == ctx.outcome_b_mint && from == ctx.user_outcome_b.key && authority == ctx.user
            && amount == payout && signer is None,
{
}

/// Settlement of an open market before its expiry succeeds, whatever the
/// collateral locked in it: the market becomes settled with `winner`
/// recorded, and nothing else of it changes. It fails on a settled market
/// with `MarketAlreadySettled`, and on an open one at or after its expiry
/// with `MarketExpired`.
pub proof fn settlement_succeeds_before_expiry(ctx: SetWinner, winner: WinningOutcome, now: i64)
    ensures
        !ctx.market.is_settled && now < ctx.market.expiry_ts ==> (ctx.settle_result(winner, now) matches Ok(m)
            && m.is_settled && m.winning_outcome == Some(winner) && (Market {
            is_settled: ctx.market.is_settled,
            winning_outcome: ctx.market.winning_outcome,
            ..m
        }) == ctx.market),
        ctx.market.is_settled ==> ctx.settle_result(winner, now) == Err::<Market, PredictionMarketError>(
            PredictionMarketError::MarketAlreadySettled,
        ),
        !ctx.market.is_settled && now >= ctx.market.expiry_ts ==> ctx.settle_result(winner, now) == Err::<
            Market,
            PredictionMarketError,
        >(PredictionMarketError::MarketExpired),
{
}

/// Settlement removes the mint authority of both outcome mints, signed by
/// the market's address with its own seeds.
pub proof fn settlement_removes_both_mint_authorities(ctx: SetWinner)
    ensures
        ctx.settle_ops().len() == 2,
        ctx.settle_ops()[0] == (TokenOp::RemoveMintAuthority {
            mint: ctx.outcome_a_mint,
            current_authority: ctx.market_key,
            signer: Some(market_signer(ctx.market)),
        }),
        ctx.settle_ops()[1] == (TokenOp::RemoveMintAuthority {
            mint: ctx.outcome_b_mint,
            current_authority: ctx.market_key,
            signer: Some(market_signer(ctx.market)),
        }),
{
}

/// The market that creation writes records the market address's own bump,
/// so that its signer seeds are the id's little-endian bytes and that bump;
/// it is open, without winner and with nothing locked, and bound to the
/// creator as authority and to the accounts created with it.
pub proof fn creation_records_the_market_bump(
    ctx: InitializeMarket,
    market_id: u32,
    expiry_ts: i64,
    bumps: InitializeMarketBumps,
)
    ensures
        ({
            let m = ctx.new_market(market_id, expiry_ts, bumps);
            &&& m.bump == bumps.market
            &&& market_signer(m) == (MarketSigner { id_bytes: le_bytes(market_id), bump: bumps.market })
            &&& m.market_id == market_id
            &&& m.expiry_ts == expiry_ts
            &&& m.authority == ctx.authority
            &&& m.collateral_mint == ctx.collateral_mint
            &&& m.collateral_vault == ctx.collateral_vault
            &&& m.outcome_a_mint == ctx.outcome_a_mint
            &&& m.outcome_b_mint == ctx.outcome_b_mint
            &&& !m.is_settled
            &&& m.winning_outcome is None
            &&& m.total_collateral_locked == 0
        }),
{
}

/// The signer seeds spell the market id in bytes: read little-endian, the
/// bytes of `le_bytes(x)` give back `x`, and read big-endian, those of
/// `be_bytes(x)` do.
pub proof fn id_bytes_spell_the_id(x: u32)
    ensures
        le_bytes(x).0 + 256 * le_bytes(x).1 + 65536 * le_bytes(x).2 + 16777216 * le_bytes(x).3 == x,
        be_bytes(x).3 + 256 * be_bytes(x).2 + 65536 * be_bytes(x).1 + 16777216 * be_bytes(x).0 == x,
{
    let b0 = x % 256;
    let q0 = x / 256;
    let b1 = q0 % 256;
    let q1 = q0 / 256;
    let b2 = q1 % 256;
    let b3 = q1 / 256;
    assert(x == b0 + 256 * q0) by (nonlinear_arith)
        requires
            b0 == x % 256,
            q0 == x / 256,
    ;
    assert(q0 == b1 + 256 * q1) by (nonlinear_arith)
        requires
            b1 == q0 % 256,
            q1 == q0 / 256,
    ;
    assert(q1 == b2 + 256 * b3) by (nonlinear_arith)
        requires
            b2 == q1 % 256,
            b3 == q1 / 256,
    ;
    assert(q0 == x / 256 && q1 == x / 65536 && b3 == x / 16777216) by (nonlinear_arith)
        requires
            q0 == x / 256,
            q1 == q0 / 256,
            b3 == q1 / 256,
            0 <= x,
    ;
    assert(b3 < 256) by (nonlinear_arith)
        requires
            b3 == x / 16777216,
            x < 0x1_0000_0000,
    ;
}

} // verus!
