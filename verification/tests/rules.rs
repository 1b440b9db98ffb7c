use anchor_market::error::{InstructionError, PredictionMarketError};
use anchor_market::instructions::claim::ClaimRewards;
use anchor_market::instructions::initialize::{InitializeMarket, InitializeMarketBumps};
use anchor_market::instructions::merge::MergeToken;
use anchor_market::instructions::split::SplitToken;
use anchor_market::instructions::winner::SetWinner;
use anchor_market::state::{Key, Market, WinningOutcome};
use anchor_market::token::{signer_of, signer_of_be, u32_be_bytes, u32_le_bytes, MintAccount, TokenAccount, TokenOp};
use anchor_market::{claim_reward, initialize, merge_tokens, set_winner_side, split_tokens};

fn key(n: u64) -> Key {
    Key { w0: n, w1: n.wrapping_mul(3), w2: 0, w3: 1 }
}

const MARKET: u64 = 1;
const AUTHORITY: u64 = 2;
const USDC: u64 = 3;
const VAULT: u64 = 4;
const A_MINT: u64 = 5;
const B_MINT: u64 = 6;
const USER: u64 = 10;
const USER_USDC: u64 = 11;
const USER_A: u64 = 12;
const USER_B: u64 = 13;

fn market() -> Market {
    Market {
        authority: key(AUTHORITY),
        market_id: 0x0102_0304,
        is_settled: false,
        expiry_ts: 1000,
        collateral_mint: key(USDC),
        collateral_vault: key(VAULT),
        outcome_a_mint: key(A_MINT),
        outcome_b_mint: key(B_MINT),
        winning_outcome: None,
        total_collateral_locked: 500,
        bump: 254,
    }
}

fn account(k: u64, mint: u64, owner: u64, amount: u64) -> TokenAccount {
    TokenAccount { key: key(k), mint: key(mint), owner: key(owner), amount }
}

fn split_ctx(m: Market) -> SplitToken {
    SplitToken {
        market_key: key(MARKET),
        market: m,
        user: key(USER),
        user_collateral: account(USER_USDC, USDC, USER, 1000),
        collateral_vault: account(VAULT, USDC, MARKET, 500),
        outcome_a_mint: key(A_MINT),
        outcome_b_mint: key(B_MINT),
        user_outcome_a: account(USER_A, A_MINT, USER, 70),
        user_outcome_b: account(USER_B, B_MINT, USER, 40),
    }
}

fn merge_ctx(m: Market) -> MergeToken {
    let s = split_ctx(m);
    MergeToken {
        market_key: s.market_key,
        market: s.market,
        user: s.user,
        user_collateral: s.user_collateral,
        collateral_vault: s.collateral_vault,
        outcome_a_mint: s.outcome_a_mint,
        outcome_b_mint: s.outcome_b_mint,
        user_outcome_a: s.user_outcome_a,
        user_outcome_b: s.user_outcome_b,
    }
}

fn settle_ctx(m: Market) -> SetWinner {
    SetWinner {
        authority: key(AUTHORITY),
        market_key: key(MARKET),
        market: m,
        outcome_a_mint: key(A_MINT),
        outcome_b_mint: key(B_MINT),
    }
}

fn claim_ctx(m: Market) -> ClaimRewards {
    let s = split_ctx(m);
    ClaimRewards {
        user: s.user,
        market_key: s.market_key,
        market: s.market,
        collateral_mint: MintAccount { key: key(USDC), decimals: 6 },
        user_collateral: s.user_collateral,
        collateral_vault: s.collateral_vault,
        outcome_a_mint: s.outcome_a_mint,
        outcome_b_mint: s.outcome_b_mint,
        user_outcome_a: s.user_outcome_a,
        user_outcome_b: s.user_outcome_b,
    }
}

fn settled(w: WinningOutcome) -> Market {
    Market { is_settled: true, winning_outcome: Some(w), ..market() }
}

fn rule(e: PredictionMarketError) -> InstructionError {
    InstructionError::Market(e)
}

#[test]
fn seed_bytes_are_exact() {
    assert_eq!(u32_le_bytes(0x0102_0304), (4, 3, 2, 1));
    assert_eq!(u32_be_bytes(0x0102_0304), (1, 2, 3, 4));
    assert_eq!(u32_le_bytes(1), (1, 0, 0, 0));
    assert_eq!(u32_le_bytes(u32::MAX), (255, 255, 255, 255));
    let m = market();
    assert_eq!(signer_of(&m).id_bytes, (4, 3, 2, 1));
    assert_eq!(signer_of(&m).bump, 254);
    assert_eq!(signer_of_be(&m).id_bytes, (1, 2, 3, 4));
}

#[test]
fn initialize_requires_future_expiry() {
    let bumps = InitializeMarketBumps { market: 9, collateral_vault: 8, outcome_a_mint: 7, outcome_b_mint: 6 };
    let mut ctx = InitializeMarket {
        market: market(),
        authority: key(AUTHORITY),
        collateral_mint: key(USDC),
        collateral_vault: key(VAULT),
        outcome_a_mint: key(A_MINT),
        outcome_b_mint: key(B_MINT),
    };
    let before = ctx;
    assert_eq!(
        initialize(&mut ctx, 5, 100, bumps, 100),
        Err(rule(PredictionMarketError::InvalidSettlementDeadline))
    );
    assert_eq!(ctx, before);
    assert_eq!(initialize(&mut ctx, 5, 101, bumps, 100), Ok(()));
    assert_eq!(ctx.market.market_id, 5);
    assert_eq!(ctx.market.expiry_ts, 101);
    assert_eq!(ctx.market.bump, 9);
    assert_eq!(ctx.market.total_collateral_locked, 0);
    assert!(!ctx.market.is_settled);
}

#[test]
fn split_issues_a_transfer_and_two_mints() {
    let mut ctx = split_ctx(market());
    let calls = split_tokens(&mut ctx, 0x0102_0304, 25, 999).unwrap();
    assert_eq!(calls.finish, Ok(()));
    let ops = calls.ops;
    let signer = signer_of(&market());
    assert_eq!(
        ops,
        vec![
            TokenOp::Transfer { from: key(USER_USDC), to: key(VAULT), authority: key(USER), amount: 25, signer: None },
            TokenOp::MintTo { mint: key(A_MINT), to: key(USER_A), authority: key(MARKET), amount: 25, signer: Some(signer) },
            TokenOp::MintTo { mint: key(B_MINT), to: key(USER_B), authority: key(MARKET), amount: 25, signer: Some(signer) },
        ]
    );
    assert_eq!(ctx.market.total_collateral_locked, 525);
}

#[test]
fn split_errors() {
    let mut ctx = split_ctx(market());
    assert_eq!(split_tokens(&mut ctx, 0x0102_0304, 0, 0), Err(rule(PredictionMarketError::InvalidAmount)));
    assert_eq!(split_tokens(&mut ctx, 0x0102_0304, 5, 1000), Err(rule(PredictionMarketError::MarketExpired)));
    let mut full = split_ctx(Market { total_collateral_locked: u64::MAX, ..market() });
    let calls = split_tokens(&mut full, 0x0102_0304, 1, 0).unwrap();
    assert_eq!(calls.ops.len(), 3);
    assert_eq!(calls.finish, Err(PredictionMarketError::MathOverflow));
    assert_eq!(full.market.total_collateral_locked, u64::MAX);
    let mut done = split_ctx(settled(WinningOutcome::OutcomeA));
    assert_eq!(split_tokens(&mut done, 0x0102_0304, 1, 0), Err(rule(PredictionMarketError::MarketAlreadySettled)));
    assert_eq!(split_tokens(&mut ctx, 7, 1, 0), Err(InstructionError::ConstraintViolated));
    let mut foreign = split_ctx(market());
    foreign.user_collateral.owner = key(99);
    assert_eq!(split_tokens(&mut foreign, 0x0102_0304, 1, 0), Err(InstructionError::ConstraintViolated));
    assert_eq!(ctx.market, market());
}

#[test]
fn merge_pays_min_of_pairs() {
    let mut ctx = merge_ctx(market());
    let ops = merge_tokens(&mut ctx, 0x0102_0304, 1, 0).unwrap();
    assert_eq!(
        ops,
        vec![
            TokenOp::Transfer {
                from: key(VAULT),
                to: key(USER_USDC),
                authority: key(MARKET),
                amount: 40,
                signer: Some(signer_of_be(&market())),
            },
            TokenOp::Burn { mint: key(A_MINT), from: key(USER_A), authority: key(USER), amount: 40, signer: None },
            TokenOp::Burn { mint: key(B_MINT), from: key(USER_B), authority: key(USER), amount: 40, signer: None },
        ]
    );
    assert_eq!(ctx, merge_ctx(market()));
}

#[test]
fn merge_errors() {
    let mut ctx = merge_ctx(market());
    assert_eq!(merge_tokens(&mut ctx, 0x0102_0304, 0, 0), Err(rule(PredictionMarketError::InvalidAmount)));
    assert_eq!(merge_tokens(&mut ctx, 0x0102_0304, 1, 1000), Err(rule(PredictionMarketError::MarketExpired)));
    ctx.user_outcome_b.amount = 0;
    assert_eq!(merge_tokens(&mut ctx, 0x0102_0304, 1, 0), Err(rule(PredictionMarketError::InvalidAmount)));
    let mut done = merge_ctx(settled(WinningOutcome::OutcomeB));
    assert_eq!(merge_tokens(&mut done, 0x0102_0304, 1, 0), Err(rule(PredictionMarketError::MarketAlreadySettled)));
    let mut stranger_vault = merge_ctx(market());
    stranger_vault.collateral_vault.owner = key(USER);
    assert_eq!(merge_tokens(&mut stranger_vault, 0x0102_0304, 1, 0), Err(InstructionError::ConstraintViolated));
}

#[test]
fn settlement_revokes_both_mint_authorities() {
    let mut ctx = settle_ctx(market());
    let ops = set_winner_side(&mut ctx, 0x0102_0304, WinningOutcome::OutcomeB, 999).unwrap();
    let signer = Some(signer_of(&market()));
    assert_eq!(
        ops,
        vec![
            TokenOp::RemoveMintAuthority { mint: key(A_MINT), current_authority: key(MARKET), signer },
            TokenOp::RemoveMintAuthority { mint: key(B_MINT), current_authority: key(MARKET), signer },
        ]
    );
    assert!(ctx.market.is_settled);
    assert_eq!(ctx.market.winning_outcome, Some(WinningOutcome::OutcomeB));
}

#[test]
fn settlement_errors() {
    let mut late = settle_ctx(market());
    assert_eq!(
        set_winner_side(&mut late, 0x0102_0304, WinningOutcome::OutcomeA, 1000),
        Err(rule(PredictionMarketError::MarketExpired))
    );
    assert!(!late.market.is_settled);
    let mut twice = settle_ctx(settled(WinningOutcome::OutcomeA));
    assert_eq!(
        set_winner_side(&mut twice, 0x0102_0304, WinningOutcome::OutcomeB, 0),
        Err(rule(PredictionMarketError::MarketAlreadySettled))
    );
    let mut intruder = settle_ctx(market());
    intruder.authority = key(USER);
    assert_eq!(
        set_winner_side(&mut intruder, 0x0102_0304, WinningOutcome::OutcomeA, 0),
        Err(InstructionError::ConstraintViolated)
    );
}

#[test]
fn claim_burns_winning_balance_and_pays_it() {
    let mut ctx = claim_ctx(settled(WinningOutcome::OutcomeA));
    let calls = claim_reward(&mut ctx, 0x0102_0304).unwrap();
    assert_eq!(calls.finish, Ok(()));
    let ops = calls.ops;
    assert_eq!(
        ops,
        vec![
            TokenOp::Burn { mint: key(A_MINT), from: key(USER_A), authority: key(USER), amount: 70, signer: None },
            TokenOp::TransferChecked {
                from: key(VAULT),
                to: key(USER_USDC),
                mint: key(USDC),
                authority: key(MARKET),
                amount: 70,
                decimals: 6,
                signer: Some(signer_of(&market())),
            },
        ]
    );
    assert_eq!(ctx.market.total_collateral_locked, 430);
    let mut b = claim_ctx(settled(WinningOutcome::OutcomeB));
    claim_reward(&mut b, 0x0102_0304).unwrap();
    assert_eq!(b.market.total_collateral_locked, 460);
}

#[test]
fn claim_errors() {
    let mut open = claim_ctx(market());
    assert_eq!(claim_reward(&mut open, 0x0102_0304), Err(rule(PredictionMarketError::MarketNotSettled)));
    let mut no_winner = claim_ctx(Market { is_settled: true, ..market() });
    assert_eq!(claim_reward(&mut no_winner, 0x0102_0304), Err(rule(PredictionMarketError::InvalidWinningOutcome)));
    let mut short = claim_ctx(Market { total_collateral_locked: 69, ..settled(WinningOutcome::OutcomeA) });
    let calls = claim_reward(&mut short, 0x0102_0304).unwrap();
    assert_eq!(calls.ops.len(), 2);
    assert_eq!(calls.finish, Err(PredictionMarketError::MathOverflow));
    assert_eq!(short.market.total_collateral_locked, 69);
    let mut wrong = claim_ctx(settled(WinningOutcome::OutcomeA));
    wrong.user_outcome_a.mint = key(B_MINT);
    assert_eq!(claim_reward(&mut wrong, 0x0102_0304), Err(InstructionError::ConstraintViolated));
}

#[test]
fn expired_open_market_refuses_everything() {
    let m = market();
    let now = m.expiry_ts;
    assert!(split_tokens(&mut split_ctx(m), m.market_id, 1, now).is_err());
    assert!(merge_tokens(&mut merge_ctx(m), m.market_id, 1, now).is_err());
    assert!(set_winner_side(&mut settle_ctx(m), m.market_id, WinningOutcome::OutcomeA, now).is_err());
    assert_eq!(claim_reward(&mut claim_ctx(m), m.market_id), Err(rule(PredictionMarketError::MarketNotSettled)));
}

#[test]
fn key_comparison() {
    assert!(key(5).same(&key(5)));
    assert!(!key(5).same(&key(6)));
}
