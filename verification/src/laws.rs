use vstd::prelude::*;
use crate::error::PredictionMarketError;
use crate::instructions::claim::ClaimRewards;
use crate::instructions::initialize::{InitializeMarket, InitializeMarketBumps};
use crate::instructions::merge::MergeToken;
use crate::instructions::split::SplitToken;
use crate::instructions::winner::SetWinner;
use crate::ledger::{apply_op, apply_ops, backed, changed_by, signed_by, supply, vault_balance, Ledger};
use crate::state::{Key, Market, WinningOutcome};
use crate::token::{be_bytes, le_bytes, market_signer, TokenAccount, TokenOp};

verus! {

/// One thing that can happen to a market: one of its instructions, with
/// the accounts and arguments passed (the market account being the
/// market's current state), or a token instruction that the market does
/// not sign.
pub enum Event {
    Split { accounts: SplitToken, amount: u64, now: i64 },
    Merge { accounts: MergeToken, amount: u64, now: i64 },
    Settle { accounts: SetWinner, winner: WinningOutcome, now: i64 },
    Claim { accounts: ClaimRewards },
    Outside { op: TokenOp },
}

/// What an event does to the market at `key` and to the ledger, or `None`
/// where it is refused: by the market's rules, by its account
/// constraints, or by the token program. A split needs a user other than
/// the market's own address, which cannot sign.
pub open spec fn step(m: Market, key: Key, l: Ledger, e: Event) -> Option<(Market, Ledger)> {
    match e {
        Event::Split { accounts, amount, now } => {
            let c = SplitToken { market_key: key, market: m, ..accounts };
            if c.accounts_valid(m.market_id) && c.user != key && c.split_result(amount, now) is Ok
                && apply_ops(l, c.split_ops(amount)) is Some {
                Some((c.split_result(amount, now)->Ok_0, apply_ops(l, c.split_ops(amount))->Some_0))
            } else {
                None
            }
        },
        Event::Merge { accounts, amount, now } => {
            let c = MergeToken { market_key: key, market: m, ..accounts };
            if c.accounts_valid(m.market_id) && c.merge_result(amount, now) is Ok && apply_ops(
                l,
                c.merge_ops(c.merge_result(amount, now)->Ok_0),
            ) is Some {
                Some((m, apply_ops(l, c.merge_ops(c.merge_result(amount, now)->Ok_0))->Some_0))
            } else {
                None
            }
        },
        Event::Settle { accounts, winner, now } => {
            let c = SetWinner { market_key: key, market: m, ..accounts };
            if c.accounts_valid(m.market_id) && c.settle_result(winner, now) is Ok && apply_ops(
                l,
                c.settle_ops(),
            ) is Some {
                Some((c.settle_result(winner, now)->Ok_0, apply_ops(l, c.settle_ops())->Some_0))
            } else {
                None
            }
        },
        Event::Claim { accounts } => {
            let c = ClaimRewards { market_key: key, market: m, ..accounts };
            if c.accounts_valid(m.market_id) && c.claim_result() is Ok && apply_ops(l, c.claim_ops()) is Some {
                Some((c.claim_result()->Ok_0, apply_ops(l, c.claim_ops())->Some_0))
            } else {
                None
            }
        },
        Event::Outside { op } => {
            if signed_by(op) != key && apply_op(l, op) is Some {
                Some((m, apply_op(l, op)->Some_0))
            } else {
                None
            }
        },
    }
}

/// The market and ledger after a sequence of events; a refused event
/// changes nothing.
pub open spec fn run(m: Market, key: Key, l: Ledger, events: Seq<Event>) -> (Market, Ledger)
    decreases events.len(),
{
    if events.len() == 0 {
        (m, l)
    } else {
        let (m1, l1) = match step(m, key, l, events[0]) {
            Some(r) => r,
            None => (m, l),
        };
        run(m1, key, l1, events.drop_first())
    }
}

/// Applying three instructions is applying the first, then the other two.
proof fn lemma_apply_three(l: Ledger, a: TokenOp, b: TokenOp, c: TokenOp)
    ensures
        apply_ops(l, seq![a, b, c]) == (match apply_op(l, a) {
            Some(l1) => match apply_op(l1, b) {
                Some(l2) => apply_op(l2, c),
                None => None,
            },
            None => None,
        }),
{
    let s = seq![a, b, c];
    assert(s.drop_first() =~= seq![b, c]);
    assert(seq![b, c].drop_first() =~= seq![c]);
    assert(seq![c].drop_first() =~= Seq::<TokenOp>::empty());
    reveal_with_fuel(apply_ops, 4);
}

/// A split keeps the market backed: the vault gains exactly the collateral
/// for which each outcome mint issues new tokens.
pub proof fn split_keeps_backing(ctx: SplitToken, market_id: u32, amount: u64, now: i64, l: Ledger)
    requires
        backed(ctx.market, ctx.market_key, l),
        ctx.accounts_valid(market_id),
        ctx.user != ctx.market_key,
        ctx.split_result(amount, now) is Ok,
        apply_ops(l, ctx.split_ops(amount)) is Some,
    ensures
        backed(ctx.split_result(amount, now)->Ok_0, ctx.market_key, apply_ops(l, ctx.split_ops(amount))->Some_0),
{
    let ops = ctx.split_ops(amount);
    lemma_apply_three(l, ops[0], ops[1], ops[2]);
    assert(ops =~= seq![ops[0], ops[1], ops[2]]);
    let m = ctx.market;
    let l1 = apply_op(l, ops[0])->Some_0;
    let l2 = apply_op(l1, ops[1])->Some_0;
    let l3 = apply_op(l2, ops[2])->Some_0;
    assert(l1.accounts[m.collateral_vault].amount == l.accounts[m.collateral_vault].amount + amount);
    assert(l2.accounts[m.collateral_vault].amount == l1.accounts[m.collateral_vault].amount);
    assert(l3.accounts[m.collateral_vault].amount == l2.accounts[m.collateral_vault].amount);
}

/// Applying two instructions is applying the first, then the second.
proof fn lemma_apply_two(l: Ledger, a: TokenOp, b: TokenOp)
    ensures
        apply_ops(l, seq![a, b]) == (match apply_op(l, a) {
            Some(l1) => apply_op(l1, b),
            None => None,
        }),
{
    assert(seq![a, b].drop_first() =~= seq![b]);
    assert(seq![b].drop_first() =~= Seq::<TokenOp>::empty());
    reveal_with_fuel(apply_ops, 3);
}

/// A merge keeps the market backed: the vault pays out no more than the
/// number of pairs of outcome tokens burnt.
pub proof fn merge_keeps_backing(ctx: MergeToken, market_id: u32, amount: u64, now: i64, l: Ledger)
    requires
        backed(ctx.market, ctx.market_key, l),
        ctx.accounts_valid(market_id),
        ctx.merge_result(amount, now) is Ok,
        apply_ops(l, ctx.merge_ops(ctx.merge_result(amount, now)->Ok_0)) is Some,
    ensures
        backed(ctx.market, ctx.market_key, apply_ops(l, ctx.merge_ops(ctx.merge_result(amount, now)->Ok_0))->Some_0),
{
    let p = ctx.merge_result(amount, now)->Ok_0;
    let ops = ctx.merge_ops(p);
    lemma_apply_three(l, ops[0], ops[1], ops[2]);
    assert(ops =~= seq![ops[0], ops[1], ops[2]]);
    let m = ctx.market;
    let l1 = apply_op(l, ops[0])->Some_0;
    let l2 = apply_op(l1, ops[1])->Some_0;
    let l3 = apply_op(l2, ops[2])->Some_0;
    assert(l1.accounts[m.collateral_vault].amount + p >= l.accounts[m.collateral_vault].amount);
    assert(l2.accounts[m.collateral_vault].amount == l1.accounts[m.collateral_vault].amount);
    assert(l3.accounts[m.collateral_vault].amount == l2.accounts[m.collateral_vault].amount);
    assert(supply(l3, m.outcome_a_mint) + p == supply(l, m.outcome_a_mint));
    assert(supply(l3, m.outcome_b_mint) + p == supply(l, m.outcome_b_mint));
}

/// Settlement keeps the market backed, and leaves no one able to mint
/// either outcome token.
pub proof fn settlement_keeps_backing(ctx: SetWinner, market_id: u32, winner: WinningOutcome, now: i64, l: Ledger)
    requires
        backed(ctx.market, ctx.market_key, l),
        ctx.accounts_valid(market_id),
        ctx.settle_result(winner, now) is Ok,
        apply_ops(l, ctx.settle_ops()) is Some,
    ensures
        backed(ctx.settle_result(winner, now)->Ok_0, ctx.market_key, apply_ops(l, ctx.settle_ops())->Some_0),
{
    let ops = ctx.settle_ops();
    lemma_apply_two(l, ops[0], ops[1]);
    assert(ops =~= seq![ops[0], ops[1]]);
}

/// A claim keeps the market backed: the vault pays out exactly the winning
/// tokens burnt.
pub proof fn claim_keeps_backing(ctx: ClaimRewards, market_id: u32, l: Ledger)
    requires
        backed(ctx.market, ctx.market_key, l),
        ctx.accounts_valid(market_id),
        ctx.claim_result() is Ok,
        apply_ops(l, ctx.claim_ops()) is Some,
    ensures
        backed(ctx.claim_result()->Ok_0, ctx.market_key, apply_ops(l, ctx.claim_ops())->Some_0),
{
    let ops = ctx.claim_ops();
    let w = ctx.winner_account().amount;
    lemma_apply_two(l, ops[0], ops[1]);
    assert(ops =~= seq![ops[0], ops[1]]);
    let m = ctx.market;
    let l1 = apply_op(l, ops[0])->Some_0;
    let l2 = apply_op(l1, ops[1])->Some_0;
    assert(m.winning_mint() == ctx.winner_mint());
    assert(l1.accounts[m.collateral_vault].amount == l.accounts[m.collateral_vault].amount);
    assert(supply(l1, m.winning_mint()) + w == supply(l, m.winning_mint()));
    assert(l2.accounts[m.collateral_vault].amount + w >= l1.accounts[m.collateral_vault].amount);
}

/// A split followed by a merge of the same user's accounts, by a user who
/// held no outcome tokens before, gives the user back exactly the
/// collateral paid and leaves every token account and mint as it was,
/// wherever the token program accepts the merge (see
/// `merge_needs_symmetric_id` and `merge_with_declared_accounts_is_refused`). The market's locked-collateral counter
/// keeps the split amount: a merge does not lower it.
pub proof fn merge_undoes_split(
    s: SplitToken,
    mg: MergeToken,
    market_id: u32,
    amount: u64,
    merge_amount: u64,
    now: i64,
    l: Ledger,
)
    requires
        s.accounts_valid(market_id),
        s.split_result(amount, now) is Ok,
        apply_ops(l, s.split_ops(amount)) is Some,
        l.accounts[s.user_outcome_a.key].amount == 0,
        l.accounts[s.user_outcome_b.key].amount == 0,
        s.market.outcome_a_mint != s.market.collateral_mint,
        s.market.outcome_b_mint != s.market.collateral_mint,
        s.market.outcome_a_mint != s.market.outcome_b_mint,
        mg.market == s.split_result(amount, now)->Ok_0,
        mg.market_key == s.market_key,
        mg.user == s.user,
        mg.user_collateral.key == s.user_collateral.key,
        mg.collateral_vault.key == s.collateral_vault.key,
        mg.outcome_a_mint == s.outcome_a_mint,
        mg.outcome_b_mint == s.outcome_b_mint,
        mg.user_outcome_a.key == s.user_outcome_a.key,
        mg.user_outcome_b.key == s.user_outcome_b.key,
        mg.user_outcome_a.amount == apply_ops(l, s.split_ops(amount))->Some_0.accounts[s.user_outcome_a.key].amount,
        mg.user_outcome_b.amount == apply_ops(l, s.split_ops(amount))->Some_0.accounts[s.user_outcome_b.key].amount,
        mg.merge_result(merge_amount, now) is Ok,
        apply_ops(
            apply_ops(l, s.split_ops(amount))->Some_0,
            mg.merge_ops(mg.merge_result(merge_amount, now)->Ok_0),
        ) is Some,
    ensures
        mg.merge_result(merge_amount, now) == Ok::<u64, PredictionMarketError>(amount),
        apply_ops(
            apply_ops(l, s.split_ops(amount))->Some_0,
            mg.merge_ops(amount),
        ) == Some(l),
        mg.market.total_collateral_locked == s.market.total_collateral_locked + amount,
{
    let ops = s.split_ops(amount);
    lemma_apply_three(l, ops[0], ops[1], ops[2]);
    assert(ops =~= seq![ops[0], ops[1], ops[2]]);
    let l1 = apply_op(l, ops[0])->Some_0;
    let l2 = apply_op(l1, ops[1])->Some_0;
    let l3 = apply_op(l2, ops[2])->Some_0;
    let mops = mg.merge_ops(amount);
    lemma_apply_three(l3, mops[0], mops[1], mops[2]);
    assert(mops =~= seq![mops[0], mops[1], mops[2]]);
    let k1 = apply_op(l3, mops[0])->Some_0;
    let k2 = apply_op(k1, mops[1])->Some_0;
    let k3 = apply_op(k2, mops[2])->Some_0;
    assert(k3.accounts =~= l.accounts);
    assert(k3.mints =~= l.mints);
}

/// A merge's vault payment is signed with the market id's big-endian
/// bytes, while the market's address is derived from its little-endian
/// bytes. Where distinct seeds derive distinct addresses, the token program
/// therefore refuses every merge on a market whose id reads differently in
/// the two byte orders (such as 1).
pub proof fn merge_needs_symmetric_id(ctx: MergeToken, amount: u64, now: i64, l: Ledger)
    requires
        ctx.merge_result(amount, now) is Ok,
        l.addresses.contains_key(market_signer(ctx.market)),
        l.addresses[market_signer(ctx.market)] == ctx.market_key,
        forall|s1, s2|
            l.addresses.contains_key(s1) && l.addresses.contains_key(s2) && l.addresses[s1] == l.addresses[s2]
                ==> s1 == s2,
        le_bytes(ctx.market.market_id) != be_bytes(ctx.market.market_id),
    ensures
        apply_ops(l, ctx.merge_ops(ctx.merge_result(amount, now)->Ok_0)) is None,
{
    let ops = ctx.merge_ops(ctx.merge_result(amount, now)->Ok_0);
    lemma_apply_three(l, ops[0], ops[1], ops[2]);
    assert(ops =~= seq![ops[0], ops[1], ops[2]]);
}

/// What a split's effect on the ledger rests on: the vault is the market's,
/// the user's collateral account holds neither outcome token, and the two
/// outcome mints differ.
spec fn split_accounts_distinct(ctx: SplitToken, l: Ledger) -> bool {
    &&& ctx.user != ctx.market_key
    &&& l.accounts.contains_key(ctx.market.collateral_vault)
    &&& l.accounts[ctx.market.collateral_vault].owner == ctx.market_key
    &&& l.accounts[ctx.market.collateral_vault].mint != ctx.market.outcome_a_mint
    &&& l.accounts[ctx.market.collateral_vault].mint != ctx.market.outcome_b_mint
    &&& l.accounts.contains_key(ctx.user_collateral.key)
    &&& l.accounts[ctx.user_collateral.key].mint != ctx.market.outcome_a_mint
    &&& l.accounts[ctx.user_collateral.key].mint != ctx.market.outcome_b_mint
    &&& ctx.market.outcome_a_mint != ctx.market.outcome_b_mint
}

/// On a backed market, a split whose collateral transfer the token program
/// accepts meets `split_accounts_distinct`: the transfer needs the user's
/// account to hold the vault's collateral mint.
proof fn lemma_backed_split_distinct(ctx: SplitToken, market_id: u32, amount: u64, l: Ledger)
    requires
        backed(ctx.market, ctx.market_key, l),
        ctx.accounts_valid(market_id),
        ctx.user != ctx.market_key,
        apply_op(l, ctx.split_ops(amount)[0]) is Some,
    ensures
        split_accounts_distinct(ctx, l),
{
}

/// The balances and supplies a split moves.
pub open spec fn split_tally(ctx: SplitToken, l: Ledger) -> (int, int, int, int, int, int) {
    (
        l.accounts[ctx.user_collateral.key].amount as int,
        l.accounts[ctx.market.collateral_vault].amount as int,
        l.accounts[ctx.user_outcome_a.key].amount as int,
        l.accounts[ctx.user_outcome_b.key].amount as int,
        supply(l, ctx.market.outcome_a_mint) as int,
        supply(l, ctx.market.outcome_b_mint) as int,
    )
}

/// On a backed market (every market its creation left, through any
/// history: `created_market_stays_backed`), a split moves exactly `amount`
/// collateral from the user to the vault, and adds exactly `amount` to the
/// user's balance and to the supply of each outcome token, so every pair of
/// outcome tokens it creates is backed by one unit of collateral; the
/// locked-collateral counter rises by `amount`.
pub proof fn split_grows_vault_and_supplies(ctx: SplitToken, market_id: u32, amount: u64, now: i64, l: Ledger)
    requires
        backed(ctx.market, ctx.market_key, l),
        ctx.accounts_valid(market_id),
        ctx.user != ctx.market_key,
        ctx.split_result(amount, now) is Ok,
        apply_ops(l, ctx.split_ops(amount)) is Some,
    ensures
        ({
            let l2 = apply_ops(l, ctx.split_ops(amount))->Some_0;
            let (c, v, a, b, sa, sb) = split_tally(ctx, l);
            &&& split_tally(ctx, l2) == (c - amount, v + amount, a + amount, b + amount, sa + amount, sb + amount)
            &&& ctx.split_result(amount, now)->Ok_0.total_collateral_locked == ctx.market.total_collateral_locked
                + amount
        }),
{
    let ops = ctx.split_ops(amount);
    lemma_apply_three(l, ops[0], ops[1], ops[2]);
    assert(ops =~= seq![ops[0], ops[1], ops[2]]);
    lemma_backed_split_distinct(ctx, market_id, amount, l);
    let m = ctx.market;
    let l1 = apply_op(l, ops[0])->Some_0;
    let l2 = apply_op(l1, ops[1])->Some_0;
    let l3 = apply_op(l2, ops[2])->Some_0;
    assert(ctx.user_collateral.key != m.collateral_vault);
    assert(l1.accounts[m.collateral_vault].amount == l.accounts[m.collateral_vault].amount + amount);
    assert(l2.accounts[m.collateral_vault].amount == l1.accounts[m.collateral_vault].amount);
    assert(l3.accounts[m.collateral_vault].amount == l2.accounts[m.collateral_vault].amount);
}

/// On a backed market, two splits in a row on the same accounts come to one
/// split of their sum: the counter, the user's balances, the vault and the outcome
/// supplies each move by the sum of the two amounts, as one split of the
/// sum moves them.
pub proof fn splits_add_up(ctx: SplitToken, market_id: u32, x: u64, y: u64, now: i64, l: Ledger)
    requires
        backed(ctx.market, ctx.market_key, l),
        ctx.accounts_valid(market_id),
        ctx.user != ctx.market_key,
        ctx.split_result(x, now) is Ok,
        (SplitToken { market: ctx.split_result(x, now)->Ok_0, ..ctx }).split_result(y, now) is Ok,
        apply_ops(l, ctx.split_ops(x)) is Some,
        apply_ops(
            apply_ops(l, ctx.split_ops(x))->Some_0,
            (SplitToken { market: ctx.split_result(x, now)->Ok_0, ..ctx }).split_ops(y),
        ) is Some,
    ensures
        x + y <= u64::MAX,
        ctx.split_result((x + y) as u64, now) == (SplitToken {
            market: ctx.split_result(x, now)->Ok_0,
            ..ctx
        }).split_result(y, now),
        ({
            let l2 = apply_ops(
                apply_ops(l, ctx.split_ops(x))->Some_0,
                (SplitToken { market: ctx.split_result(x, now)->Ok_0, ..ctx }).split_ops(y),
            )->Some_0;
            let (c, v, a, b, sa, sb) = split_tally(ctx, l);
            split_tally(ctx, l2) == (c - (x + y), v + (x + y), a + (x + y), b + (x + y), sa + (x + y), sb + (x
                + y))
        }),
{
    let c2 = SplitToken { market: ctx.split_result(x, now)->Ok_0, ..ctx };
    split_grows_vault_and_supplies(ctx, market_id, x, now, l);
    split_keeps_backing(ctx, market_id, x, now, l);
    let l1 = apply_ops(l, ctx.split_ops(x))->Some_0;
    split_grows_vault_and_supplies(c2, market_id, y, now, l1);
    assert(split_tally(c2, l1) == split_tally(ctx, l1));
}

/// A merge is refused by the token program when its transaction passes
/// writable only the accounts the merge declares writable: its burns change
/// the outcome mints, which the merge passes read-only.
pub proof fn merge_with_declared_accounts_is_refused(ctx: MergeToken, amount: u64, now: i64, l: Ledger)
    requires
        ctx.merge_result(amount, now) is Ok,
        l.writable == ctx.writable_accounts(),
        !ctx.writable_accounts().contains(ctx.outcome_a_mint),
    ensures
        apply_ops(l, ctx.merge_ops(ctx.merge_result(amount, now)->Ok_0)) is None,
{
    let ops = ctx.merge_ops(ctx.merge_result(amount, now)->Ok_0);
    lemma_apply_three(l, ops[0], ops[1], ops[2]);
    assert(ops =~= seq![ops[0], ops[1], ops[2]]);
    if let Some(l1) = apply_op(l, ops[0]) {
        assert(l1.writable == l.writable);
        assert(changed_by(ops[1]).contains(ctx.outcome_a_mint));
        assert(!changed_by(ops[1]).subset_of(l1.writable));
    }
}

/// Every event keeps the market backed.
proof fn lemma_step_keeps_backing(m: Market, key: Key, l: Ledger, e: Event)
    requires
        backed(m, key, l),
    ensures
        step(m, key, l, e) matches Some(r) ==> backed(r.0, key, r.1),
{
    match e {
        Event::Split { accounts, amount, now } => {
            let c = SplitToken { market_key: key, market: m, ..accounts };
            if step(m, key, l, e) is Some {
                split_keeps_backing(c, m.market_id, amount, now, l);
            }
        },
        Event::Merge { accounts, amount, now } => {
            let c = MergeToken { market_key: key, market: m, ..accounts };
            if step(m, key, l, e) is Some {
                merge_keeps_backing(c, m.market_id, amount, now, l);
            }
        },
        Event::Settle { accounts, winner, now } => {
            let c = SetWinner { market_key: key, market: m, ..accounts };
            if step(m, key, l, e) is Some {
                settlement_keeps_backing(c, m.market_id, winner, now, l);
            }
        },
        Event::Claim { accounts } => {
            let c = ClaimRewards { market_key: key, market: m, ..accounts };
            if step(m, key, l, e) is Some {
                claim_keeps_backing(c, m.market_id, l);
            }
        },
        Event::Outside { op } => {
            if step(m, key, l, e) is Some {
                unsigned_ops_keep_backing(m, key, l, op);
            }
        },
    }
}

/// A backed market stays backed through any sequence of its instructions
/// and of token instructions it does not sign: at every point the vault
/// can redeem, one for one, every outcome token that may still be
/// redeemed.
pub proof fn backing_holds_through_any_history(m: Market, key: Key, l: Ledger, events: Seq<Event>)
    requires
        backed(m, key, l),
    ensures
        backed(run(m, key, l, events).0, key, run(m, key, l, events).1),
    decreases events.len(),
{
    if events.len() > 0 {
        lemma_step_keeps_backing(m, key, l, events[0]);
        let (m1, l1) = match step(m, key, l, events[0]) {
            Some(r) => r,
            None => (m, l),
        };
        backing_holds_through_any_history(m1, key, l1, events.drop_first());
    }
}

/// Creating a market backs it: a fresh vault owned by the market and two
/// fresh outcome mints, with no supply and the market as mint authority.
pub proof fn creation_establishes_backing(
    ctx: InitializeMarket,
    market_id: u32,
    expiry_ts: i64,
    bumps: InitializeMarketBumps,
    market_key: Key,
    l: Ledger,
)
    requires
        l.accounts.contains_key(ctx.collateral_vault),
        l.accounts[ctx.collateral_vault].mint == ctx.collateral_mint,
        l.accounts[ctx.collateral_vault].owner == market_key,
        l.mints.contains_key(ctx.outcome_a_mint),
        l.mints.contains_key(ctx.outcome_b_mint),
        l.mints[ctx.outcome_a_mint].supply == 0,
        l.mints[ctx.outcome_b_mint].supply == 0,
        l.mints[ctx.outcome_a_mint].mint_authority == Some(market_key),
        l.mints[ctx.outcome_b_mint].mint_authority == Some(market_key),
        ctx.collateral_mint != ctx.outcome_a_mint,
        ctx.collateral_mint != ctx.outcome_b_mint,
        ctx.outcome_a_mint != ctx.outcome_b_mint,
    ensures
        backed(ctx.new_market(market_id, expiry_ts, bumps), market_key, l),
{
}

/// A created market stays backed through any sequence of its instructions
/// and of token instructions it does not sign.
pub proof fn created_market_stays_backed(
    ctx: InitializeMarket,
    market_id: u32,
    expiry_ts: i64,
    bumps: InitializeMarketBumps,
    market_key: Key,
    l: Ledger,
    events: Seq<Event>,
)
    requires
        l.accounts.contains_key(ctx.collateral_vault),
        l.accounts[ctx.collateral_vault].mint == ctx.collateral_mint,
        l.accounts[ctx.collateral_vault].owner == market_key,
        l.mints.contains_key(ctx.outcome_a_mint),
        l.mints.contains_key(ctx.outcome_b_mint),
        l.mints[ctx.outcome_a_mint].supply == 0,
        l.mints[ctx.outcome_b_mint].supply == 0,
        l.mints[ctx.outcome_a_mint].mint_authority == Some(market_key),
        l.mints[ctx.outcome_b_mint].mint_authority == Some(market_key),
        ctx.collateral_mint != ctx.outcome_a_mint,
        ctx.collateral_mint != ctx.outcome_b_mint,
        ctx.outcome_a_mint != ctx.outcome_b_mint,
    ensures
        ({
            let (m, l2) = run(ctx.new_market(market_id, expiry_ts, bumps), market_key, l, events);
            backed(m, market_key, l2)
        }),
{
    creation_establishes_backing(ctx, market_id, expiry_ts, bumps, market_key, l);
    backing_holds_through_any_history(ctx.new_market(market_id, expiry_ts, bumps), market_key, l, events);
}

/// No token instruction that the market does not sign can break its
/// backing: only the market can move collateral out of the vault or mint
/// outcome tokens.
pub proof fn unsigned_ops_keep_backing(m: Market, market_key: Key, l: Ledger, op: TokenOp)
    requires
        backed(m, market_key, l),
        signed_by(op) != market_key,
        apply_op(l, op) is Some,
    ensures
        backed(m, market_key, apply_op(l, op)->Some_0),
{
    let l1 = apply_op(l, op)->Some_0;
    assert(vault_balance(m, l1) >= vault_balance(m, l));
    assert(supply(l1, m.outcome_a_mint) <= supply(l, m.outcome_a_mint));
    assert(supply(l1, m.outcome_b_mint) <= supply(l, m.outcome_b_mint));
}

/// Once a market is settled, no one, the market included, can mint either
/// outcome token.
pub proof fn settled_outcome_mints_are_frozen(m: Market, market_key: Key, l: Ledger, op: TokenOp)
    requires
        backed(m, market_key, l),
        m.is_settled,
        op matches TokenOp::MintTo { mint, .. } && (mint == m.outcome_a_mint || mint == m.outcome_b_mint),
    ensures
        apply_op(l, op) is None,
{
}

/// No token instruction but a mint of `mint` raises the supply of `mint`.
proof fn lemma_op_never_raises_supply(l: Ledger, op: TokenOp, mint: Key)
    requires
        !(op matches TokenOp::MintTo { mint: minted, .. } && minted == mint),
    ensures
        apply_op(l, op) matches Some(l2) ==> supply(l2, mint) <= supply(l, mint),
{
}

/// An event on a settled, backed market leaves it settled and does not
/// raise the supply of either outcome mint.
proof fn lemma_settled_step_never_raises_supply(m: Market, key: Key, l: Ledger, e: Event, mint: Key)
    requires
        backed(m, key, l),
        m.is_settled,
        mint == m.outcome_a_mint || mint == m.outcome_b_mint,
    ensures
        step(m, key, l, e) matches Some(r) ==> r.0.is_settled && supply(r.1, mint) <= supply(l, mint),
{
    match e {
        Event::Claim { accounts } => {
            let c = ClaimRewards { market_key: key, market: m, ..accounts };
            if step(m, key, l, e) is Some {
                let ops = c.claim_ops();
                lemma_apply_two(l, ops[0], ops[1]);
                assert(ops =~= seq![ops[0], ops[1]]);
                let l1 = apply_op(l, ops[0])->Some_0;
                lemma_op_never_raises_supply(l, ops[0], mint);
                lemma_op_never_raises_supply(l1, ops[1], mint);
            }
        },
        Event::Outside { op } => {
            if op matches TokenOp::MintTo { mint: minted, .. } && minted == mint {
                settled_outcome_mints_are_frozen(m, key, l, op);
            } else {
                lemma_op_never_raises_supply(l, op, mint);
            }
        },
        _ => {},
    }
}

/// Once a backed market is settled, the supply of neither outcome token
/// ever grows again, whatever sequence of its instructions and of token
/// instructions it does not sign follows.
pub proof fn settled_supplies_never_grow(m: Market, key: Key, l: Ledger, events: Seq<Event>)
    requires
        backed(m, key, l),
        m.is_settled,
    ensures
        run(m, key, l, events).0.is_settled,
        supply(run(m, key, l, events).1, m.outcome_a_mint) <= supply(l, m.outcome_a_mint),
        supply(run(m, key, l, events).1, m.outcome_b_mint) <= supply(l, m.outcome_b_mint),
    decreases events.len(),
{
    if events.len() > 0 {
        lemma_step_keeps_backing(m, key, l, events[0]);
        lemma_settled_step_never_raises_supply(m, key, l, events[0], m.outcome_a_mint);
        lemma_settled_step_never_raises_supply(m, key, l, events[0], m.outcome_b_mint);
        let (m1, l1) = match step(m, key, l, events[0]) {
            Some(r) => r,
            None => (m, l),
        };
        assert(m1.outcome_a_mint == m.outcome_a_mint && m1.outcome_b_mint == m.outcome_b_mint);
        settled_supplies_never_grow(m1, key, l1, events.drop_first());
    }
}

/// After a successful settlement of a backed market, the supply of neither
/// outcome token ever exceeds what it was at settlement, whatever sequence
/// of its instructions and of token instructions it does not sign follows.
pub proof fn settlement_freezes_supplies(
    ctx: SetWinner,
    market_id: u32,
    winner: WinningOutcome,
    now: i64,
    l: Ledger,
    events: Seq<Event>,
)
    requires
        backed(ctx.market, ctx.market_key, l),
        ctx.accounts_valid(market_id),
        ctx.settle_result(winner, now) is Ok,
        apply_ops(l, ctx.settle_ops()) is Some,
    ensures
        ({
            let m1 = ctx.settle_result(winner, now)->Ok_0;
            let l1 = apply_ops(l, ctx.settle_ops())->Some_0;
            let (m2, l2) = run(m1, ctx.market_key, l1, events);
            &&& m2.is_settled
            &&& supply(l2, ctx.market.outcome_a_mint) <= supply(l1, ctx.market.outcome_a_mint)
            &&& supply(l2, ctx.market.outcome_b_mint) <= supply(l1, ctx.market.outcome_b_mint)
        }),
{
    settlement_keeps_backing(ctx, market_id, winner, now, l);
    let m1 = ctx.settle_result(winner, now)->Ok_0;
    let l1 = apply_ops(l, ctx.settle_ops())->Some_0;
    settled_supplies_never_grow(m1, ctx.market_key, l1, events);
}

/// A settled market refuses every further split, merge and settlement.
pub proof fn settled_market_refuses_trading(
    m: Market,
    split: SplitToken,
    merge: MergeToken,
    settle: SetWinner,
    amount: u64,
    winner: WinningOutcome,
    now: i64,
)
    requires
        m.is_settled,
        split.market == m,
        merge.market == m,
        settle.market == m,
    ensures
        split.split_result(amount, now) == Err::<Market, PredictionMarketError>(PredictionMarketError::MarketAlreadySettled),
        merge.merge_result(amount, now) == Err::<u64, PredictionMarketError>(PredictionMarketError::MarketAlreadySettled),
        settle.settle_result(winner, now) == Err::<Market, PredictionMarketError>(PredictionMarketError::MarketAlreadySettled),
{
}

/// An unsettled market whose expiry has come accepts no instruction that
/// moves tokens: no split, no merge, no settlement and no claim succeeds.
pub proof fn expired_open_market_is_frozen(
    m: Market,
    split: SplitToken,
    merge: MergeToken,
    settle: SetWinner,
    claim: ClaimRewards,
    amount: u64,
    winner: WinningOutcome,
    now: i64,
)
    requires
        !m.is_settled,
        now >= m.expiry_ts,
        split.market == m,
        merge.market == m,
        settle.market == m,
        claim.market == m,
    ensures
        split.split_result(amount, now) is Err,
        merge.merge_result(amount, now) is Err,
        settle.settle_result(winner, now) == Err::<Market, PredictionMarketError>(PredictionMarketError::MarketExpired),
        claim.claim_result() == Err::<Market, PredictionMarketError>(PredictionMarketError::MarketNotSettled),
{
}

/// A claim repeated right after a successful one, with the user's winning
/// account read again from the ledger the first left, pays nothing: it
/// succeeds, its burn and its payment are both of 0, the token program
/// accepts them, and the market and every token account and mint are left
/// as they were, so no user is paid twice.
pub proof fn second_claim_pays_nothing(ctx: ClaimRewards, market_id: u32, again: ClaimRewards, l: Ledger)
    requires
        ctx.accounts_valid(market_id),
        ctx.claim_result() is Ok,
        l.accounts.contains_key(ctx.winner_account().key),
        l.accounts[ctx.winner_account().key].amount == ctx.winner_account().amount,
        ctx.collateral_mint.key != ctx.winner_mint(),
        apply_ops(l, ctx.claim_ops()) is Some,
        again == (ClaimRewards {
            market: ctx.claim_result()->Ok_0,
            user_outcome_a: again.user_outcome_a,
            user_outcome_b: again.user_outcome_b,
            ..ctx
        }),
        again.winner_account() == (TokenAccount {
            amount: apply_ops(l, ctx.claim_ops())->Some_0.accounts[ctx.winner_account().key].amount as u64,
            ..ctx.winner_account()
        }),
    ensures
        again.winner_account().amount == 0,
        again.claim_ops()[0] matches TokenOp::Burn { amount, .. } && amount == 0,
        again.claim_ops()[1] matches TokenOp::TransferChecked { amount, .. } && amount == 0,
        again.claim_result() == Ok::<Market, PredictionMarketError>(again.market),
        again.market == ctx.claim_result()->Ok_0,
        apply_ops(apply_ops(l, ctx.claim_ops())->Some_0, again.claim_ops()) == Some(
            apply_ops(l, ctx.claim_ops())->Some_0,
        ),
{
    let ops = ctx.claim_ops();
    lemma_apply_two(l, ops[0], ops[1]);
    assert(ops =~= seq![ops[0], ops[1]]);
    let l1 = apply_op(l, ops[0])->Some_0;
    let l2 = apply_op(l1, ops[1])->Some_0;
    let w = ctx.winner_account().key;
    assert(l1.accounts[w].amount == 0);
    assert(l2.accounts[w].amount == 0);
    assert(again.winner_mint() == ctx.winner_mint());
    assert(again.claim_result() == Ok::<Market, PredictionMarketError>(again.market));
    let ops2 = again.claim_ops();
    lemma_apply_two(l2, ops2[0], ops2[1]);
    assert(ops2 =~= seq![ops2[0], ops2[1]]);
    assert(changed_by(ops2[0]) == changed_by(ops[0]));
    assert(changed_by(ops2[1]) == changed_by(ops[1]));
    assert(l2.writable == l.writable && l2.addresses == l.addresses);
    assert(apply_op(l2, ops2[0]) is Some);
    let k1 = apply_op(l2, ops2[0])->Some_0;
    assert(k1.accounts =~= l2.accounts);
    assert(k1.mints =~= l2.mints);
    assert(k1 == l2);
    assert(apply_op(k1, ops2[1]) is Some);
    let k2 = apply_op(k1, ops2[1])->Some_0;
    assert(k2.accounts =~= l2.accounts);
    assert(k2 == l2);
}

/// A claim on a backed, settled market never fails on the locked-collateral
/// counter, as long as the winning balance does not exceed its mint's
/// supply (which the token program keeps true).
pub proof fn claim_on_settled_market_succeeds(ctx: ClaimRewards, market_id: u32, l: Ledger)
    requires
        backed(ctx.market, ctx.market_key, l),
        ctx.accounts_valid(market_id),
        ctx.market.is_settled,
        ctx.winner_account().amount <= supply(l, ctx.winner_mint()),
    ensures
        ctx.claim_result() is Ok,
{
}

/// Every instruction keeps the market consistent: a winner is recorded
/// exactly when the market is settled.
pub proof fn instructions_keep_market_consistent(
    m: Market,
    split: SplitToken,
    settle: SetWinner,
    claim: ClaimRewards,
    amount: u64,
    winner: WinningOutcome,
    now: i64,
)
    requires
        m.wf(),
        split.market == m,
        settle.market == m,
        claim.market == m,
    ensures
        split.split_result(amount, now) matches Ok(m2) ==> m2.wf(),
        settle.settle_result(winner, now) matches Ok(m2) ==> m2.wf() && m2.is_settled
            && m2.winning_outcome == Some(winner),
        claim.claim_result() matches Ok(m2) ==> m2.wf() && m2.is_settled,
{
}

} // verus!
