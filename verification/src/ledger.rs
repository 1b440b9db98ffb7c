use vstd::prelude::*;
use crate::state::{Key, Market};
use crate::token::{MarketSigner, TokenOp};

verus! {

/// A token account as the token program keeps it.
pub struct AccountState {
    pub mint: Key,
    pub owner: Key,
    pub amount: nat,
}

/// A mint as the token program keeps it.
pub struct MintState {
    pub supply: nat,
    pub decimals: u8,
    pub mint_authority: Option<Key>,
}

/// The token accounts and mints of the chain, by address, the program
/// addresses that the market program's signer seeds derive, and the
/// accounts that the transaction passes writable. This is the model in
/// which the market's laws are stated: what a token instruction does to it
/// is `apply_op`. An instruction that names no signer seeds counts as
/// signed by the authority it names; one that names seeds is signed by the
/// address they derive. Only an account's owner (not a delegate) may move
/// or burn its tokens, and every account or mint an instruction changes
/// must be writable.
pub struct Ledger {
    pub accounts: Map<Key, AccountState>,
    pub mints: Map<Key, MintState>,
    pub addresses: Map<MarketSigner, Key>,
    pub writable: Set<Key>,
}

/// The largest balance or supply the token program holds (`u64::MAX`).
pub open spec fn max_amount() -> nat {
    0xffff_ffff_ffff_ffffnat
}

/// `l` with `amount` taken from the balance of account `k`.
pub open spec fn debit(l: Ledger, k: Key, amount: nat) -> Ledger {
    Ledger {
        accounts: l.accounts.insert(
            k,
            AccountState { amount: (l.accounts[k].amount - amount) as nat, ..l.accounts[k] },
        ),
        ..l
    }
}

/// `l` with `amount` added to the balance of account `k`.
pub open spec fn credit(l: Ledger, k: Key, amount: nat) -> Ledger {
    Ledger {
        accounts: l.accounts.insert(k, AccountState { amount: l.accounts[k].amount + amount, ..l.accounts[k] }),
        ..l
    }
}

/// `l` with the supply of `mint` set to `supply`.
pub open spec fn with_supply(l: Ledger, mint: Key, supply: nat) -> Ledger {
    Ledger { mints: l.mints.insert(mint, MintState { supply, ..l.mints[mint] }), ..l }
}

/// A transfer of `amount` from `from` to `to`: both accounts exist and hold
/// the same mint, `authority` owns `from`, `from` holds enough, and `to`
/// does not overflow.
pub open spec fn transfer(l: Ledger, from: Key, to: Key, authority: Key, amount: nat) -> Option<Ledger> {
    if l.accounts.contains_key(from) && l.accounts.contains_key(to) && l.accounts[from].mint
        == l.accounts[to].mint && l.accounts[from].owner == authority && l.accounts[from].amount
        >= amount && (from == to || l.accounts[to].amount + amount <= max_amount()) {
        Some(credit(debit(l, from, amount), to, amount))
    } else {
        None
    }
}

/// The signer seeds an instruction is issued with.
pub open spec fn seeds_of(op: TokenOp) -> Option<MarketSigner> {
    match op {
        TokenOp::Transfer { signer, .. } => signer,
        TokenOp::TransferChecked { signer, .. } => signer,
        TokenOp::MintTo { signer, .. } => signer,
        TokenOp::Burn { signer, .. } => signer,
        TokenOp::RemoveMintAuthority { signer, .. } => signer,
    }
}

/// The instruction is signed by its authority: where it names signer
/// seeds, they derive the authority's address.
pub open spec fn authorized(l: Ledger, op: TokenOp) -> bool {
    match seeds_of(op) {
        Some(s) => l.addresses.contains_key(s) && l.addresses[s] == signed_by(op),
        None => true,
    }
}

/// The accounts and mints that an instruction changes.
pub open spec fn changed_by(op: TokenOp) -> Set<Key> {
    match op {
        TokenOp::Transfer { from, to, .. } => set![from, to],
        TokenOp::TransferChecked { from, to, .. } => set![from, to],
        TokenOp::MintTo { mint, to, .. } => set![mint, to],
        TokenOp::Burn { mint, from, .. } => set![mint, from],
        TokenOp::RemoveMintAuthority { mint, .. } => set![mint],
    }
}

/// What one token instruction does to the ledger, or `None` where the
/// token program refuses it.
pub open spec fn apply_op(l: Ledger, op: TokenOp) -> Option<Ledger> {
    if authorized(l, op) && changed_by(op).subset_of(l.writable) {
        apply_signed_op(l, op)
    } else {
        None
    }
}

/// What a signed token instruction does to the ledger, or `None` where
/// the token program refuses it.
pub open spec fn apply_signed_op(l: Ledger, op: TokenOp) -> Option<Ledger> {
    match op {
        TokenOp::Transfer { from, to, authority, amount, .. } => transfer(l, from, to, authority, amount as nat),
        TokenOp::TransferChecked { from, to, mint, authority, amount, decimals, .. } => {
            if l.mints.contains_key(mint) && l.mints[mint].decimals == decimals && l.accounts.contains_key(
                from,
            ) && l.accounts[from].mint == mint {
                transfer(l, from, to, authority, amount as nat)
            } else {
                None
            }
        },
        TokenOp::MintTo { mint, to, authority, amount, .. } => {
            if l.mints.contains_key(mint) && l.mints[mint].mint_authority == Some(authority)
                && l.accounts.contains_key(to) && l.accounts[to].mint == mint && l.mints[mint].supply
                + amount <= max_amount() && l.accounts[to].amount + amount <= max_amount() {
                Some(credit(with_supply(l, mint, l.mints[mint].supply + amount as nat), to, amount as nat))
            } else {
                None
            }
        },
        TokenOp::Burn { mint, from, authority, amount, .. } => {
            if l.mints.contains_key(mint) && l.accounts.contains_key(from) && l.accounts[from].mint
                == mint && l.accounts[from].owner == authority && l.accounts[from].amount >= amount
                && l.mints[mint].supply >= amount {
                Some(debit(with_supply(l, mint, (l.mints[mint].supply - amount) as nat), from, amount as nat))
            } else {
                None
            }
        },
        TokenOp::RemoveMintAuthority { mint, current_authority, .. } => {
            if l.mints.contains_key(mint) && l.mints[mint].mint_authority == Some(current_authority) {
                Some(Ledger { mints: l.mints.insert(mint, MintState { mint_authority: None, ..l.mints[mint] }), ..l })
            } else {
                None
            }
        },
    }
}

/// What a sequence of token instructions does, in order; `None` if the
/// token program refuses any of them (and with it the whole transaction).
pub open spec fn apply_ops(l: Ledger, ops: Seq<TokenOp>) -> Option<Ledger>
    decreases ops.len(),
{
    if ops.len() == 0 {
        Some(l)
    } else {
        match apply_op(l, ops[0]) {
            Some(l1) => apply_ops(l1, ops.drop_first()),
            None => None,
        }
    }
}

/// The key an instruction is signed with: the authority it names.
pub open spec fn signed_by(op: TokenOp) -> Key {
    match op {
        TokenOp::Transfer { authority, .. } => authority,
        TokenOp::TransferChecked { authority, .. } => authority,
        TokenOp::MintTo { authority, .. } => authority,
        TokenOp::Burn { authority, .. } => authority,
        TokenOp::RemoveMintAuthority { current_authority, .. } => current_authority,
    }
}

/// The balance of the market's vault.
pub open spec fn vault_balance(m: Market, l: Ledger) -> nat {
    l.accounts[m.collateral_vault].amount
}

/// The supply of a mint.
pub open spec fn supply(l: Ledger, mint: Key) -> nat {
    l.mints[mint].supply
}

/// The market at address `market_key` is fully backed in `l`: its vault
/// (a collateral account that the market owns) holds at least as much
/// collateral as there are outcome tokens that may still be redeemed, of
/// each outcome while the market is open and of the winner once it is
/// settled, and its locked-collateral counter is at least as large; its
/// outcome mints can be minted by the market alone while it
/// is open and by no one once it is settled.
pub open spec fn backed(m: Market, market_key: Key, l: Ledger) -> bool {
    &&& m.wf()
    &&& l.accounts.contains_key(m.collateral_vault)
    &&& l.accounts[m.collateral_vault].mint == m.collateral_mint
    &&& l.accounts[m.collateral_vault].owner == market_key
    &&& l.mints.contains_key(m.outcome_a_mint)
    &&& l.mints.contains_key(m.outcome_b_mint)
    &&& m.collateral_mint != m.outcome_a_mint
    &&& m.collateral_mint != m.outcome_b_mint
    &&& m.outcome_a_mint != m.outcome_b_mint
    &&& if m.is_settled {
        &&& l.mints[m.outcome_a_mint].mint_authority is None
        &&& l.mints[m.outcome_b_mint].mint_authority is None
        &&& vault_balance(m, l) >= supply(l, m.winning_mint())
        &&& m.total_collateral_locked >= supply(l, m.winning_mint())
    } else {
        &&& l.mints[m.outcome_a_mint].mint_authority == Some(market_key)
        &&& l.mints[m.outcome_b_mint].mint_authority == Some(market_key)
        &&& vault_balance(m, l) >= supply(l, m.outcome_a_mint)
        &&& vault_balance(m, l) >= supply(l, m.outcome_b_mint)
        &&& m.total_collateral_locked >= supply(l, m.outcome_a_mint)
        &&& m.total_collateral_locked >= supply(l, m.outcome_b_mint)
    }
}

} // verus!
