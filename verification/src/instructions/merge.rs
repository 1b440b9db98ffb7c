use vstd::prelude::*;
use crate::error::PredictionMarketError;
use crate::state::{Key, Market};
use crate::token::{market_signer_be, signer_of_be, TokenAccount, TokenOp};

verus! {

/// The accounts of a merge: the market, the user, the user's collateral
/// account, the market's vault, the two outcome mints and the user's two
/// outcome accounts.
#[derive(Clone, Copy, Debug, PartialEq, Eq, Structural)]
pub struct MergeToken {
    pub market_key: Key,
    pub market: Market,
    pub user: Key,
    pub user_collateral: TokenAccount,
    pub collateral_vault: TokenAccount,
    pub outcome_a_mint: Key,
    pub outcome_b_mint: Key,
    pub user_outcome_a: TokenAccount,
    pub user_outcome_b: TokenAccount,
}

/// The smaller of two amounts.
pub open spec fn min_u64(a: u64, b: u64) -> u64 {
    if a <= b { a } else { b }
}

impl MergeToken {
    /// The account constraints of a merge on market `market_id`; the vault
    /// must also be owned by the market and hold its collateral.
    pub open spec fn accounts_valid(self, market_id: u32) -> bool {
        &&& self.market.market_id == market_id
        &&& self.user_collateral.mint == self.market.collateral_mint
        &&& self.user_collateral.owner == self.user
        &&& self.collateral_vault.key == self.market.collateral_vault
        &&& self.collateral_vault.owner == self.market_key
        &&& self.collateral_vault.mint == self.market.collateral_mint
        &&& self.outcome_a_mint == self.market.outcome_a_mint
        &&& self.outcome_b_mint == self.market.outcome_b_mint
        &&& self.user_outcome_a.mint == self.market.outcome_a_mint
        &&& self.user_outcome_a.owner == self.user
        &&& self.user_outcome_b.mint == self.market.outcome_b_mint
        &&& self.user_outcome_b.owner == self.user
    }

    /// Checks the account constraints of a merge on market `market_id`.
    pub fn validate(&self, market_id: u32) -> (r: bool)
        ensures
            r == self.accounts_valid(market_id),
    {
        self.market.market_id == market_id
            && self.user_collateral.mint.same(&self.market.collateral_mint)
            && self.user_collateral.owner.same(&self.user)
            && self.collateral_vault.key.same(&self.market.collateral_vault)
            && self.collateral_vault.owner.same(&self.market_key)
            && self.collateral_vault.mint.same(&self.market.collateral_mint)
            && self.outcome_a_mint.same(&self.market.outcome_a_mint)
            && self.outcome_b_mint.same(&self.market.outcome_b_mint)
            && self.user_outcome_a.mint.same(&self.market.outcome_a_mint)
            && self.user_outcome_a.owner.same(&self.user)
            && self.user_outcome_b.mint.same(&self.market.outcome_b_mint)
            && self.user_outcome_b.owner.same(&self.user)
    }

    /// The accounts a merge passes writable: the market, the user, the
    /// user's collateral account, the vault and the user's two outcome
    /// accounts. The two outcome mints are passed read-only.
    pub open spec fn writable_accounts(self) -> Set<Key> {
        set![
            self.market_key,
            self.user,
            self.user_collateral.key,
            self.collateral_vault.key,
            self.user_outcome_a.key,
            self.user_outcome_b.key,
        ]
    }

    /// The amount a merge pays out: as many complete pairs of outcome
    /// tokens as the user holds.
    pub open spec fn payout(self) -> u64 {
        min_u64(self.user_outcome_a.amount, self.user_outcome_b.amount)
    }

    /// The payout of a merge of `amount` at time `now`, or the error it
    /// fails with. `amount` must be positive, but the payout does not
    /// depend on it.
    pub open spec fn merge_result(self, amount: u64, now: i64) -> Result<u64, PredictionMarketError> {
        if self.market.is_settled {
            Err(PredictionMarketError::MarketAlreadySettled)
        } else if amount == 0 {
            Err(PredictionMarketError::InvalidAmount)
        } else if now >= self.market.expiry_ts {
            Err(PredictionMarketError::MarketExpired)
        } else if self.payout() == 0 {
            Err(PredictionMarketError::InvalidAmount)
        } else {
            Ok(self.payout())
        }
    }

    /// The token instructions of a merge paying `payout`: the vault pays
    /// `payout` collateral to the user, signed with the market id's
    /// big-endian bytes, and `payout` of each outcome token of the user is
    /// burnt.
    pub open spec fn merge_ops(self, payout: u64) -> Seq<TokenOp> {
        seq![
            TokenOp::Transfer {
                from: self.collateral_vault.key,
                to: self.user_collateral.key,
                authority: self.market_key,
                amount: payout,
                signer: Some(market_signer_be(self.market)),
            },
            TokenOp::Burn {
                mint: self.outcome_a_mint,
                from: self.user_outcome_a.key,
                authority: self.user,
                amount: payout,
                signer: None,
            },
            TokenOp::Burn {
                mint: self.outcome_b_mint,
                from: self.user_outcome_b.key,
                authority: self.user,
                amount: payout,
                signer: None,
            },
        ]
    }

    /// Merges complete pairs of outcome tokens back into collateral while
    /// the market is open (`now` before its expiry). Returns the token
    /// instructions to issue, in order; the market itself is not changed.
    pub fn merge_tokens(&mut self, market_id: u32, amount: u64, now: i64) -> (r: Result<
        Vec<TokenOp>,
        PredictionMarketError,
    >)
        ensures
            *final(self) == *old(self),
            match old(self).merge_result(amount, now) {
                Ok(p) => r matches Ok(ops) && ops@ == old(self).merge_ops(p),
                Err(e) => r == Err::<Vec<TokenOp>, PredictionMarketError>(e),
            },
    {
        if self.market.is_settled {
            return Err(PredictionMarketError::MarketAlreadySettled);
        }
        if !(amount > 0) {
            return Err(PredictionMarketError::InvalidAmount);
        }
        if !(now < self.market.expiry_ts) {
            return Err(PredictionMarketError::MarketExpired);
        }
        let payout = if self.user_outcome_a.amount <= self.user_outcome_b.amount {
            self.user_outcome_a.amount
        } else {
            self.user_outcome_b.amount
        };
        if !(payout > 0) {
            return Err(PredictionMarketError::InvalidAmount);
        }
        let signer = signer_of_be(&self.market);
        let mut ops: Vec<TokenOp> = Vec::new();
        ops.push(TokenOp::Transfer {
            from: self.collateral_vault.key,
            to: self.user_collateral.key,
            authority: self.market_key,
            amount: payout,
            signer: Some(signer),
        });
        ops.push(TokenOp::Burn {
            mint: self.outcome_a_mint,
            from: self.user_outcome_a.key,
            authority: self.user,
            amount: payout,
            signer: None,
        });
        ops.push(TokenOp::Burn {
            mint: self.outcome_b_mint,
            from: self.user_outcome_b.key,
            authority: self.user,
            amount: payout,
            signer: None,
        });
        assert(ops@ =~= old(self).merge_ops(payout));
        Ok(ops)
    }
}

} // verus!
