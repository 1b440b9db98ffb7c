use vstd::prelude::*;
use crate::error::PredictionMarketError;
use crate::state::{Key, Market};
use crate::token::{market_signer, signer_of, TokenAccount, TokenCalls, TokenOp};

verus! {

/// The accounts of a split: the market, the user, the user's collateral
/// account, the market's vault, the two outcome mints and the user's two
/// outcome accounts.
#[derive(Clone, Copy, Debug, PartialEq, Eq, Structural)]
pub struct SplitToken {
    pub market_key: Key,
    pub market: Market,
    pub user: Key,
    pub user_collateral: TokenAccount,
    pub collateral_vault: TokenAccount,
    pub outcome_a_mint: Key,
    pub outcome_b_mint: Key,
    pub user_outcome_a: TokenAccount,
    pub user_outcome_b: TokenAccount,
}

impl SplitToken {
    /// The account constraints of a split of market `market_id`.
    pub open spec fn accounts_valid(self, market_id: u32) -> bool {
        &&& self.market.market_id == market_id
        &&& self.user_collateral.mint == self.market.collateral_mint
        &&& self.user_collateral.owner == self.user
        &&& self.collateral_vault.key == self.market.collateral_vault
        &&& self.outcome_a_mint == self.market.outcome_a_mint
        &&& self.outcome_b_mint == self.market.outcome_b_mint
        &&& self.user_outcome_a.mint == self.market.outcome_a_mint
        &&& self.user_outcome_a.owner == self.user
        &&& self.user_outcome_b.mint == self.market.outcome_b_mint
        &&& self.user_outcome_b.owner == self.user
    }

    /// Checks the account constraints of a split of market `market_id`.
    pub fn validate(&self, market_id: u32) -> (r: bool)
        ensures
            r == self.accounts_valid(market_id),
    {
        self.market.market_id == market_id
            && self.user_collateral.mint.same(&self.market.collateral_mint)
            && self.user_collateral.owner.same(&self.user)
            && self.collateral_vault.key.same(&self.market.collateral_vault)
            && self.outcome_a_mint.same(&self.market.outcome_a_mint)
            && self.outcome_b_mint.same(&self.market.outcome_b_mint)
            && self.user_outcome_a.mint.same(&self.market.outcome_a_mint)
            && self.user_outcome_a.owner.same(&self.user)
            && self.user_outcome_b.mint.same(&self.market.outcome_b_mint)
            && self.user_outcome_b.owner.same(&self.user)
    }

    /// The checks a split makes before it issues its token instructions.
    pub open spec fn split_checks(self, amount: u64, now: i64) -> Result<(), PredictionMarketError> {
        if self.market.is_settled {
            Err(PredictionMarketError::MarketAlreadySettled)
        } else if amount == 0 {
            Err(PredictionMarketError::InvalidAmount)
        } else if now >= self.market.expiry_ts {
            Err(PredictionMarketError::MarketExpired)
        } else {
            Ok(())
        }
    }

    /// What a split of `amount` at time `now` does to the market, or the
    /// error it fails with: the checks, then the locked-collateral counter.
    pub open spec fn split_result(self, amount: u64, now: i64) -> Result<Market, PredictionMarketError> {
        if self.market.is_settled {
            Err(PredictionMarketError::MarketAlreadySettled)
        } else if amount == 0 {
            Err(PredictionMarketError::InvalidAmount)
        } else if now >= self.market.expiry_ts {
            Err(PredictionMarketError::MarketExpired)
        } else if self.market.total_collateral_locked + amount > u64::MAX {
            Err(PredictionMarketError::MathOverflow)
        } else {
            Ok(Market {
                total_collateral_locked: (self.market.total_collateral_locked + amount) as u64,
                ..self.market
            })
        }
    }

    /// The token instructions of a split of `amount`: the user pays
    /// `amount` collateral into the vault, and the market mints `amount` of
    /// each outcome token to the user.
    pub open spec fn split_ops(self, amount: u64) -> Seq<TokenOp> {
        seq![
            TokenOp::Transfer {
                from: self.user_collateral.key,
                to: self.collateral_vault.key,
                authority: self.user,
                amount,
                signer: None,
            },
            TokenOp::MintTo {
                mint: self.outcome_a_mint,
                to: self.user_outcome_a.key,
                authority: self.market_key,
                amount,
                signer: Some(market_signer(self.market)),
            },
            TokenOp::MintTo {
                mint: self.outcome_b_mint,
                to: self.user_outcome_b.key,
                authority: self.market_key,
                amount,
                signer: Some(market_signer(self.market)),
            },
        ]
    }

    /// Splits `amount` collateral into one outcome-A and one outcome-B token
    /// per unit, while the market is open (`now` before its expiry).
    /// Once the checks pass, returns the token instructions to issue, in
    /// order; after them the locked-collateral counter is raised by
    /// `amount`, or the split fails with `MathOverflow` where it would
    /// overflow (and the market is left as it was).
    pub fn split_token(&mut self, market_id: u32, amount: u64, now: i64) -> (r: Result<
        TokenCalls,
        PredictionMarketError,
    >)
        ensures
            match old(self).split_checks(amount, now) {
                Err(e) => r == Err::<TokenCalls, PredictionMarketError>(e) && *final(self) == *old(self),
                Ok(()) => r matches Ok(calls) && calls.ops@ == old(self).split_ops(amount) && match old(
                    self,
                ).split_result(amount, now) {
                    Ok(m) => calls.finish is Ok && *final(self) == (SplitToken { market: m, ..*old(self) }),
                    Err(e) => calls.finish == Err::<(), PredictionMarketError>(e) && *final(self) == *old(self),
                },
            },
    {
        if self.market.is_settled {
            return Err(PredictionMarketError::MarketAlreadySettled);
        }
        if amount == 0 {
            return Err(PredictionMarketError::InvalidAmount);
        }
        if !(now < self.market.expiry_ts) {
            return Err(PredictionMarketError::MarketExpired);
        }
        let signer = signer_of(&self.market);
        let mut ops: Vec<TokenOp> = Vec::new();
        ops.push(TokenOp::Transfer {
            from: self.user_collateral.key,
            to: self.collateral_vault.key,
            authority: self.user,
            amount,
            signer: None,
        });
        ops.push(TokenOp::MintTo {
            mint: self.outcome_a_mint,
            to: self.user_outcome_a.key,
            authority: self.market_key,
            amount,
            signer: Some(signer),
        });
        ops.push(TokenOp::MintTo {
            mint: self.outcome_b_mint,
            to: self.user_outcome_b.key,
            authority: self.market_key,
            amount,
            signer: Some(signer),
        });
        assert(ops@ =~= old(self).split_ops(amount));
        let finish = match self.market.total_collateral_locked.checked_add(amount) {
            Some(total) => {
                self.market.total_collateral_locked = total;
                Ok(())
            },
            None => Err(PredictionMarketError::MathOverflow),
        };
        Ok(TokenCalls { ops, finish })
    }
}

} // verus!
