use vstd::prelude::*;
use crate::error::PredictionMarketError;
use crate::state::{Key, Market, WinningOutcome};
use crate::token::{market_signer, signer_of, MintAccount, TokenAccount, TokenCalls, TokenOp};

verus! {

/// The accounts of a claim: the user, the market, the collateral mint, the
/// user's collateral account, the market's vault, the two outcome mints and
/// the user's two outcome accounts.
#[derive(Clone, Copy, Debug, PartialEq, Eq, Structural)]
pub struct ClaimRewards {
    pub user: Key,
    pub market_key: Key,
    pub market: Market,
    pub collateral_mint: MintAccount,
    pub user_collateral: TokenAccount,
    pub collateral_vault: TokenAccount,
    pub outcome_a_mint: Key,
    pub outcome_b_mint: Key,
    pub user_outcome_a: TokenAccount,
    pub user_outcome_b: TokenAccount,
}

impl ClaimRewards {
    /// The account constraints of a claim on market `market_id`.
    pub open spec fn accounts_valid(self, market_id: u32) -> bool {
        &&& self.market.market_id == market_id
        &&& self.user_collateral.mint == self.market.collateral_mint
        &&& self.user_collateral.owner == self.user
        &&& self.collateral_vault.key == self.market.collateral_vault
        &&& self.outcome_a_mint == self.market.outcome_a_mint
        &&& self.outcome_b_mint == self.market.outcome_b_mint
        &&& self.user_outcome_a.mint == self.market.outcome_a_mint
        &&& self.user_outcome_a.owner == self.user
        &&& self.user_outcome_b.mint == self.market.outcome_b_mint
        &&& self.user_outcome_b.owner == self.user
    }

    /// Checks the account constraints of a claim on market `market_id`.
    pub fn validate(&self, market_id: u32) -> (r: bool)
        ensures
            r == self.accounts_valid(market_id),
    {
        self.market.market_id == market_id
            && self.user_collateral.mint.same(&self.market.collateral_mint)
            && self.user_collateral.owner.same(&self.user)
            && self.collateral_vault.key.same(&self.market.collateral_vault)
            && self.outcome_a_mint.same(&self.market.outcome_a_mint)
            && self.outcome_b_mint.same(&self.market.outcome_b_mint)
            && self.user_outcome_a.mint.same(&self.market.outcome_a_mint)
            && self.user_outcome_a.owner.same(&self.user)
            && self.user_outcome_b.mint.same(&self.market.outcome_b_mint)
            && self.user_outcome_b.owner.same(&self.user)
    }

    /// The winning mint passed to the claim.
    pub open spec fn winner_mint(self) -> Key {
        match self.market.winning_outcome {
            Some(WinningOutcome::OutcomeA) => self.outcome_a_mint,
            _ => self.outcome_b_mint,
        }
    }

    /// The user's account of the winning outcome token.
    pub open spec fn winner_account(self) -> TokenAccount {
        match self.market.winning_outcome {
            Some(WinningOutcome::OutcomeA) => self.user_outcome_a,
            _ => self.user_outcome_b,
        }
    }

    /// The checks a claim makes before it issues its token instructions.
    pub open spec fn claim_checks(self) -> Result<(), PredictionMarketError> {
        if !self.market.is_settled {
            Err(PredictionMarketError::MarketNotSettled)
        } else if self.market.winning_outcome is None {
            Err(PredictionMarketError::InvalidWinningOutcome)
        } else {
            Ok(())
        }
    }

    /// What a claim does to the market, or the error it fails with: the
    /// checks, then the user's whole winning balance leaves the locked
    /// collateral.
    pub open spec fn claim_result(self) -> Result<Market, PredictionMarketError> {
        if !self.market.is_settled {
            Err(PredictionMarketError::MarketNotSettled)
        } else if self.market.winning_outcome is None {
            Err(PredictionMarketError::InvalidWinningOutcome)
        } else if self.market.total_collateral_locked < self.winner_account().amount {
            Err(PredictionMarketError::MathOverflow)
        } else {
            Ok(Market {
                total_collateral_locked: (self.market.total_collateral_locked - self.winner_account().amount) as u64,
                ..self.market
            })
        }
    }

    /// The token instructions of a claim: the user's whole winning balance
    /// is burnt, and the vault pays the same amount of collateral to the
    /// user.
    pub open spec fn claim_ops(self) -> Seq<TokenOp> {
        let amount = self.winner_account().amount;
        seq![
            TokenOp::Burn {
                mint: self.winner_mint(),
                from: self.winner_account().key,
                authority: self.user,
                amount,
                signer: None,
            },
            TokenOp::TransferChecked {
                from: self.collateral_vault.key,
                to: self.user_collateral.key,
                mint: self.collateral_mint.key,
                authority: self.market_key,
                amount,
                decimals: self.collateral_mint.decimals,
                signer: Some(market_signer(self.market)),
            },
        ]
    }

    /// Redeems the user's winning outcome tokens for collateral, one for
    /// one, once the market is settled. Once the checks pass, returns the
    /// token instructions to issue, in order; after them the
    /// locked-collateral counter is lowered by the amount paid, or the claim
    /// fails with `MathOverflow` where the counter is below it (and the
    /// market is left as it was).
    pub fn claim_rewards(&mut self, market_id: u32) -> (r: Result<TokenCalls, PredictionMarketError>)
        ensures
            match old(self).claim_checks() {
                Err(e) => r == Err::<TokenCalls, PredictionMarketError>(e) && *final(self) == *old(self),
                Ok(()) => r matches Ok(calls) && calls.ops@ == old(self).claim_ops() && match old(
                    self,
                ).claim_result() {
                    Ok(m) => calls.finish is Ok && *final(self) == (ClaimRewards { market: m, ..*old(self) }),
                    Err(e) => calls.finish == Err::<(), PredictionMarketError>(e) && *final(self) == *old(self),
                },
            },
    {
        if !self.market.is_settled {
            return Err(PredictionMarketError::MarketNotSettled);
        }
        let winner = match self.market.winning_outcome {
            Some(w) => w,
            None => return Err(PredictionMarketError::InvalidWinningOutcome),
        };
        let (winner_mint, user_winner_ata) = match winner {
            WinningOutcome::OutcomeA => (self.outcome_a_mint, self.user_outcome_a),
            _ => (self.outcome_b_mint, self.user_outcome_b),
        };
        let amount = user_winner_ata.amount;
        let signer = signer_of(&self.market);
        let mut ops: Vec<TokenOp> = Vec::new();
        ops.push(TokenOp::Burn {
            mint: winner_mint,
            from: user_winner_ata.key,
            authority: self.user,
            amount,
            signer: None,
        });
        ops.push(TokenOp::TransferChecked {
            from: self.collateral_vault.key,
            to: self.user_collateral.key,
            mint: self.collateral_mint.key,
            authority: self.market_key,
            amount,
            decimals: self.collateral_mint.decimals,
            signer: Some(signer),
        });
        assert(ops@ =~= old(self).claim_ops());
        let finish = match self.market.total_collateral_locked.checked_sub(amount) {
            Some(total) => {
                self.market.total_collateral_locked = total;
                Ok(())
            },
            None => Err(PredictionMarketError::MathOverflow),
        };
        Ok(TokenCalls { ops, finish })
    }
}

} // verus!
