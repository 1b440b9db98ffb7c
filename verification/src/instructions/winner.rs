use vstd::prelude::*;
use crate::error::PredictionMarketError;
use crate::state::{Key, Market, WinningOutcome};
use crate::token::{market_signer, signer_of, TokenOp};

verus! {

/// The accounts of settlement: the market's authority, the market and the
/// two outcome mints.
#[derive(Clone, Copy, Debug, PartialEq, Eq, Structural)]
pub struct SetWinner {
    pub authority: Key,
    pub market_key: Key,
    pub market: Market,
    pub outcome_a_mint: Key,
    pub outcome_b_mint: Key,
}

impl SetWinner {
    /// The account constraints of settling market `market_id`: the signer
    /// must be the market's authority.
    pub open spec fn accounts_valid(self, market_id: u32) -> bool {
        &&& self.market.market_id == market_id
        &&& self.market.authority == self.authority
        &&& self.outcome_a_mint == self.market.outcome_a_mint
        &&& self.outcome_b_mint == self.market.outcome_b_mint
    }

    /// Checks the account constraints of settling market `market_id`.
    pub fn validate(&self, market_id: u32) -> (r: bool)
        ensures
            r == self.accounts_valid(market_id),
    {
        self.market.market_id == market_id
            && self.market.authority.same(&self.authority)
            && self.outcome_a_mint.same(&self.market.outcome_a_mint)
            && self.outcome_b_mint.same(&self.market.outcome_b_mint)
    }

    /// The settled market, or the error that settlement with `winner` at
    /// time `now` fails with.
    pub open spec fn settle_result(self, winner: WinningOutcome, now: i64) -> Result<Market, PredictionMarketError> {
        if self.market.is_settled {
            Err(PredictionMarketError::MarketAlreadySettled)
        } else if now >= self.market.expiry_ts {
            Err(PredictionMarketError::MarketExpired)
        } else {
            Ok(Market { is_settled: true, winning_outcome: Some(winner), ..self.market })
        }
    }

    /// The token instructions of settlement: the market gives up the mint
    /// authority of both outcome mints, so that neither can be minted again.
    pub open spec fn settle_ops(self) -> Seq<TokenOp> {
        seq![
            TokenOp::RemoveMintAuthority {
                mint: self.outcome_a_mint,
                current_authority: self.market_key,
                signer: Some(market_signer(self.market)),
            },
            TokenOp::RemoveMintAuthority {
                mint: self.outcome_b_mint,
                current_authority: self.market_key,
                signer: Some(market_signer(self.market)),
            },
        ]
    }

    /// Settles the market with `winner`, before its expiry (`now` is the
    /// current time). Returns the token instructions to issue, in order.
    pub fn set_winner(&mut self, market_id: u32, winner: WinningOutcome, now: i64) -> (r: Result<
        Vec<TokenOp>,
        PredictionMarketError,
    >)
        ensures
            match old(self).settle_result(winner, now) {
                Ok(m) => r matches Ok(ops) && ops@ == old(self).settle_ops()
                    && *final(self) == (SetWinner { market: m, ..*old(self) }),
                Err(e) => r == Err::<Vec<TokenOp>, PredictionMarketError>(e) && *final(self) == *old(self),
            },
    {
        if self.market.is_settled {
            return Err(PredictionMarketError::MarketAlreadySettled);
        }
        if !(now < self.market.expiry_ts) {
            return Err(PredictionMarketError::MarketExpired);
        }
        let signer = signer_of(&self.market);
        self.market.is_settled = true;
        self.market.winning_outcome = Some(winner);
        let mut ops: Vec<TokenOp> = Vec::new();
        ops.push(TokenOp::RemoveMintAuthority {
            mint: self.outcome_a_mint,
            current_authority: self.market_key,
            signer: Some(signer),
        });
        ops.push(TokenOp::RemoveMintAuthority {
            mint: self.outcome_b_mint,
            current_authority: self.market_key,
            signer: Some(signer),
        });
        assert(ops@ =~= old(self).settle_ops());
        Ok(ops)
    }
}

} // verus!
