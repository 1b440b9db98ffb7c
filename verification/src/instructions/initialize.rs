use vstd::prelude::*;
use crate::error::PredictionMarketError;
use crate::state::{Key, Market};

verus! {

/// The bumps of the addresses that market creation derives.
#[derive(Clone, Copy, Debug, PartialEq, Eq, Structural)]
pub struct InitializeMarketBumps {
    pub market: u8,
    pub collateral_vault: u8,
    pub outcome_a_mint: u8,
    pub outcome_b_mint: u8,
}

/// The accounts of market creation: the new market account, the creator
/// (who becomes the market's authority), the collateral mint, and the
/// vault and the two outcome mints created with the market.
#[derive(Clone, Copy, Debug, PartialEq, Eq, Structural)]
pub struct InitializeMarket {
    pub market: Market,
    pub authority: Key,
    pub collateral_mint: Key,
    pub collateral_vault: Key,
    pub outcome_a_mint: Key,
    pub outcome_b_mint: Key,
}

impl InitializeMarket {
    /// The market that creation writes: open, without winner, with nothing
    /// locked, bound to these accounts.
    pub open spec fn new_market(self, market_id: u32, expiry_ts: i64, bumps: InitializeMarketBumps) -> Market {
        Market {
            authority: self.authority,
            market_id,
            is_settled: false,
            expiry_ts,
            collateral_mint: self.collateral_mint,
            collateral_vault: self.collateral_vault,
            outcome_a_mint: self.outcome_a_mint,
            outcome_b_mint: self.outcome_b_mint,
            winning_outcome: None,
            total_collateral_locked: 0,
            bump: bumps.market,
        }
    }

    /// Creates the market `market_id`, which trades until `expiry_ts`;
    /// `now` is the current Unix time. The expiry must lie in the future.
    pub fn initilize_market(
        &mut self,
        market_id: u32,
        expiry_ts: i64,
        bumps: InitializeMarketBumps,
        now: i64,
    ) -> (r: Result<(), PredictionMarketError>)
        ensures
            r is Ok <==> expiry_ts > now,
            r is Ok ==> *final(self) == (InitializeMarket {
                market: old(self).new_market(market_id, expiry_ts, bumps),
                ..*old(self)
            }),
            r is Err ==> r == Err::<(), PredictionMarketError>(PredictionMarketError::InvalidSettlementDeadline)
                && *final(self) == *old(self),
            r is Ok ==> final(self).market.wf(),
    {
        if !(expiry_ts > now) {
            return Err(PredictionMarketError::InvalidSettlementDeadline);
        }
        self.market = Market {
            authority: self.authority,
            market_id,
            is_settled: false,
            expiry_ts,
            collateral_mint: self.collateral_mint,
            collateral_vault: self.collateral_vault,
            outcome_a_mint: self.outcome_a_mint,
            outcome_b_mint: self.outcome_b_mint,
            winning_outcome: None,
            total_collateral_locked: 0,
            bump: bumps.market,
        };
        Ok(())
    }
}

} // verus!
