use vstd::prelude::*;

verus! {

/// An account address: the 32 bytes of a public key, held as four words.
#[derive(Clone, Copy, Debug, PartialEq, Eq, Hash, Structural)]
pub struct Key {
    pub w0: u64,
    pub w1: u64,
    pub w2: u64,
    pub w3: u64,
}

impl Key {
    /// Whether two addresses are the same.
    pub fn same(&self, other: &Key) -> (r: bool)
        ensures
            r == (*self == *other),
    {
        *self == *other
    }
}

/// The side of a binary market that won.
#[derive(Clone, Copy, Debug, PartialEq, Eq, Structural)]
pub enum WinningOutcome {
    OutcomeA,
    OutcomeB,
}

/// The market account: what the program stores for one market.
#[derive(Clone, Copy, Debug, PartialEq, Eq, Structural)]
pub struct Market {
    /// The only key that may settle the market.
    pub authority: Key,
    pub market_id: u32,
    pub is_settled: bool,
    /// Unix time after which the market no longer trades.
    pub expiry_ts: i64,
    /// The collateral token (a USDC-like mint).
    pub collateral_mint: Key,
    /// The token account, owned by the market, that holds the collateral.
    pub collateral_vault: Key,
    pub outcome_a_mint: Key,
    pub outcome_b_mint: Key,
    pub winning_outcome: Option<WinningOutcome>,
    /// Collateral counted as locked by splits and released by claims.
    pub total_collateral_locked: u64,
    /// The bump of the market's program-derived address.
    pub bump: u8,
}

impl Market {
    /// The market's own consistency: a winner is recorded exactly when the
    /// market is settled.
    pub open spec fn wf(self) -> bool {
        self.is_settled <==> self.winning_outcome is Some
    }

    /// The mint of the outcome that a settled market pays out on.
    pub open spec fn winning_mint(self) -> Key {
        match self.winning_outcome {
            Some(WinningOutcome::OutcomeA) => self.outcome_a_mint,
            _ => self.outcome_b_mint,
        }
    }
}

} // verus!
