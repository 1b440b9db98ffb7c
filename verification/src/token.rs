use vstd::prelude::*;
use crate::error::PredictionMarketError;
use crate::state::{Key, Market};

verus! {

/// What an instruction reads of a token account: its address, the mint of
/// the tokens it holds, the key that owns it, and its balance.
#[derive(Clone, Copy, Debug, PartialEq, Eq, Structural)]
pub struct TokenAccount {
    pub key: Key,
    pub mint: Key,
    pub owner: Key,
    pub amount: u64,
}

/// What an instruction reads of a mint: its address and its decimals.
#[derive(Clone, Copy, Debug, PartialEq, Eq, Structural)]
pub struct MintAccount {
    pub key: Key,
    pub decimals: u8,
}

/// The seeds with which the market's address signs a token instruction:
/// the prefix `"market"`, then the four bytes of `id_bytes` in order, then
/// `bump`.
#[derive(Clone, Copy, Debug, PartialEq, Eq, Hash)]
pub struct MarketSigner {
    pub id_bytes: (u8, u8, u8, u8),
    pub bump: u8,
}

/// The little-endian bytes of a 32-bit integer.
pub open spec fn le_bytes(x: u32) -> (u8, u8, u8, u8) {
    ((x % 256) as u8, ((x / 256) % 256) as u8, ((x / 65536) % 256) as u8, (x / 16777216) as u8)
}

/// The big-endian bytes of a 32-bit integer.
pub open spec fn be_bytes(x: u32) -> (u8, u8, u8, u8) {
    ((x / 16777216) as u8, ((x / 65536) % 256) as u8, ((x / 256) % 256) as u8, (x % 256) as u8)
}

/// The little-endian bytes of `x`.
pub fn u32_le_bytes(x: u32) -> (r: (u8, u8, u8, u8))
    ensures
        r == le_bytes(x),
{
    ((x % 256) as u8, ((x / 256) % 256) as u8, ((x / 65536) % 256) as u8, (x / 16777216) as u8)
}

/// The big-endian bytes of `x`.
pub fn u32_be_bytes(x: u32) -> (r: (u8, u8, u8, u8))
    ensures
        r == be_bytes(x),
{
    ((x / 16777216) as u8, ((x / 65536) % 256) as u8, ((x / 256) % 256) as u8, (x % 256) as u8)
}

/// The signer seeds of the market's address: its id in little-endian
/// bytes and its bump.
pub open spec fn market_signer(m: Market) -> MarketSigner {
    MarketSigner { id_bytes: le_bytes(m.market_id), bump: m.bump }
}

/// The market's id in big-endian bytes, with its bump.
pub open spec fn market_signer_be(m: Market) -> MarketSigner {
    MarketSigner { id_bytes: be_bytes(m.market_id), bump: m.bump }
}

/// The signer seeds of `m`'s address.
pub fn signer_of(m: &Market) -> (r: MarketSigner)
    ensures
        r == market_signer(*m),
{
    MarketSigner { id_bytes: u32_le_bytes(m.market_id), bump: m.bump }
}

/// `m`'s id written big-endian, with its bump.
pub fn signer_of_be(m: &Market) -> (r: MarketSigner)
    ensures
        r == market_signer_be(*m),
{
    MarketSigner { id_bytes: u32_be_bytes(m.market_id), bump: m.bump }
}

/// One instruction of the token program that the market program issues.
/// `signer` is `Some` where the market's own address signs as `authority`.
#[derive(Clone, Copy, Debug, PartialEq, Eq)]
pub enum TokenOp {
    /// Move `amount` tokens from `from` to `to`.
    Transfer { from: Key, to: Key, authority: Key, amount: u64, signer: Option<MarketSigner> },
    /// Move `amount` tokens of `mint`, which has `decimals`, from `from` to `to`.
    TransferChecked {
        from: Key,
        to: Key,
        mint: Key,
        authority: Key,
        amount: u64,
        decimals: u8,
        signer: Option<MarketSigner>,
    },
    /// Create `amount` new tokens of `mint` in `to`.
    MintTo { mint: Key, to: Key, authority: Key, amount: u64, signer: Option<MarketSigner> },
    /// Destroy `amount` tokens of `mint` held in `from`.
    Burn { mint: Key, from: Key, authority: Key, amount: u64, signer: Option<MarketSigner> },
    /// Remove the mint authority of `mint`, so that no one can mint it again.
    RemoveMintAuthority { mint: Key, current_authority: Key, signer: Option<MarketSigner> },
}

/// What an instruction that issues token instructions returns: the
/// instructions to issue, in order, and how the instruction ends once all
/// of them have succeeded (`Err` where a check made after them fails, which
/// undoes the whole instruction).
#[derive(Debug, PartialEq, Eq)]
pub struct TokenCalls {
    pub ops: Vec<TokenOp>,
    pub finish: Result<(), PredictionMarketError>,
}

} // verus!
