//! What the mint contract keeps of positions and assets, and what it reads of
//! the block it runs in.
use vstd::prelude::*;
use crate::asset::AssetRaw;
use crate::decimal::Decimal;

verus! {

/// A collateralized debt position: collateral locked against a minted asset.
#[derive(Clone, Debug, PartialEq)]
pub struct Position {
    pub idx: u128,
    /// The owner's canonical address bytes.
    pub owner: Vec<u8>,
    pub collateral: AssetRaw,
    pub asset: AssetRaw,
}

/// Parameters of an asset in its pre-IPO phase.
#[derive(Clone, Copy, Debug, PartialEq, Eq, Structural)]
pub struct IPOParams {
    /// The last second (since the epoch) at which the asset may be minted.
    pub mint_end: u64,
    pub pre_ipo_price: Decimal,
    pub min_collateral_ratio_after_ipo: Decimal,
}

/// How the mint contract treats one mintable asset.
#[derive(Clone, Debug, PartialEq)]
pub struct AssetConfig {
    /// The asset token's canonical address bytes.
    pub token: Vec<u8>,
    pub auction_discount: Decimal,
    pub min_collateral_ratio: Decimal,
    /// Set once the asset is deprecated (migrated): its final price.
    pub end_price: Option<Decimal>,
    /// Set while the asset has a limited minting period.
    pub ipo_params: Option<IPOParams>,
}

/// The block a call runs in.
#[derive(Clone, Debug, PartialEq)]
pub struct BlockInfo {
    pub height: u64,
    /// Nanoseconds since the epoch.
    pub time_nanos: u64,
    pub chain_id: String,
}

/// What a call knows of its environment.
#[derive(Clone, Debug, PartialEq)]
pub struct Env {
    pub block: BlockInfo,
}

} // verus!
