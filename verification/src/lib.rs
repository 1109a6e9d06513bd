//! Verified core of the Basilisk runtime pallets: liquidity mining rewards,
//! the NFT marketplace, the NFT pallet, the price oracle, redeemables and the
//! asset registry. Storage, origins and currency movements belong to the
//! runtime; every decision those pallets take is computed here.
use vstd::prelude::*;

pub mod fixed;
pub mod types;
pub mod liquidity_mining;
pub mod liquidity_mining_laws;
pub mod liquidity_mining_migration;
pub mod nft;
pub mod marketplace;
pub mod marketplace_migration;
pub mod marketplace_laws;
pub mod price_oracle;
pub mod price_oracle_laws;
pub mod redeemables;
pub mod registry;
pub mod benchmarking;
pub mod stubs;

verus! {

} // verus!
