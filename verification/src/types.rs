//! Identifiers and amounts shared by the pallets, and the currency movements
//! that the pallets ask the runtime to carry out.
use vstd::prelude::*;

verus! {

pub type AccountId = u128;

pub type Balance = u128;

pub type AssetId = u32;

pub type BlockNumber = u64;

pub type NftClassId = u32;

pub type NftInstanceId = u32;

/// A pair of assets traded in an AMM pool.
#[derive(Clone, Copy, PartialEq, Eq, Debug, Structural)]
pub struct AssetPair {
    pub asset_in: AssetId,
    pub asset_out: AssetId,
}

/// The purpose of an NFT class.
#[derive(Clone, Copy, PartialEq, Eq, Debug, Structural)]
pub enum ClassType {
    Unknown,
    Art,
    PoolShare,
    Marketplace,
    LiquidityMining,
    Redeemable,
}

/// Moving `amount` of the native currency from `from` to `to`.
#[derive(Clone, Copy, PartialEq, Eq, Debug, Structural)]
pub struct Payment {
    pub from: AccountId,
    pub to: AccountId,
    pub amount: Balance,
}

/// `amount` of the native currency of `who` put on hold or released.
#[derive(Clone, Copy, PartialEq, Eq, Debug, Structural)]
pub struct Reservation {
    pub who: AccountId,
    pub amount: Balance,
}

/// An account that takes part in a currency movement.
#[derive(Clone, Copy, PartialEq, Eq, Debug, Structural)]
pub enum Account {
    /// An ordinary account.
    User(AccountId),
    /// The account of the pallet itself, which holds deposited shares.
    Pallet,
    /// The sub-account that holds the rewards of the farm or liquidity pool with this id.
    Pool(u32),
}

/// Moving `amount` of `currency` from `from` to `to`.
#[derive(Clone, Copy, PartialEq, Eq, Debug, Structural)]
pub struct Transfer {
    pub currency: AssetId,
    pub from: Account,
    pub to: Account,
    pub amount: Balance,
}

} // verus!
