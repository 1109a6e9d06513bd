//! Stand-ins for the runtime's collaborators used by the liquidity-mining
//! benchmarks: pool accounts derived from asset pairs, an NFT registry kept in
//! memory, and a dust-removal whitelist that accepts every account.
use vstd::prelude::*;
use std::collections::HashMap;
use crate::types::{AccountId, AssetId, NftClassId, NftInstanceId};

verus! {

broadcast use vstd::std_specs::hash::group_hash_axioms;

/// The error of a dispatched call; the stubs here never produce one.
#[derive(Clone, Copy, PartialEq, Eq, Debug, Structural)]
pub struct DispatchError;

/// Derives the account of an AMM pool from its two assets.
pub struct AssetPairAccountIdTest();

/// The pool account of the pair: the smaller asset id times a thousand plus the
/// larger one, whichever order the assets come in.
pub open spec fn spec_pool_account(asset_a: AssetId, asset_b: AssetId) -> AccountId {
    if asset_a <= asset_b {
        (asset_a * 1000 + asset_b) as AccountId
    } else {
        (asset_b * 1000 + asset_a) as AccountId
    }
}

impl AssetPairAccountIdTest {
    pub fn from_assets(asset_a: AssetId, asset_b: AssetId, _identifier: &str) -> (r: AccountId)
        ensures
            r == spec_pool_account(asset_a, asset_b),
    {
        let mut a: u128 = asset_a as u128;
        let mut b: u128 = asset_b as u128;
        if a > b {
            std::mem::swap(&mut a, &mut b);
        }
        a * 1000 + b
    }
}

/// NFTs kept in memory: the owner of each minted instance.
pub struct NftHandlerStub {
    nfts: HashMap<NftInstanceId, AccountId>,
}

impl View for NftHandlerStub {
    type V = Map<NftInstanceId, AccountId>;

    closed spec fn view(&self) -> Map<NftInstanceId, AccountId> {
        self.nfts@
    }
}

impl NftHandlerStub {
    /// No NFT minted yet.
    pub fn new() -> (r: Self)
        ensures
            r@ == Map::<NftInstanceId, AccountId>::empty(),
    {
        NftHandlerStub { nfts: HashMap::new() }
    }

    /// The owner of `instance`, if it is minted; the class is not looked at.
    pub fn owner(&self, _class: NftClassId, instance: NftInstanceId) -> (r: Option<AccountId>)
        ensures
            r == (if self@.contains_key(instance) {
                Some(self@[instance])
            } else {
                None::<AccountId>
            }),
    {
        match self.nfts.get(&instance) {
            Some(o) => Some(*o),
            None => None,
        }
    }

    /// Creating a class always succeeds and changes nothing.
    pub fn create_class(&self, _class: NftClassId, _who: AccountId, _admin: AccountId) -> (r: Result<
        (),
        DispatchError,
    >)
        ensures
            r is Ok,
    {
        Ok(())
    }

    /// Mints `instance` to `who`, replacing any previous owner; the class is not
    /// looked at.
    pub fn mint_into(&mut self, _class: NftClassId, instance: NftInstanceId, who: AccountId) -> (r: Result<
        (),
        DispatchError,
    >)
        ensures
            r is Ok,
            final(self)@ == old(self)@.insert(instance, who),
    {
        self.nfts.insert(instance, who);
        Ok(())
    }

    /// Burns `instance`, minted or not; the class is not looked at.
    pub fn burn_from(&mut self, _class: NftClassId, instance: NftInstanceId) -> (r: Result<(), DispatchError>)
        ensures
            r is Ok,
            final(self)@ == old(self)@.remove(instance),
    {
        self.nfts.remove(&instance);
        Ok(())
    }
}

/// A dust-removal whitelist that accepts every change.
pub struct Whitelist;

impl Whitelist {
    pub fn add_account(_account: &AccountId) -> (r: Result<(), DispatchError>)
        ensures
            r is Ok,
    {
        Ok(())
    }

    pub fn remove_account(_account: &AccountId) -> (r: Result<(), DispatchError>)
        ensures
            r is Ok,
    {
        Ok(())
    }
}

/// What a mint writes, an owner read gives back; after a burn the instance has
/// no owner.
pub proof fn minted_instance_is_owned_until_burned(
    nfts: Map<NftInstanceId, AccountId>,
    instance: NftInstanceId,
    who: AccountId,
)
    ensures
        nfts.insert(instance, who).contains_key(instance),
        nfts.insert(instance, who)[instance] == who,
        !nfts.insert(instance, who).remove(instance).contains_key(instance),
{
}

} // verus!
