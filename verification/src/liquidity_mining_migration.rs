//! Migration of the liquidity mining pallet to storage version 1: the NFT
//! collection that holds the deposits is created once, owned by the pallet's
//! account. The collection is created by the NFT pallet; this module decides
//! whether to ask for it and what the storage version becomes.
use vstd::prelude::*;
use crate::types::{AccountId, NftClassId};

verus! {

/// The storage version the migration moves to.
pub const STORAGE_VERSION: u16 = 1u16;

/// Database reads the migration costs when it runs.
pub const READ_WEIGHT: u64 = 3u64;

/// Database writes the migration costs when it runs.
pub const WRITE_WEIGHT: u64 = 5u64;

/// What the migration asks of the NFT pallet.
#[derive(Clone, Copy, PartialEq, Eq, Debug, Structural)]
pub enum CollectionMigrationStep {
    /// Create the liquidity mining collection `collection` owned by `owner`.
    CreateCollection { owner: AccountId, collection: NftClassId },
    /// Nothing to create.
    Skip,
}

/// The step of the migration at storage version `version`, given the pallet's
/// account (`None` when it cannot be derived) and the id of the collection, and the
/// database reads and writes it costs. Only storage version 0 is migrated.
pub open spec fn spec_init_nft_collection(
    version: u16,
    pallet_account: Option<AccountId>,
    collection: NftClassId,
) -> (CollectionMigrationStep, (u64, u64)) {
    if version != 0 {
        (CollectionMigrationStep::Skip, (0u64, 0u64))
    } else {
        match pallet_account {
            Some(owner) => (CollectionMigrationStep::CreateCollection { owner, collection }, (READ_WEIGHT, WRITE_WEIGHT)),
            None => (CollectionMigrationStep::Skip, (READ_WEIGHT, WRITE_WEIGHT)),
        }
    }
}

/// The storage version after the step taken at `version`: it moves to
/// `STORAGE_VERSION` only when the collection was created (`created`).
pub open spec fn spec_storage_version_after(version: u16, step: CollectionMigrationStep, created: bool) -> u16 {
    if version == 0 && step is CreateCollection && created {
        STORAGE_VERSION
    } else {
        version
    }
}

pub fn init_nft_collection(
    version: u16,
    pallet_account: Option<AccountId>,
    collection: NftClassId,
) -> (r: (CollectionMigrationStep, (u64, u64)))
    ensures
        r == spec_init_nft_collection(version, pallet_account, collection),
{
    if version != 0 {
        return (CollectionMigrationStep::Skip, (0, 0));
    }
    match pallet_account {
        Some(owner) => (CollectionMigrationStep::CreateCollection { owner, collection }, (READ_WEIGHT, WRITE_WEIGHT)),
        None => (CollectionMigrationStep::Skip, (READ_WEIGHT, WRITE_WEIGHT)),
    }
}

pub fn storage_version_after(version: u16, step: CollectionMigrationStep, created: bool) -> (r: u16)
    ensures
        r == spec_storage_version_after(version, step, created),
{
    match step {
        CollectionMigrationStep::CreateCollection { .. } => if version == 0 && created {
            STORAGE_VERSION
        } else {
            version
        },
        CollectionMigrationStep::Skip => version,
    }
}

/// The migration runs at most once: once it has created the collection, the
/// version it leaves behind makes a second run ask for nothing and cost nothing.
pub proof fn migration_runs_once(owner: AccountId, collection: NftClassId, account_later: Option<AccountId>)
    ensures
        ({
            let (step, _) = spec_init_nft_collection(0, Some(owner), collection);
            let v = spec_storage_version_after(0, step, true);
            &&& v == STORAGE_VERSION
            &&& spec_init_nft_collection(v, account_later, collection) == (CollectionMigrationStep::Skip, (0u64, 0u64))
        }),
{
}

} // verus!
