//! Migration of marketplace royalties to storage version 2: royalties kept in
//! percent (storage version 1) become basis points; royalties already in basis
//! points (storage version 0) are copied as they are.
use vstd::prelude::*;
use crate::marketplace::{Royalty, MAX_ROYALTY};
use crate::types::{AccountId, NftClassId, NftInstanceId};

verus! {

/// The highest royalty, in percent, of storage version 1.
pub const OLD_MAX_ROYALTY: u8 = 100u8;

/// A royalty of storage version 1.
#[derive(Clone, Copy, PartialEq, Eq, Debug, Structural)]
pub struct OldRoyalty {
    pub author: AccountId,
    /// Royalty in percent in range 0-99
    pub royalty: u8,
}

/// A royalty in percent converted to basis points.
pub fn migrate_royalty(old: OldRoyalty) -> (r: Royalty)
    ensures
        r.author == old.author,
        r.royalty == old.royalty * 100,
{
    let royalty = match (old.royalty as u16).checked_mul(100) {
        Some(v) => v,
        None => MAX_ROYALTY - 1,
    };
    Royalty { author: old.author, royalty }
}

/// Database reads and writes of a migration that moved `count` items:
/// `3 * count + 2` reads and `count + 2` writes, saturating.
pub fn migration_weight(count: u64) -> (r: (u64, u64))
    ensures
        r.0 == (if 3 * count + 2 <= u64::MAX { 3 * count + 2 } else { u64::MAX as int }),
        r.1 == (if count + 2 <= u64::MAX { count + 2 } else { u64::MAX as int }),
{
    let reads = match count.checked_mul(3) {
        Some(v) => match v.checked_add(2) {
            Some(w) => w,
            None => u64::MAX,
        },
        None => u64::MAX,
    };
    let writes = match count.checked_add(2) {
        Some(v) => v,
        None => u64::MAX,
    };
    (reads, writes)
}

/// The items of storage version 2 and the number of items moved: from version 0
/// the `v0_items` as they are, from any later version the `v1_items` converted to
/// basis points.
pub fn migrate(
    storage_version: u16,
    v0_items: Vec<(NftClassId, NftInstanceId, Royalty)>,
    v1_items: Vec<(NftClassId, NftInstanceId, OldRoyalty)>,
) -> (r: (Vec<(NftClassId, NftInstanceId, Royalty)>, u64))
    ensures
        storage_version == 0 ==> r.0@ == v0_items@,
        storage_version != 0 ==> r.0@.len() == v1_items@.len() && forall|i: int| 0 <= i < v1_items@.len() ==> {
            let (c, it, old) = #[trigger] v1_items@[i];
            r.0@[i] == (c, it, Royalty { author: old.author, royalty: (old.royalty * 100) as u16 })
        },
        r.1 == r.0@.len(),
{
    if storage_version == 0 {
        let n = v0_items.len() as u64;
        return (v0_items, n);
    }
    let mut out: Vec<(NftClassId, NftInstanceId, Royalty)> = Vec::new();
    let mut count: u64 = 0;
    let mut i: usize = 0;
    while i < v1_items.len()
        invariant
            0 <= i <= v1_items@.len(),
            out@.len() == i,
            count == i,
            forall|j: int| 0 <= j < i ==> {
                let (c, it, old) = #[trigger] v1_items@[j];
                out@[j] == (c, it, Royalty { author: old.author, royalty: (old.royalty * 100) as u16 })
            },
        decreases v1_items@.len() - i,
    {
        let (c, it, old) = v1_items[i];
        out.push((c, it, migrate_royalty(old)));
        count = count + 1;
        i = i + 1;
    }
    (out, count)
}

/// Whether every royalty is below 100% (the post-migration check).
pub fn royalties_in_range(items: &Vec<(NftClassId, NftInstanceId, Royalty)>) -> (r: bool)
    ensures
        r == forall|i: int| 0 <= i < items@.len() ==> (#[trigger] items@[i]).2.royalty < MAX_ROYALTY,
{
    let mut i: usize = 0;
    while i < items.len()
        invariant
            0 <= i <= items@.len(),
            forall|j: int| 0 <= j < i ==> (#[trigger] items@[j]).2.royalty < MAX_ROYALTY,
        decreases items@.len() - i,
    {
        if items[i].2.royalty >= MAX_ROYALTY {
            return false;
        }
        i = i + 1;
    }
    true
}

/// Royalties of storage version 1 in their documented range, 0 to 99 percent,
/// pass the post-migration check once migrated.
pub proof fn migrated_royalties_pass_the_post_check(v1_items: Seq<(NftClassId, NftInstanceId, OldRoyalty)>, migrated: Seq<(NftClassId, NftInstanceId, Royalty)>)
    requires
        forall|i: int| 0 <= i < v1_items.len() ==> (#[trigger] v1_items[i]).2.royalty < OLD_MAX_ROYALTY,
        migrated.len() == v1_items.len(),
        forall|i: int| 0 <= i < v1_items.len() ==> {
            let (c, it, old) = #[trigger] v1_items[i];
            migrated[i] == (c, it, Royalty { author: old.author, royalty: (old.royalty * 100) as u16 })
        },
    ensures
        forall|i: int| 0 <= i < migrated.len() ==> (#[trigger] migrated[i]).2.royalty < MAX_ROYALTY,
{
    assert forall|i: int| 0 <= i < migrated.len() implies (#[trigger] migrated[i]).2.royalty < MAX_ROYALTY by {
        let (c, it, old) = v1_items[i];
        assert(old.royalty < 100);
    }
}

} // verus!
