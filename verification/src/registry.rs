//! Asset registry: names assets, hands out sequential asset ids (never the
//! native asset's id on registration), and keeps their metadata and locations.
use vstd::prelude::*;
use crate::types::AssetId;

verus! {

#[derive(Clone, Copy, PartialEq, Eq, Debug, Structural)]
pub enum Error {
    /// Asset Id is not available. This only happens when it reaches the MAX value of given id type.
    NoIdAvailable,
    /// Invalid asset name or symbol.
    AsseTNotFound,
    /// Invalid asset name or symbol.
    BadMetadata,
    /// Asset ID is not registered in the registry.
    AssetNotRegistered,
    /// Asset is already registered.
    AssetAlreadyRegistered,
    /// Setting metadata for incorrect asset.
    AssetMismatch,
}

/// What kind of asset an id stands for.
#[derive(Clone, Copy, PartialEq, Eq, Debug, Structural)]
pub enum AssetType {
    Token,
    PoolShare(AssetId, AssetId),
}

/// Details of a registered asset.
#[derive(Clone, Debug)]
pub struct AssetDetails {
    pub name: Vec<u8>,
    pub asset_type: AssetType,
    pub locked: bool,
}

/// Metadata of a registered asset.
#[derive(Clone, Debug)]
pub struct AssetMetadata {
    pub symbol: Vec<u8>,
    pub decimals: u8,
}

/// Checks a name or symbol against the registry's length limit.
pub fn to_bounded_name(name: Vec<u8>, string_limit: u32) -> (r: Result<Vec<u8>, Error>)
    ensures
        name@.len() <= string_limit ==> (r matches Ok(n) && n@ == name@),
        name@.len() > string_limit ==> r == Err::<Vec<u8>, Error>(Error::BadMetadata),
{
    if name.len() <= string_limit as usize {
        Ok(name)
    } else {
        Err(Error::BadMetadata)
    }
}

/// The id a registration takes when the next free id is `next`, and the next free
/// id afterwards; `None` when the ids have run out. The native asset's id is
/// skipped.
pub open spec fn spec_new_asset_id(next: AssetId, native: AssetId) -> Option<(AssetId, AssetId)> {
    let id: int = if next == native { next + 1 } else { next as int };
    if id + 1 > u32::MAX {
        None
    } else {
        Some((id as AssetId, (id + 1) as AssetId))
    }
}

/// Registers the asset `name` of type `asset_type`. `name_taken` tells whether
/// the name already has an id; `next_asset_id` is the next free id, advanced on
/// success. Returns the new id and the details stored under it.
pub fn register_asset(
    name: Vec<u8>,
    asset_type: AssetType,
    name_taken: bool,
    next_asset_id: &mut AssetId,
    native_asset_id: AssetId,
    string_limit: u32,
) -> (r: Result<(AssetId, AssetDetails), Error>)
    ensures
        name@.len() > string_limit ==> (r matches Err(e) && e == Error::BadMetadata),
        name@.len() <= string_limit && name_taken ==> (r matches Err(e) && e == Error::AssetAlreadyRegistered),
        name@.len() <= string_limit && !name_taken && spec_new_asset_id(*old(next_asset_id), native_asset_id) is None
            ==> (r matches Err(e) && e == Error::NoIdAvailable),
        name@.len() <= string_limit && !name_taken && spec_new_asset_id(*old(next_asset_id), native_asset_id) is Some
            ==> r is Ok,
        r matches Ok((id, details)) ==> ({
            let (new_id, new_next) = spec_new_asset_id(*old(next_asset_id), native_asset_id)->Some_0;
            &&& id == new_id
            &&& *final(next_asset_id) == new_next
            &&& details.name@ == name@
            &&& details.asset_type == asset_type
            &&& !details.locked
        }),
        r is Err ==> *final(next_asset_id) == *old(next_asset_id),
{
    let bounded_name = match to_bounded_name(name, string_limit) {
        Ok(n) => n,
        Err(e) => return Err(e),
    };
    if name_taken {
        return Err(Error::AssetAlreadyRegistered);
    }
    let value = *next_asset_id;
    let asset_id = if value == native_asset_id {
        match value.checked_add(1) {
            Some(v) => v,
            None => return Err(Error::NoIdAvailable),
        }
    } else {
        value
    };
    let next = match asset_id.checked_add(1) {
        Some(v) => v,
        None => return Err(Error::NoIdAvailable),
    };
    *next_asset_id = next;
    Ok((asset_id, AssetDetails { name: bounded_name, asset_type, locked: false }))
}

/// Renames and retypes the asset whose details are in `detail`. On success,
/// returns the old name when it differs from the new one: that name no longer
/// maps to the asset, and the new one does.
pub fn update_asset(
    detail: &mut Option<AssetDetails>,
    name: Vec<u8>,
    asset_type: AssetType,
    string_limit: u32,
) -> (r: Result<Option<Vec<u8>>, Error>)
    ensures
        (*old(detail)) is None ==> (r matches Err(e) && e == Error::AsseTNotFound),
        (*old(detail)) is Some && name@.len() > string_limit ==> (r matches Err(e) && e == Error::BadMetadata),
        (*old(detail)) is Some && name@.len() <= string_limit ==> r is Ok,
        r is Err ==> *final(detail) == *old(detail),
        r matches Ok(unlinked) ==> ({
            let before = old(detail)->Some_0;
            &&& (*final(detail)) matches Some(after)
            &&& after.name@ == name@
            &&& after.asset_type == asset_type
            &&& after.locked == before.locked
            &&& (before.name@ == name@ ==> unlinked is None)
            &&& (before.name@ != name@ ==> (unlinked matches Some(n) && n@ == before.name@))
        }),
{
    let mut d = match detail.take() {
        Some(d) => d,
        None => return Err(Error::AsseTNotFound),
    };
    if name.len() > string_limit as usize {
        *detail = Some(d);
        return Err(Error::BadMetadata);
    }
    let same = crate::price_oracle::bytes_eq(&name, &d.name);
    let mut old_name = name;
    std::mem::swap(&mut old_name, &mut d.name);
    d.asset_type = asset_type;
    *detail = Some(d);
    if same {
        Ok(None)
    } else {
        Ok(Some(old_name))
    }
}

/// The metadata to store for an asset: `asset_exists` tells whether the asset is
/// registered.
pub fn set_metadata(asset_exists: bool, symbol: Vec<u8>, decimals: u8, string_limit: u32) -> (r: Result<
    AssetMetadata,
    Error,
>)
    ensures
        !asset_exists ==> (r matches Err(e) && e == Error::AsseTNotFound),
        asset_exists && symbol@.len() > string_limit ==> (r matches Err(e) && e == Error::BadMetadata),
        asset_exists && symbol@.len() <= string_limit ==> (r matches Ok(m) && m.symbol@ == symbol@ && m.decimals
            == decimals),
{
    if !asset_exists {
        return Err(Error::AsseTNotFound);
    }
    let symbol = match to_bounded_name(symbol, string_limit) {
        Ok(s) => s,
        Err(e) => return Err(e),
    };
    Ok(AssetMetadata { symbol, decimals })
}

/// Links an asset to its native location, given as its encoding: the pair is
/// stored both ways. `asset_exists` tells whether the asset is registered.
pub fn set_asset_location(asset_exists: bool, asset_id: AssetId, location: Vec<u8>) -> (r: Result<
    (AssetId, Vec<u8>),
    Error,
>)
    ensures
        !asset_exists ==> (r matches Err(e) && e == Error::AssetNotRegistered),
        asset_exists ==> (r matches Ok((id, l)) && id == asset_id && l@ == location@),
{
    if !asset_exists {
        return Err(Error::AssetNotRegistered);
    }
    Ok((asset_id, location))
}

/// The id for the asset `name`: `existing` when the name already has one,
/// else the next free id, which then advances by one.
pub fn get_or_create_asset(
    name: Vec<u8>,
    existing: Option<AssetId>,
    next_asset_id: &mut AssetId,
    string_limit: u32,
) -> (r: Result<AssetId, Error>)
    ensures
        name@.len() > string_limit ==> (r matches Err(e) && e == Error::BadMetadata),
        name@.len() <= string_limit && existing is Some ==> (r matches Ok(id) && id == existing->Some_0),
        name@.len() <= string_limit && existing is None && *old(next_asset_id) == u32::MAX
            ==> (r matches Err(e) && e == Error::NoIdAvailable),
        name@.len() <= string_limit && existing is None && *old(next_asset_id) < u32::MAX ==> (r matches Ok(id)
            && id == *old(next_asset_id) && *final(next_asset_id) == *old(next_asset_id) + 1),
        !(r is Ok && existing is None) ==> *final(next_asset_id) == *old(next_asset_id),
{
    if name.len() > string_limit as usize {
        return Err(Error::BadMetadata);
    }
    match existing {
        Some(id) => Ok(id),
        None => {
            let asset_id = *next_asset_id;
            let next_id = match asset_id.checked_add(1) {
                Some(v) => v,
                None => return Err(Error::NoIdAvailable),
            };
            *next_asset_id = next_id;
            Ok(asset_id)
        },
    }
}

/// A registration never hands out the native asset's id, and the next free id
/// afterwards is above the id handed out, which is not below the previous next
/// free id: ids handed out by successive registrations strictly increase.
pub proof fn registration_skips_native_and_advances(next: AssetId, native: AssetId)
    ensures
        spec_new_asset_id(next, native) matches Some((id, new_next)) ==> {
            &&& id != native
            &&& next <= id < new_next
        },
{
}

/// Two registrations in a row (the second starting from where the first left
/// the next free id) hand out different ids.
pub proof fn successive_registrations_get_distinct_ids(next: AssetId, native: AssetId)
    requires
        spec_new_asset_id(next, native) is Some,
        spec_new_asset_id(spec_new_asset_id(next, native)->Some_0.1, native) is Some,
    ensures
        spec_new_asset_id(next, native)->Some_0.0 != spec_new_asset_id(
            spec_new_asset_id(next, native)->Some_0.1,
            native,
        )->Some_0.0,
{
}

} // verus!
