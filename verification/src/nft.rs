//! The NFT pallet: classes with a purpose (class type) and instances minted in
//! them. Ownership of instances is kept by the uniques pallet; this module
//! decides who may create, mint, transfer and burn, allocates the ids and
//! keeps the class and instance metadata.
use vstd::prelude::*;
use crate::types::{AccountId, Balance, ClassType, NftClassId, NftInstanceId, Reservation};

verus! {

#[derive(Clone, Copy, PartialEq, Eq, Debug, Structural)]
pub enum Error {
    /// String exceeds allowed length
    TooLong,
    /// Count of instances overflown
    NoAvailableInstanceId,
    /// Count of classes overflown
    NoAvailableClassId,
    /// No witness found for given class
    NoWitness,
    /// Class still contains minted tokens
    TokenClassNotEmpty,
    /// Class does not exist
    ClassUnknown,
    /// Royalty has to be set for marketplace
    RoyaltyNotSet,
    /// Author has to be set for marketplace
    AuthorNotSet,
    /// Metadata has to be set for marketplace
    MetadataNotSet,
    /// Cannot burn token if frozen
    TokenFrozen,
    /// Royalty not in 0-99 range
    NotInRange,
    /// Operation not permitted
    NotPermitted,
}

/// Metadata of a class.
#[derive(Debug)]
pub struct ClassInfo {
    /// The purpose of the class
    pub class_type: ClassType,
    /// Arbitrary data about a class, e.g. IPFS hash
    pub metadata: Vec<u8>,
}

/// Metadata of an instance of a marketplace class.
#[derive(Debug)]
pub struct InstanceInfo {
    /// The user account which receives the royalty
    pub author: AccountId,
    /// Royalty in percent in range 0-99
    pub royalty: u8,
    /// Arbitrary data about an instance, e.g. IPFS hash
    pub metadata: Vec<u8>,
}

/// The class the uniques pallet is asked to create.
#[derive(Clone, Copy, PartialEq, Eq, Debug, Structural)]
pub struct UniquesClass {
    pub class_id: NftClassId,
    pub owner: AccountId,
    pub admin: AccountId,
    pub deposit: Balance,
    pub free_holding: bool,
}

/// The instance the uniques pallet is asked to mint, and the token deposit
/// reserved from a signed minter.
#[derive(Clone, Copy, PartialEq, Eq, Debug, Structural)]
pub struct UniquesMint {
    pub class_id: NftClassId,
    pub instance_id: NftInstanceId,
    pub owner: AccountId,
    pub reserve: Option<Reservation>,
}

/// Classes whose instances only the protocol origin mints, burns and destroys:
/// pool share, liquidity mining and unknown classes.
pub open spec fn protocol_managed(class_type: ClassType) -> bool {
    class_type == ClassType::PoolShare || class_type == ClassType::LiquidityMining || class_type == ClassType::Unknown
}

fn is_protocol_managed(class_type: ClassType) -> (r: bool)
    ensures
        r == protocol_managed(class_type),
{
    class_type == ClassType::PoolShare || class_type == ClassType::LiquidityMining || class_type == ClassType::Unknown
}

/// The account the uniques pallet records for a call: the signer, or the default
/// account for the protocol origin.
pub open spec fn owner_of(sender: Option<AccountId>) -> AccountId {
    match sender {
        Some(s) => s,
        None => 0,
    }
}

/// `name` as a bounded string of at most `string_limit` bytes.
pub fn to_bounded_string(name: Vec<u8>, string_limit: u32) -> (r: Result<Vec<u8>, Error>)
    ensures
        name.len() > string_limit ==> r == Err::<Vec<u8>, Error>(Error::TooLong),
        name.len() <= string_limit ==> (r matches Ok(v) && v@ == name@),
{
    if name.len() as u64 > string_limit as u64 {
        return Err(Error::TooLong);
    }
    Ok(name)
}

/// Creates a class of `class_type` with `metadata`. `sender` is the signer, or
/// `None` for the protocol origin, which alone may create pool share classes. The
/// id is taken from `next_class_id`. Pool share classes are free; other classes
/// cost `class_deposit`. Returns the id, the class metadata and the class the
/// uniques pallet is asked to create.
pub fn create_class(
    sender: Option<AccountId>,
    class_type: ClassType,
    metadata: Vec<u8>,
    next_class_id: &mut NftClassId,
    string_limit: u32,
    class_deposit: Balance,
) -> (r: Result<(NftClassId, ClassInfo, UniquesClass), Error>)
    ensures
        r matches Err(e) ==> *final(next_class_id) == *old(next_class_id) && e == (
            if class_type == ClassType::PoolShare && sender is Some {
                Error::NotPermitted
            } else if *old(next_class_id) == u32::MAX {
                Error::NoAvailableClassId
            } else {
                Error::TooLong
            }),
        r is Ok <==> !(class_type == ClassType::PoolShare && sender is Some) && *old(next_class_id) < u32::MAX
            && metadata.len() <= string_limit,
        r matches Ok((id, info, uc)) ==> {
            &&& id == *old(next_class_id)
            &&& *final(next_class_id) == *old(next_class_id) + 1
            &&& info.class_type == class_type
            &&& info.metadata@ == metadata@
            &&& uc == (UniquesClass {
                class_id: id,
                owner: owner_of(sender),
                admin: owner_of(sender),
                deposit: if class_type == ClassType::PoolShare { 0 } else { class_deposit },
                free_holding: class_type == ClassType::PoolShare,
            })
        },
{
    if class_type == ClassType::PoolShare && sender.is_some() {
        return Err(Error::NotPermitted);
    }
    let class_id = *next_class_id;
    let next = match class_id.checked_add(1) {
        Some(v) => v,
        None => return Err(Error::NoAvailableClassId),
    };
    let metadata_bounded = to_bounded_string(metadata, string_limit)?;
    let (deposit, free_holding) = if class_type == ClassType::PoolShare {
        (0u128, true)
    } else {
        (class_deposit, false)
    };
    let owner = match sender {
        Some(s) => s,
        None => 0,
    };
    *next_class_id = next;
    Ok((
        class_id,
        ClassInfo { class_type, metadata: metadata_bounded },
        UniquesClass { class_id, owner, admin: owner, deposit, free_holding },
    ))
}

/// Mints an instance in a class of type `class_type` (`None` when the class does
/// not exist). Only the protocol origin (`sender == None`) mints into pool share,
/// liquidity mining and unknown classes. The id is taken from `next_instance_id`, the class's
/// instance counter. A signed minter reserves `token_deposit`. Instances of
/// marketplace classes need metadata, an author and a royalty below 100, and get
/// instance metadata. Returns the mint the uniques pallet is asked to make and the
/// instance metadata, if any.
pub fn mint(
    sender: Option<AccountId>,
    class_id: NftClassId,
    class_type: Option<ClassType>,
    author: Option<AccountId>,
    royalty: Option<u8>,
    metadata: Option<Vec<u8>>,
    next_instance_id: &mut NftInstanceId,
    string_limit: u32,
    token_deposit: Balance,
) -> (r: Result<(UniquesMint, Option<InstanceInfo>), Error>)
    ensures
        r matches Err(e) ==> *final(next_instance_id) == *old(next_instance_id) && e == (
            match class_type {
                None => Error::ClassUnknown,
                Some(ct) => if protocol_managed(ct) && sender is Some {
                    Error::NotPermitted
                } else if royalty matches Some(x) && x >= 100 {
                    Error::NotInRange
                } else if *old(next_instance_id) == u32::MAX {
                    Error::NoAvailableInstanceId
                } else if metadata is None {
                    Error::MetadataNotSet
                } else if metadata->Some_0.len() > string_limit {
                    Error::TooLong
                } else if author is None {
                    Error::AuthorNotSet
                } else {
                    Error::RoyaltyNotSet
                },
            }),
        r is Ok <==> (class_type matches Some(ct)
            && !(protocol_managed(ct) && sender is Some)
            && !(royalty matches Some(x) && x >= 100)
            && *old(next_instance_id) < u32::MAX
            && (ct == ClassType::Marketplace ==> (metadata matches Some(m) && m.len() <= string_limit
                && author is Some && royalty is Some))),
        r matches Ok((m, info)) ==> {
            &&& m == (UniquesMint {
                class_id,
                instance_id: *old(next_instance_id),
                owner: owner_of(sender),
                reserve: match sender {
                    Some(s) => Some(Reservation { who: s, amount: token_deposit }),
                    None => None,
                },
            })
            &&& *final(next_instance_id) == *old(next_instance_id) + 1
            &&& (class_type == Some(ClassType::Marketplace)) == (info is Some)
            &&& info matches Some(i) ==> i.author == author->Some_0 && i.royalty == royalty->Some_0
                && i.metadata@ == metadata->Some_0@
        },
{
    let ct = match class_type {
        Some(ct) => ct,
        None => return Err(Error::ClassUnknown),
    };
    if is_protocol_managed(ct) && sender.is_some() {
        return Err(Error::NotPermitted);
    }
    if let Some(r) = royalty {
        if r >= 100 {
            return Err(Error::NotInRange);
        }
    }
    let instance_id = *next_instance_id;
    let next = match instance_id.checked_add(1) {
        Some(v) => v,
        None => return Err(Error::NoAvailableInstanceId),
    };
    let (owner, reserve) = match sender {
        Some(s) => (s, Some(Reservation { who: s, amount: token_deposit })),
        None => (0u128, None),
    };
    let info = if ct == ClassType::Marketplace {
        let metadata = match metadata {
            Some(m) => m,
            None => return Err(Error::MetadataNotSet),
        };
        let metadata_bounded = to_bounded_string(metadata, string_limit)?;
        let author = match author {
            Some(a) => a,
            None => return Err(Error::AuthorNotSet),
        };
        let royalty = match royalty {
            Some(r) => r,
            None => return Err(Error::RoyaltyNotSet),
        };
        Some(InstanceInfo { author, royalty, metadata: metadata_bounded })
    } else {
        None
    };
    *next_instance_id = next;
    Ok((UniquesMint { class_id, instance_id, owner, reserve }, info))
}

/// Whether `sender` may move or burn an instance owned by `instance_owner`: the
/// protocol origin always may, a signer only when they own it.
pub fn check_instance_permission(sender: Option<AccountId>, instance_owner: AccountId) -> (r: Result<(), Error>)
    ensures
        r == (if sender matches Some(s) && s != instance_owner {
            Err::<(), Error>(Error::NotPermitted)
        } else {
            Ok(())
        }),
{
    if let Some(s) = sender {
        if s != instance_owner {
            return Err(Error::NotPermitted);
        }
    }
    Ok(())
}

/// Transfers an instance owned by `instance_owner`: permitted to its owner and to
/// the protocol origin. The uniques pallet moves it.
pub fn transfer(sender: Option<AccountId>, instance_owner: AccountId) -> (r: Result<(), Error>)
    ensures
        r == (if sender matches Some(s) && s != instance_owner {
            Err::<(), Error>(Error::NotPermitted)
        } else {
            Ok(())
        }),
{
    check_instance_permission(sender, instance_owner)
}

/// Burns an instance, owned by `instance_owner`, of a class of type `class_type`;
/// `can_transfer` tells whether the instance is not frozen. A signer may burn only
/// an instance they own, and none of a class only the protocol manages; a signed
/// owner gets back the `token_deposit` reserved when minting. The instance metadata
/// is removed.
pub fn burn(
    sender: Option<AccountId>,
    class_type: ClassType,
    can_transfer: bool,
    instance_owner: AccountId,
    token_deposit: Balance,
) -> (r: Result<Option<Reservation>, Error>)
    ensures
        r == (if !can_transfer {
            Err::<Option<Reservation>, Error>(Error::TokenFrozen)
        } else {
            match sender {
                None => Ok(None),
                Some(s) => if protocol_managed(class_type) || s != instance_owner {
                    Err(Error::NotPermitted)
                } else {
                    Ok(Some(Reservation { who: s, amount: token_deposit }))
                },
            }
        }),
{
    if !can_transfer {
        return Err(Error::TokenFrozen);
    }
    match sender {
        Some(s) => {
            if is_protocol_managed(class_type) || s != instance_owner {
                return Err(Error::NotPermitted);
            }
            Ok(Some(Reservation { who: s, amount: token_deposit }))
        },
        None => Ok(None),
    }
}

/// Destroys a class, given as the uniques pallet holds it (`None` when it does
/// not exist), of type `class_type` and with `instances` instances. The protocol
/// origin may destroy any class, a signer only a class they own that only the
/// protocol does not manage. Only an empty class is destroyed; on success the
/// class and its metadata are removed.
pub fn destroy_class(
    sender: Option<AccountId>,
    class: Option<UniquesClass>,
    class_type: ClassType,
    instances: u32,
) -> (r: Result<(), Error>)
    ensures
        r == (match class {
            None => Err::<(), Error>(Error::ClassUnknown),
            Some(c) => if sender matches Some(s) && (protocol_managed(class_type) || s != c.owner) {
                Err(Error::NotPermitted)
            } else if instances != 0 {
                Err(Error::TokenClassNotEmpty)
            } else {
                Ok(())
            },
        }),
{
    let c = match class {
        Some(c) => c,
        None => return Err(Error::ClassUnknown),
    };
    if let Some(s) = sender {
        if is_protocol_managed(class_type) || s != c.owner {
            return Err(Error::NotPermitted);
        }
    }
    if instances != 0 {
        return Err(Error::TokenClassNotEmpty);
    }
    Ok(())
}

/// Which operations a class type allows.
pub trait NftPermission {
    spec fn spec_can_create(class_type: ClassType) -> bool;
    spec fn spec_can_mint(class_type: ClassType) -> bool;
    spec fn spec_can_transfer(class_type: ClassType) -> bool;
    spec fn spec_can_burn(class_type: ClassType) -> bool;
    spec fn spec_can_destroy(class_type: ClassType) -> bool;
    spec fn spec_has_deposit(class_type: ClassType) -> bool;

    fn can_create(class_type: &ClassType) -> (r: bool)
        ensures
            r == Self::spec_can_create(*class_type);

    fn can_mint(class_type: &ClassType) -> (r: bool)
        ensures
            r == Self::spec_can_mint(*class_type);

    fn can_transfer(class_type: &ClassType) -> (r: bool)
        ensures
            r == Self::spec_can_transfer(*class_type);

    fn can_burn(class_type: &ClassType) -> (r: bool)
        ensures
            r == Self::spec_can_burn(*class_type);

    fn can_destroy(class_type: &ClassType) -> (r: bool)
        ensures
            r == Self::spec_can_destroy(*class_type);

    fn has_deposit(class_type: &ClassType) -> (r: bool)
        ensures
            r == Self::spec_has_deposit(*class_type);
}

/// The empty combination allows nothing.
impl NftPermission for () {
    open spec fn spec_can_create(class_type: ClassType) -> bool {
        false
    }

    open spec fn spec_can_mint(class_type: ClassType) -> bool {
        false
    }

    open spec fn spec_can_transfer(class_type: ClassType) -> bool {
        false
    }

    open spec fn spec_can_burn(class_type: ClassType) -> bool {
        false
    }

    open spec fn spec_can_destroy(class_type: ClassType) -> bool {
        false
    }

    open spec fn spec_has_deposit(class_type: ClassType) -> bool {
        false
    }

    fn can_create(class_type: &ClassType) -> (r: bool) {
        false
    }

    fn can_mint(class_type: &ClassType) -> (r: bool) {
        false
    }

    fn can_transfer(class_type: &ClassType) -> (r: bool) {
        false
    }

    fn can_burn(class_type: &ClassType) -> (r: bool) {
        false
    }

    fn can_destroy(class_type: &ClassType) -> (r: bool) {
        false
    }

    fn has_deposit(class_type: &ClassType) -> (r: bool) {
        false
    }
}

/// A combination of two permission sets (larger combinations nest) allows what either allows. Minting,
/// transferring and burning are allowed where either set allows creating.
impl<A: NftPermission, B: NftPermission> NftPermission for (A, B) {
    open spec fn spec_can_create(class_type: ClassType) -> bool {
        A::spec_can_create(class_type) || B::spec_can_create(class_type)
    }

    open spec fn spec_can_mint(class_type: ClassType) -> bool {
        A::spec_can_create(class_type) || B::spec_can_create(class_type)
    }

    open spec fn spec_can_transfer(class_type: ClassType) -> bool {
        A::spec_can_create(class_type) || B::spec_can_create(class_type)
    }

    open spec fn spec_can_burn(class_type: ClassType) -> bool {
        A::spec_can_create(class_type) || B::spec_can_create(class_type)
    }

    open spec fn spec_can_destroy(class_type: ClassType) -> bool {
        A::spec_can_destroy(class_type) || B::spec_can_destroy(class_type)
    }

    open spec fn spec_has_deposit(class_type: ClassType) -> bool {
        A::spec_has_deposit(class_type) || B::spec_has_deposit(class_type)
    }

    fn can_create(class_type: &ClassType) -> (r: bool) {
        if A::can_create(class_type) {
            return true;
        }
        B::can_create(class_type)
    }

    fn can_mint(class_type: &ClassType) -> (r: bool) {
        if A::can_create(class_type) {
            return true;
        }
        B::can_create(class_type)
    }

    fn can_transfer(class_type: &ClassType) -> (r: bool) {
        if A::can_create(class_type) {
            return true;
        }
        B::can_create(class_type)
    }

    fn can_burn(class_type: &ClassType) -> (r: bool) {
        if A::can_create(class_type) {
            return true;
        }
        B::can_create(class_type)
    }

    fn can_destroy(class_type: &ClassType) -> (r: bool) {
        if A::can_destroy(class_type) {
            return true;
        }
        B::can_destroy(class_type)
    }

    fn has_deposit(class_type: &ClassType) -> (r: bool) {
        if A::has_deposit(class_type) {
            return true;
        }
        B::has_deposit(class_type)
    }
}

} // verus!
