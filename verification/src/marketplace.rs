//! The NFT marketplace: owners list instances for sale, buyers buy them or make
//! offers, owners accept offers, and authors receive a royalty on every sale.
//! Storage, the native currency and the NFT pallet belong to the runtime; the
//! decisions, the amounts and the order of the payments are computed here.
use vstd::prelude::*;
use crate::nft::NftPermission;
use crate::types::{AccountId, Balance, BlockNumber, ClassType, Payment, Reservation};

verus! {

/// 100% in basis points.
pub const MAX_ROYALTY: u16 = 10_000u16;

#[derive(Clone, Copy, PartialEq, Eq, Debug, Structural)]
pub enum Error {
    /// Account is not the owner of the token
    NotTheTokenOwner,
    /// Cannot buy a token from yourself
    BuyFromSelf,
    /// Token is currently not for sale
    NotForSale,
    /// Collection or item does not exist
    CollectionOrItemUnknown,
    /// Offer is lower than the minimum threshold
    OfferTooLow,
    /// No offer for this token found from the user
    UnknownOffer,
    /// Offer is no longer valid
    OfferExpired,
    /// User already made an offer for this token
    AlreadyOffered,
    /// User has to be offer maker or token owner to withdraw an offer
    WithdrawNotAuthorized,
    /// User has to be the token owner to accept an offer
    AcceptNotAuthorized,
    /// Royalty can be set only once
    RoyaltyAlreadySet,
    /// Royalty not in 0-9_999 range
    NotInRange,
}

/// Why a marketplace call fails: a marketplace error, an error of the NFT pallet,
/// or an arithmetic overflow.
#[derive(Clone, Copy, PartialEq, Eq, Debug, Structural)]
pub enum Failure {
    Market(Error),
    Nft(crate::nft::Error),
    Overflow,
}

#[derive(Clone, Copy, PartialEq, Eq, Debug, Structural)]
pub struct Offer {
    /// User who made the offer
    pub maker: AccountId,
    /// Offered amount
    pub amount: Balance,
    /// After this block the offer can't be accepted
    pub expires: BlockNumber,
}

/// The author of an item and the cut of every sale they receive, in basis points.
#[derive(Clone, Copy, PartialEq, Eq, Debug, Structural)]
pub struct Royalty {
    pub author: AccountId,
    pub royalty: u16,
}

/// Royalty information in percent.
#[derive(Clone, Copy, PartialEq, Eq, Debug, Structural)]
pub struct MarketInstance {
    /// The user account which receives the royalty
    pub author: AccountId,
    /// Royalty in percent in range 0-99
    pub royalty: u8,
}

/// The class types the marketplace works with: marketplace classes only.
#[derive(Clone, Copy, PartialEq, Eq, Debug, Structural)]
pub struct MarketPlacePermissions;

impl NftPermission for MarketPlacePermissions {
    open spec fn spec_can_create(class_type: ClassType) -> bool {
        class_type == ClassType::Marketplace
    }

    open spec fn spec_can_mint(class_type: ClassType) -> bool {
        class_type == ClassType::Marketplace
    }

    open spec fn spec_can_transfer(class_type: ClassType) -> bool {
        class_type == ClassType::Marketplace
    }

    open spec fn spec_can_burn(class_type: ClassType) -> bool {
        class_type == ClassType::Marketplace
    }

    open spec fn spec_can_destroy(class_type: ClassType) -> bool {
        class_type == ClassType::Marketplace
    }

    open spec fn spec_has_deposit(class_type: ClassType) -> bool {
        class_type == ClassType::Marketplace
    }

    fn can_create(class_type: &ClassType) -> (r: bool) {
        *class_type == ClassType::Marketplace
    }

    fn can_mint(class_type: &ClassType) -> (r: bool) {
        *class_type == ClassType::Marketplace
    }

    fn can_transfer(class_type: &ClassType) -> (r: bool) {
        *class_type == ClassType::Marketplace
    }

    fn can_burn(class_type: &ClassType) -> (r: bool) {
        *class_type == ClassType::Marketplace
    }

    fn can_destroy(class_type: &ClassType) -> (r: bool) {
        *class_type == ClassType::Marketplace
    }

    fn has_deposit(class_type: &ClassType) -> (r: bool) {
        *class_type == ClassType::Marketplace
    }
}

/// Sets or clears the listing price in `price`; only the owner of the item
/// (`owner`, `None` when the item does not exist) may do so.
pub fn set_price(
    sender: AccountId,
    owner: Option<AccountId>,
    price: &mut Option<Balance>,
    new_price: Option<Balance>,
) -> (r: Result<(), Error>)
    ensures
        r == (if owner == Some(sender) { Ok::<(), Error>(()) } else { Err(Error::NotTheTokenOwner) }),
        r is Ok ==> *final(price) == new_price,
        r is Err ==> *final(price) == *old(price),
{
    if owner != Some(sender) {
        return Err(Error::NotTheTokenOwner);
    }
    *price = new_price;
    Ok(())
}

/// The reservation and the offer slot after `sender` offers `amount` until `expires`.
pub open spec fn spec_make_offer(
    sender: AccountId,
    amount: Balance,
    expires: BlockNumber,
    offer: Option<Offer>,
    minimum_offer_amount: Balance,
) -> Result<(Reservation, Option<Offer>), Error> {
    if amount < minimum_offer_amount {
        Err(Error::OfferTooLow)
    } else if offer is Some {
        Err(Error::AlreadyOffered)
    } else {
        Ok((Reservation { who: sender, amount }, Some(Offer { maker: sender, amount, expires })))
    }
}

/// The release and the offer slot after `sender` withdraws the offer in `offer`.
pub open spec fn spec_withdraw_offer(
    sender: AccountId,
    owner: Option<AccountId>,
    offer: Option<Offer>,
) -> Result<(Reservation, Option<Offer>), Error> {
    match offer {
        None => Err(Error::UnknownOffer),
        Some(o) => if sender == o.maker || owner == Some(sender) {
            Ok((Reservation { who: o.maker, amount: o.amount }, None))
        } else {
            Err(Error::WithdrawNotAuthorized)
        },
    }
}

/// Places an offer of `amount` valid until block `expires` in `offer`, the offer
/// slot of `sender` for the item. The amount is reserved from the maker.
pub fn make_offer(
    sender: AccountId,
    amount: Balance,
    expires: BlockNumber,
    offer: &mut Option<Offer>,
    minimum_offer_amount: Balance,
) -> (r: Result<Reservation, Error>)
    ensures
        r matches Ok(res) ==> spec_make_offer(sender, amount, expires, *old(offer), minimum_offer_amount)
            == Ok::<(Reservation, Option<Offer>), Error>((res, *final(offer))),
        r matches Err(e) ==> spec_make_offer(sender, amount, expires, *old(offer), minimum_offer_amount)
            == Err::<(Reservation, Option<Offer>), Error>(e) && *final(offer) == *old(offer),
{
    if amount < minimum_offer_amount {
        return Err(Error::OfferTooLow);
    }
    if offer.is_some() {
        return Err(Error::AlreadyOffered);
    }
    *offer = Some(Offer { maker: sender, amount, expires });
    Ok(Reservation { who: sender, amount })
}

/// Removes the offer in `offer`, at the request of its maker or of the item's
/// owner (`owner`, `None` when the item is gone), and releases the reserved amount
/// of the maker.
pub fn withdraw_offer(
    sender: AccountId,
    owner: Option<AccountId>,
    offer: &mut Option<Offer>,
) -> (r: Result<Reservation, Error>)
    ensures
        r matches Ok(res) ==> spec_withdraw_offer(sender, owner, *old(offer))
            == Ok::<(Reservation, Option<Offer>), Error>((res, *final(offer))),
        r matches Err(e) ==> spec_withdraw_offer(sender, owner, *old(offer))
            == Err::<(Reservation, Option<Offer>), Error>(e) && *final(offer) == *old(offer),
{
    let o = match offer {
        Some(o) => *o,
        None => return Err(Error::UnknownOffer),
    };
    let sender_is_owner = match owner {
        Some(owner) => sender == owner,
        None => false,
    };
    if !(sender == o.maker || sender_is_owner) {
        return Err(Error::WithdrawNotAuthorized);
    }
    *offer = None;
    Ok(Reservation { who: o.maker, amount: o.amount })
}

/// A sale: who sold to whom, the price the seller received, the royalty paid to
/// the author if any, and the payments in the order they are made. The item then
/// moves from the seller to the buyer.
#[derive(Clone, Copy, PartialEq, Eq, Debug, Structural)]
pub struct Sale {
    pub owner: AccountId,
    pub buyer: AccountId,
    pub price: Balance,
    pub royalty_payment: Option<Payment>,
    pub price_payment: Payment,
}

/// The royalty on `price`: `price * royalty / 10_000`, rounded down.
pub open spec fn royalty_amount(price: Balance, royalty: u16) -> int {
    price * royalty / (MAX_ROYALTY as int)
}

/// A sale of an item owned by `owner` to `buyer` for `price`, with the item's
/// royalty settings `royalty`: the author, unless they are the seller, gets the
/// royalty out of the price, and the seller the rest (nothing, should the royalty
/// exceed the price).
pub open spec fn spec_sale(owner: AccountId, buyer: AccountId, price: Balance, royalty: Option<Royalty>) -> Result<Sale, Failure> {
    match royalty {
        Some(r) => if price * r.royalty > u128::MAX {
            Err(Failure::Overflow)
        } else if owner != r.author && r.royalty != 0 {
            let cut = royalty_amount(price, r.royalty);
            let rest: Balance = if cut <= price { (price - cut) as Balance } else { 0 };
            Ok(Sale {
                owner,
                buyer,
                price: rest,
                royalty_payment: Some(Payment { from: buyer, to: r.author, amount: cut as Balance }),
                price_payment: Payment { from: buyer, to: owner, amount: rest },
            })
        } else {
            Ok(Sale { owner, buyer, price, royalty_payment: None, price_payment: Payment { from: buyer, to: owner, amount: price } })
        },
        None => Ok(Sale { owner, buyer, price, royalty_payment: None, price_payment: Payment { from: buyer, to: owner, amount: price } }),
    }
}

/// The sale of an item to `buyer`, for its listing price in `price` or, when
/// `is_offer`, for the buyer's offer `offer_amount` (`None` when there is none).
/// `owner` is the item's owner (`None` when it does not exist) and `royalty` its
/// royalty settings. A sale for the listing price removes the listing.
pub open spec fn spec_do_buy(
    buyer: AccountId,
    owner: Option<AccountId>,
    price: Option<Balance>,
    offer_amount: Option<Balance>,
    is_offer: bool,
    royalty: Option<Royalty>,
) -> Result<Sale, Failure> {
    match owner {
        None => Err(Failure::Market(Error::CollectionOrItemUnknown)),
        Some(o) => if buyer == o {
            Err(Failure::Market(Error::BuyFromSelf))
        } else if is_offer {
            match offer_amount {
                None => Err(Failure::Market(Error::UnknownOffer)),
                Some(a) => spec_sale(o, buyer, a, royalty),
            }
        } else {
            match price {
                None => Err(Failure::Market(Error::NotForSale)),
                Some(p) => spec_sale(o, buyer, p, royalty),
            }
        },
    }
}

/// Sells the item to `buyer`; see `spec_do_buy`.
pub fn do_buy(
    buyer: AccountId,
    owner: Option<AccountId>,
    price: &mut Option<Balance>,
    offer_amount: Option<Balance>,
    is_offer: bool,
    royalty: Option<Royalty>,
) -> (r: Result<Sale, Failure>)
    ensures
        r == spec_do_buy(buyer, owner, *old(price), offer_amount, is_offer, royalty),
        r is Ok && !is_offer ==> *final(price) == None::<Balance>,
        !(r is Ok && !is_offer) ==> *final(price) == *old(price),
{
    let owner = match owner {
        Some(o) => o,
        None => return Err(Failure::Market(Error::CollectionOrItemUnknown)),
    };
    if buyer == owner {
        return Err(Failure::Market(Error::BuyFromSelf));
    }
    let mut sale_price = if is_offer {
        match offer_amount {
            Some(a) => a,
            None => return Err(Failure::Market(Error::UnknownOffer)),
        }
    } else {
        match *price {
            Some(p) => p,
            None => return Err(Failure::Market(Error::NotForSale)),
        }
    };
    let mut royalty_payment: Option<Payment> = None;
    if let Some(item_info) = royalty {
        let royalty = item_info.royalty;
        let author = item_info.author;
        let royalty_amount = match sale_price.checked_mul(royalty as u128) {
            Some(v) => v / (MAX_ROYALTY as u128),
            None => return Err(Failure::Overflow),
        };
        if owner != author && royalty != 0 {
            sale_price = sale_price.saturating_sub(royalty_amount);
            royalty_payment = Some(Payment { from: buyer, to: author, amount: royalty_amount });
        }
    }
    if !is_offer {
        *price = None;
    }
    Ok(Sale {
        owner,
        buyer,
        price: sale_price,
        royalty_payment,
        price_payment: Payment { from: buyer, to: owner, amount: sale_price },
    })
}

/// Buys the item listed in `price` for `buyer`.
pub fn buy(
    buyer: AccountId,
    owner: Option<AccountId>,
    price: &mut Option<Balance>,
    royalty: Option<Royalty>,
) -> (r: Result<Sale, Failure>)
    ensures
        r == spec_do_buy(buyer, owner, *old(price), None, false, royalty),
        r is Ok ==> *final(price) == None::<Balance>,
        r is Err ==> *final(price) == *old(price),
{
    do_buy(buyer, owner, price, None, false, royalty)
}

/// The owner (`sender`) accepts the offer in `offer` at block `now`: the offer is
/// removed, its amount released, and the item sold to the maker for it.
pub open spec fn spec_accept_offer(
    sender: AccountId,
    owner: Option<AccountId>,
    offer: Option<Offer>,
    now: BlockNumber,
    price: Option<Balance>,
    royalty: Option<Royalty>,
) -> Result<(Reservation, Sale), Failure> {
    match owner {
        None => Err(Failure::Market(Error::CollectionOrItemUnknown)),
        Some(o) => if sender != o {
            Err(Failure::Market(Error::AcceptNotAuthorized))
        } else {
            match offer {
                None => Err(Failure::Market(Error::UnknownOffer)),
                Some(of) => if of.expires > now {
                    match spec_do_buy(of.maker, owner, price, Some(of.amount), true, royalty) {
                        Err(e) => Err(e),
                        Ok(sale) => Ok((Reservation { who: of.maker, amount: of.amount }, sale)),
                    }
                } else {
                    Err(Failure::Market(Error::OfferExpired))
                },
            }
        },
    }
}

/// Accepts the offer in `offer`. Returns the release of the maker's reserved
/// amount and the sale; the listing price, if any, stays as it is.
pub fn accept_offer(
    sender: AccountId,
    owner: Option<AccountId>,
    offer: &mut Option<Offer>,
    now: BlockNumber,
    price: &mut Option<Balance>,
    royalty: Option<Royalty>,
) -> (r: Result<(Reservation, Sale), Failure>)
    ensures
        r == spec_accept_offer(sender, owner, *old(offer), now, *old(price), royalty),
        r is Ok ==> *final(offer) == None::<Offer>,
        r is Err ==> *final(offer) == *old(offer),
        *final(price) == *old(price),
{
    let owner_account = match owner {
        Some(o) => o,
        None => return Err(Failure::Market(Error::CollectionOrItemUnknown)),
    };
    if sender != owner_account {
        return Err(Failure::Market(Error::AcceptNotAuthorized));
    }
    let o = match offer {
        Some(o) => *o,
        None => return Err(Failure::Market(Error::UnknownOffer)),
    };
    if o.expires > now {
        let sale = do_buy(o.maker, owner, price, Some(o.amount), true, royalty)?;
        *offer = None;
        Ok((Reservation { who: o.maker, amount: o.amount }, sale))
    } else {
        Err(Failure::Market(Error::OfferExpired))
    }
}

/// Sets the royalty of an item in `royalty_entry`, once, at the request of its
/// owner (`owner`, `None` when the item does not exist). The owner reserves the
/// non-refundable `royalty_bond`.
pub fn add_royalty(
    sender: AccountId,
    owner: Option<AccountId>,
    royalty_entry: &mut Option<Royalty>,
    author: AccountId,
    royalty: u16,
    royalty_bond: Balance,
) -> (r: Result<Reservation, Failure>)
    ensures
        r == (if (*old(royalty_entry)) is Some {
            Err::<Reservation, Failure>(Failure::Market(Error::RoyaltyAlreadySet))
        } else if royalty >= MAX_ROYALTY {
            Err(Failure::Market(Error::NotInRange))
        } else {
            match owner {
                None => Err(Failure::Nft(crate::nft::Error::ClassUnknown)),
                Some(o) => if sender != o {
                    Err(Failure::Nft(crate::nft::Error::NotPermitted))
                } else {
                    Ok(Reservation { who: sender, amount: royalty_bond })
                },
            }
        }),
        r is Ok ==> *final(royalty_entry) == Some(Royalty { author, royalty }),
        r is Err ==> *final(royalty_entry) == *old(royalty_entry),
{
    if royalty_entry.is_some() {
        return Err(Failure::Market(Error::RoyaltyAlreadySet));
    }
    if royalty >= MAX_ROYALTY {
        return Err(Failure::Market(Error::NotInRange));
    }
    let o = match owner {
        Some(o) => o,
        None => return Err(Failure::Nft(crate::nft::Error::ClassUnknown)),
    };
    if sender != o {
        return Err(Failure::Nft(crate::nft::Error::NotPermitted));
    }
    *royalty_entry = Some(Royalty { author, royalty });
    Ok(Reservation { who: sender, amount: royalty_bond })
}

} // verus!
