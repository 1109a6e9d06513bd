//! Properties of the marketplace that span several calls or hold of every input.
use vstd::prelude::*;
use crate::marketplace::{
    royalty_amount, spec_accept_offer, spec_make_offer, spec_withdraw_offer, spec_do_buy, spec_sale, Error, Failure, Offer, Royalty, Sale, MAX_ROYALTY,
};
use crate::types::{AccountId, Balance, BlockNumber, Reservation};

verus! {

/// The buyer pays exactly the sale price: the author's royalty and the seller's
/// part add up to it, and the royalty never exceeds it.
pub proof fn sale_splits_price_exactly(owner: AccountId, buyer: AccountId, price: Balance, royalty: Option<Royalty>)
    requires
        royalty matches Some(r) ==> r.royalty < MAX_ROYALTY,
        spec_sale(owner, buyer, price, royalty) is Ok,
    ensures
        ({
            let sale = spec_sale(owner, buyer, price, royalty)->Ok_0;
            let cut: int = match sale.royalty_payment {
                Some(p) => p.amount as int,
                None => 0,
            };
            &&& sale.price_payment.amount + cut == price
            &&& sale.price_payment.from == buyer && sale.price_payment.to == owner
            &&& cut <= price
            &&& sale.price == sale.price_payment.amount
        }),
{
    if let Some(r) = royalty {
        assert(price * r.royalty <= price * MAX_ROYALTY) by (nonlinear_arith)
            requires r.royalty < MAX_ROYALTY, price >= 0;
        assert(price * r.royalty / (MAX_ROYALTY as int) <= price) by (nonlinear_arith)
            requires price * r.royalty <= price * MAX_ROYALTY, price >= 0, r.royalty >= 0;
        assert(price * r.royalty >= 0) by (nonlinear_arith)
            requires price >= 0, r.royalty >= 0;
    }
}

/// Buying an item listed at a price, from someone else, without a royalty, pays the
/// seller that price.
pub proof fn listed_price_is_paid_to_seller(owner: AccountId, buyer: AccountId, price: Balance)
    requires
        owner != buyer,
    ensures
        spec_do_buy(buyer, Some(owner), Some(price), None, false, None)
            == Ok::<Sale, Failure>(Sale {
                owner,
                buyer,
                price,
                royalty_payment: None,
                price_payment: crate::types::Payment { from: buyer, to: owner, amount: price },
            }),
{
}

/// An item no longer listed cannot be bought for a listing price.
pub proof fn unlisted_item_is_not_for_sale(owner: AccountId, buyer: AccountId, royalty: Option<Royalty>)
    requires
        owner != buyer,
    ensures
        spec_do_buy(buyer, Some(owner), None, None, false, royalty) == Err::<Sale, Failure>(Failure::Market(Error::NotForSale)),
{
}

/// An offer cannot be accepted once its expiry block is reached.
pub proof fn expired_offer_cannot_be_accepted(
    owner: AccountId,
    offer: Offer,
    now: BlockNumber,
    price: Option<Balance>,
    royalty: Option<Royalty>,
)
    requires
        offer.expires <= now,
    ensures
        spec_accept_offer(owner, Some(owner), Some(offer), now, price, royalty)
            == Err::<(Reservation, Sale), Failure>(Failure::Market(Error::OfferExpired)),
{
}

/// Accepting an offer releases what the offer reserved and sells the item to the
/// maker for the offered amount: royalty and seller's part add up to it.
pub proof fn accepted_offer_pays_offered_amount(
    owner: AccountId,
    offer: Offer,
    now: BlockNumber,
    price: Option<Balance>,
    royalty: Option<Royalty>,
)
    requires
        royalty matches Some(r) ==> r.royalty < MAX_ROYALTY,
        spec_accept_offer(owner, Some(owner), Some(offer), now, price, royalty) is Ok,
    ensures
        ({
            let (released, sale) = spec_accept_offer(owner, Some(owner), Some(offer), now, price, royalty)->Ok_0;
            let cut: int = match sale.royalty_payment {
                Some(p) => p.amount as int,
                None => 0,
            };
            &&& released == Reservation { who: offer.maker, amount: offer.amount }
            &&& sale.buyer == offer.maker
            &&& sale.price_payment.amount + cut == offer.amount
        }),
{
    sale_splits_price_exactly(owner, offer.maker, offer.amount, royalty);
}

/// Withdrawing an offer undoes making it: the offer slot is empty again and the
/// maker gets back exactly what the offer reserved.
pub proof fn withdrawing_an_offer_undoes_it(
    maker: AccountId,
    amount: Balance,
    expires: BlockNumber,
    minimum_offer_amount: Balance,
    owner: Option<AccountId>,
)
    requires
        spec_make_offer(maker, amount, expires, None, minimum_offer_amount) is Ok,
    ensures
        ({
            let (reserved, slot) = spec_make_offer(maker, amount, expires, None, minimum_offer_amount)->Ok_0;
            spec_withdraw_offer(maker, owner, slot) == Ok::<(Reservation, Option<Offer>), Error>((reserved, None))
        }),
{
}

} // verus!
