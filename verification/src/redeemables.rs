//! Redeemables: a pool that sells and buys back the NFTs of a redeemable class
//! along a bonding curve, and burns those redeemed for the physical good.
use vstd::prelude::*;
use crate::types::{Balance, ClassType};

verus! {

#[derive(Clone, Copy, PartialEq, Eq, Debug, Structural)]
pub enum Error {
    /// Cannot mint more than is the maximum pool supply
    ReachedMaxSupply,
    /// Wrong class type
    WrongClassType,
}

/// Why a redeemables call fails: an error of this pallet or of the NFT pallet.
#[derive(Clone, Copy, PartialEq, Eq, Debug, Structural)]
pub enum Failure {
    Redeemables(Error),
    Nft(crate::nft::Error),
}

#[derive(Clone, Copy, PartialEq, Eq, Debug, Structural)]
pub struct BondingCurve {
    /// The exponent of the curve.
    pub exponent: u32,
    /// The slope of the curve.
    pub slope: u128,
}

#[derive(Clone, Copy, PartialEq, Eq, Debug, Structural)]
pub struct RedeemablesClassInfo {
    /// Class type
    pub class_type: ClassType,
    /// Max pool issuance
    pub max_supply: u32,
    /// Count of currently issued (minted) in circulation
    pub issued: u32,
    /// Count of redeemed (burned) from circulation
    pub redeemed: u32,
    /// Curve id
    pub curve: BondingCurve,
}

/// `b` to the power `e`.
pub open spec fn power(b: int, e: nat) -> int
    decreases e,
{
    if e == 0 {
        1
    } else {
        b * power(b, (e - 1) as nat)
    }
}

proof fn lemma_power_grows_with_exponent(b: int, i: nat, j: nat)
    requires
        b >= 1,
        i <= j,
    ensures
        1 <= power(b, i) <= power(b, j),
    decreases j,
{
    if j > 0 {
        if i == j {
            lemma_power_grows_with_exponent(b, (i - 1) as nat, (j - 1) as nat);
        } else {
            lemma_power_grows_with_exponent(b, i, (j - 1) as nat);
        }
        let p = power(b, (j - 1) as nat);
        assert(b * p >= p) by (nonlinear_arith)
            requires b >= 1, p >= 1;
    }
}

proof fn lemma_power_grows_with_base(a: int, b: int, e: nat)
    requires
        0 <= a <= b,
    ensures
        0 <= power(a, e) <= power(b, e),
    decreases e,
{
    if e > 0 {
        lemma_power_grows_with_base(a, b, (e - 1) as nat);
        let pa = power(a, (e - 1) as nat);
        let pb = power(b, (e - 1) as nat);
        assert(a * pa <= b * pb) by (nonlinear_arith)
            requires 0 <= a <= b, 0 <= pa <= pb;
        assert(a * pa >= 0) by (nonlinear_arith)
            requires 0 <= a, 0 <= pa;
    }
}

/// The divisor of the price: the remaining supply to the power of the curve's exponent.
pub open spec fn price_divisor(info: RedeemablesClassInfo) -> int {
    power(info.max_supply - info.issued, info.curve.exponent as nat)
}

/// Whether the price can be computed: the issuance does not exceed the maximum
/// supply, and the divisor fits in 32 bits and is not zero.
pub open spec fn price_computable(info: RedeemablesClassInfo) -> bool {
    &&& info.issued <= info.max_supply
    &&& price_divisor(info) <= u32::MAX
    &&& price_divisor(info) != 0
}

/// The price of the next buy or sell: `slope / (max_supply - issued)^exponent`.
pub open spec fn spec_price(info: RedeemablesClassInfo) -> int {
    (info.curve.slope as int) / price_divisor(info)
}

impl RedeemablesClassInfo {
    /// Calculate price of current buy/sell
    pub fn price(&self) -> (r: Balance)
        requires
            price_computable(*self),
        ensures
            r == spec_price(*self),
    {
        let base: u32 = self.max_supply - self.issued;
        let exponent = self.curve.exponent;
        proof {
            if base == 0 {
                assert(exponent == 0) by {
                    if exponent > 0 {
                        assert(power(0, exponent as nat) == 0 * power(0, (exponent - 1) as nat));
                    }
                };
            }
        }
        let mut divisor: u32 = 1;
        let mut i: u32 = 0;
        while i < exponent
            invariant
                0 <= i <= exponent,
                base == self.max_supply - self.issued,
                exponent == self.curve.exponent,
                base >= 1 || exponent == 0,
                power(base as int, exponent as nat) <= u32::MAX,
                divisor == power(base as int, i as nat),
            decreases exponent - i,
        {
            proof {
                lemma_power_grows_with_exponent(base as int, (i + 1) as nat, exponent as nat);
                assert(power(base as int, (i + 1) as nat) == base * power(base as int, i as nat));
                assert(divisor * base == base * divisor) by (nonlinear_arith);
            }
            divisor = divisor * base;
            i = i + 1;
        }
        self.curve.slope / (divisor as Balance)
    }
}

/// A buy from the pool: the class info afterwards (one more issued) and the price
/// the buyer pays the pallet, by the curve after the issue. A new NFT is minted to
/// the pallet and transferred to the buyer.
pub open spec fn spec_buy(info: Option<RedeemablesClassInfo>) -> Result<(RedeemablesClassInfo, Balance), Failure> {
    match info {
        None => Err(Failure::Nft(crate::nft::Error::ClassUnknown)),
        Some(i) => if i.issued + 1 >= i.max_supply {
            Err(Failure::Redeemables(Error::ReachedMaxSupply))
        } else {
            let i1 = RedeemablesClassInfo { issued: (i.issued + 1) as u32, ..i };
            Ok((i1, spec_price(i1) as Balance))
        },
    }
}

/// Buys an NFT of the class whose info is in `info`.
pub fn buy(info: &mut Option<RedeemablesClassInfo>) -> (r: Result<Balance, Failure>)
    requires
        (*old(info)) matches Some(i) ==> (i.issued + 1 < i.max_supply ==>
            price_divisor((RedeemablesClassInfo { issued: (i.issued + 1) as u32, ..i })) <= u32::MAX),
    ensures
        r matches Ok(price) ==> (*final(info) matches Some(i1)
            && spec_buy(*old(info)) == Ok::<(RedeemablesClassInfo, Balance), Failure>((i1, price))),
        r matches Err(e) ==> spec_buy(*old(info)) == Err::<(RedeemablesClassInfo, Balance), Failure>(e)
            && *final(info) == *old(info),
{
    let mut i = match info {
        Some(i) => *i,
        None => return Err(Failure::Nft(crate::nft::Error::ClassUnknown)),
    };
    let next_issued = if i.issued < u32::MAX { i.issued + 1 } else { u32::MAX };
    if !(next_issued < i.max_supply) {
        return Err(Failure::Redeemables(Error::ReachedMaxSupply));
    }
    i.issued = next_issued;
    proof {
        lemma_power_grows_with_exponent((i.max_supply - i.issued) as int, 0, i.curve.exponent as nat);
    }
    let price = i.price();
    *info = Some(i);
    Ok(price)
}

/// A sale back to the pool: the class info afterwards (one less issued, not below
/// zero) and the price the pallet pays the seller, by the curve after the sale.
/// The seller's NFT is burned.
pub open spec fn spec_sell(info: Option<RedeemablesClassInfo>) -> Result<(RedeemablesClassInfo, Balance), Failure> {
    match info {
        None => Err(Failure::Nft(crate::nft::Error::ClassUnknown)),
        Some(i) => {
            let i1 = RedeemablesClassInfo { issued: if i.issued > 0 { (i.issued - 1) as u32 } else { 0 }, ..i };
            Ok((i1, spec_price(i1) as Balance))
        },
    }
}

/// Sells an NFT of the class whose info is in `info` back to the pool.
pub fn sell(info: &mut Option<RedeemablesClassInfo>) -> (r: Result<Balance, Failure>)
    requires
        (*old(info)) matches Some(i) ==> price_computable(
            (RedeemablesClassInfo { issued: if i.issued > 0 { (i.issued - 1) as u32 } else { 0 }, ..i }),
        ),
    ensures
        r matches Ok(price) ==> (*final(info) matches Some(i1)
            && spec_sell(*old(info)) == Ok::<(RedeemablesClassInfo, Balance), Failure>((i1, price))),
        r matches Err(e) ==> spec_sell(*old(info)) == Err::<(RedeemablesClassInfo, Balance), Failure>(e)
            && *final(info) == *old(info),
{
    let mut i = match info {
        Some(i) => *i,
        None => return Err(Failure::Nft(crate::nft::Error::ClassUnknown)),
    };
    i.issued = if i.issued > 0 { i.issued - 1 } else { 0 };
    let price = i.price();
    *info = Some(i);
    Ok(price)
}

/// Records the redemption of a burned NFT of the class whose info is in `info`.
pub fn redeem(info: &mut Option<RedeemablesClassInfo>) -> (r: Result<(), Failure>)
    ensures
        r == (match *old(info) {
            None => Err::<(), Failure>(Failure::Nft(crate::nft::Error::ClassUnknown)),
            Some(_) => Ok(()),
        }),
        r is Ok ==> *final(info) == Some(RedeemablesClassInfo {
            redeemed: if old(info)->Some_0.redeemed < u32::MAX { (old(info)->Some_0.redeemed + 1) as u32 } else { u32::MAX },
            ..old(info)->Some_0
        }),
        r is Err ==> *final(info) == *old(info),
{
    let mut i = match info {
        Some(i) => *i,
        None => return Err(Failure::Nft(crate::nft::Error::ClassUnknown)),
    };
    i.redeemed = if i.redeemed < u32::MAX { i.redeemed + 1 } else { u32::MAX };
    *info = Some(i);
    Ok(())
}

/// The pool's info for a class of type `class_type` (`None` when the class does
/// not exist): only redeemable classes get one, starting with nothing issued or
/// redeemed.
pub fn add_redeemables_class_info(
    class_type: Option<ClassType>,
    max_supply: u32,
    curve: BondingCurve,
) -> (r: Result<RedeemablesClassInfo, Failure>)
    ensures
        r == (match class_type {
            None => Err::<RedeemablesClassInfo, Failure>(Failure::Nft(crate::nft::Error::ClassUnknown)),
            Some(ct) => if ct != ClassType::Redeemable {
                Err(Failure::Redeemables(Error::WrongClassType))
            } else {
                Ok(RedeemablesClassInfo { class_type: ct, max_supply, issued: 0, redeemed: 0, curve })
            },
        }),
{
    let ct = match class_type {
        Some(ct) => ct,
        None => return Err(Failure::Nft(crate::nft::Error::ClassUnknown)),
    };
    if ct != ClassType::Redeemable {
        return Err(Failure::Redeemables(Error::WrongClassType));
    }
    Ok(RedeemablesClassInfo { class_type: ct, max_supply, issued: 0, redeemed: 0, curve })
}

/// Selling right after buying returns the issuance to where it was, and the sale
/// never pays more than the buy cost, exactly as much on a flat curve: the pool
/// does not lose on a round trip.
pub proof fn buy_then_sell_round_trip(i: RedeemablesClassInfo)
    requires
        spec_buy(Some(i)) is Ok,
    ensures
        ({
            let (i1, buy_price) = spec_buy(Some(i))->Ok_0;
            let (i2, sell_price) = spec_sell(Some(i1))->Ok_0;
            &&& i2 == i
            &&& sell_price <= buy_price
            &&& i.curve.exponent == 0 ==> sell_price == buy_price
        }),
{
    let (i1, buy_price) = spec_buy(Some(i))->Ok_0;
    let e = i.curve.exponent as nat;
    let small = (i.max_supply - i.issued - 1) as int;
    let big = (i.max_supply - i.issued) as int;
    lemma_power_grows_with_base(small, big, e);
    lemma_power_grows_with_exponent(small, 0, e);
    let ds = power(small, e);
    let db = power(big, e);
    let s = i.curve.slope as int;
    assert(s / db <= s / ds) by (nonlinear_arith)
        requires 1 <= ds <= db, s >= 0;
}

/// Fewer than the maximum supply stay issued: a successful buy leaves fewer issued
/// than the maximum, and from there a buy or a sell keeps it so; the maximum never
/// changes. A new class starts with none issued, and redeeming leaves the issuance
/// alone.
pub proof fn issued_stays_below_max_supply(i: RedeemablesClassInfo)
    ensures
        spec_buy(Some(i)) matches Ok((i1, _p)) ==> i1.issued < i1.max_supply && i1.max_supply == i.max_supply,
        i.issued < i.max_supply ==> (spec_sell(Some(i)) matches Ok((i1, _p)) ==> i1.issued < i1.max_supply
            && i1.max_supply == i.max_supply),
{
}

} // verus!
