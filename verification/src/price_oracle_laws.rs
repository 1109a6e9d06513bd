//! Properties of the price oracle's averages.
use vstd::prelude::*;
use crate::fixed::{mul_div, spec_checked_div, spec_checked_mul, spec_from_integer, Fixed, DIV};
use crate::price_oracle::{
    entry_amounts, entry_liquidities, info_prices, info_volumes, seq_sum, spec_div_by_ten, spec_price_info,
    weighted_price, weighted_prices, PriceEntry, PriceInfo,
};

verus! {

proof fn lemma_sum_of_ten_equal(s: Seq<int>, x: int)
    requires
        s.len() == 10,
        forall|i: int| 0 <= i < 10 ==> s[i] == x,
    ensures
        seq_sum(s) == 10 * x,
{
    reveal_with_fuel(seq_sum, 11);
    assert(s.drop_last().drop_last().drop_last().drop_last().drop_last().drop_last().drop_last().drop_last().drop_last().drop_last().len() == 0);
}

/// Averaging a ring whose ten entries are all the same price information gives
/// back that price information: a stable price stays stable as it rolls up.
pub proof fn averaging_identical_entries_gives_that_entry(x: PriceInfo)
    requires
        10 * x.avg_price.inner <= u128::MAX,
        10 * x.volume <= u128::MAX,
    ensures
        ({
            let ring = Seq::new(10, |i: int| x);
            &&& spec_div_by_ten(seq_sum(info_prices(ring)) as u128) == x.avg_price.inner
            &&& seq_sum(info_volumes(ring)) / 10 == x.volume
        }),
{
    let ring = Seq::new(10, |i: int| x);
    lemma_sum_of_ten_equal(info_prices(ring), x.avg_price.inner as int);
    lemma_sum_of_ten_equal(info_volumes(ring), x.volume as int);
    let a = x.avg_price.inner as int;
    if a != 0 {
        let p = (10 * a) * DIV;
        assert(p / (10 * DIV) == a && p % (10 * DIV) == 0) by (nonlinear_arith)
            requires p == (10 * a) * DIV;
    }
}

/// The price information of a single trade is its own price and amount.
pub proof fn single_trade_price_info(e: PriceEntry)
    requires
        e.liq_amount > 0,
        e.liq_amount * DIV <= u128::MAX,
        e.price.inner * e.liq_amount <= u128::MAX,
    ensures
        spec_price_info(seq![e]) == Some(PriceInfo { avg_price: e.price, volume: e.amount }),
{
    let s = seq![e];
    let p = e.price.inner as int;
    let l = e.liq_amount as int;
    assert(spec_from_integer(e.liq_amount) == l * DIV);
    if p != 0 {
        let prod = p * (l * DIV);
        assert(prod / (DIV as int) == p * l && prod % (DIV as int) == 0) by (nonlinear_arith)
            requires prod == p * (l * DIV);
        assert(weighted_price(e) == Some((p * l) as u128));
        let prod2 = (p * l) * DIV;
        assert(prod2 / (l * DIV) == p && prod2 % (l * DIV) == 0) by (nonlinear_arith)
            requires prod2 == (p * l) * DIV, l > 0;
        assert(p * l != 0) by (nonlinear_arith)
            requires p > 0, l > 0;
    } else {
        assert(weighted_price(e) == Some(0u128));
    }
    reveal_with_fuel(seq_sum, 2);
    assert(weighted_prices(s).drop_last().len() == 0);
    assert(entry_amounts(s).drop_last().len() == 0);
    assert(entry_liquidities(s).drop_last().len() == 0);
}

} // verus!
