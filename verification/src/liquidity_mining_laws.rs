//! Properties of liquidity mining that span several calls or hold of every input.
use vstd::prelude::*;
use crate::fixed::{mul_div, spec_checked_div, spec_checked_mul, spec_checked_mul_int, spec_from_integer, DIV};
use crate::liquidity_mining::{
    spec_accumulated_rps, spec_claim_from_global_pool_reward, spec_claim_rewards, spec_claim_rewards_call, spec_deposit_shares,
    spec_loyalty_multiplier, spec_reward_per_period, spec_update_global_pool, spec_user_reward,
    spec_withdraw_shares, spec_add_liquidity_pool, spec_update_liquidity_pool, stake_follows_valued_shares,
    spec_create_farm, Permill,
    max_user_rewards, Deposit, Error, GlobalPool, LiquidityPoolYieldFarm, LoyaltyCurve,
    NftClassData,
};
use crate::types::{Account, AccountId, AssetId, AssetPair, Balance, BlockNumber, Transfer};

verus! {

/// A farm's undistributed and paid-out rewards only move from one to the other when
/// a liquidity pool collects from it, and a pool never collects more than the farm
/// has undistributed.
pub proof fn farm_rewards_are_conserved_by_collecting(g: GlobalPool, l: LiquidityPoolYieldFarm, shares: Balance)
    requires
        spec_claim_from_global_pool_reward(g, l, shares) is Ok,
    ensures
        ({
            let reward = spec_claim_from_global_pool_reward(g, l, shares)->Ok_0;
            &&& reward <= g.accumulated_rewards
            &&& (g.accumulated_rewards - reward) + (g.paid_accumulated_rewards + reward)
                == g.accumulated_rewards + g.paid_accumulated_rewards
        }),
{
}

/// Of the rewards a deposit has earned, when it has earned any, what the user
/// receives now, what was claimed before and what the loyalty curve withholds add
/// up to all of it.
pub proof fn user_reward_split_is_exact(
    accumulated_rps: Balance,
    valued_shares: Balance,
    accumulated_claimed_rewards: Balance,
    accumulated_rps_now: Balance,
    loyalty_multiplier: u128,
)
    requires
        spec_user_reward(accumulated_rps, valued_shares, accumulated_claimed_rewards, accumulated_rps_now, loyalty_multiplier) is Ok,
        max_user_rewards(accumulated_rps, valued_shares, accumulated_rps_now) > 0,
    ensures
        ({
            let (user_rewards, unclaimable) = spec_user_reward(
                accumulated_rps, valued_shares, accumulated_claimed_rewards, accumulated_rps_now, loyalty_multiplier)->Ok_0;
            user_rewards + accumulated_claimed_rewards + unclaimable
                == max_user_rewards(accumulated_rps, valued_shares, accumulated_rps_now)
        }),
{
}

/// Once a deposit's rewards are claimed in a period, claiming them again in that
/// period, as a withdrawal does, pays nothing, withholds nothing and leaves the
/// deposit as the first claim left it.
pub proof fn second_claim_in_same_period_pays_nothing(d: Deposit, pool: LiquidityPoolYieldFarm, now_period: BlockNumber)
    requires
        spec_claim_rewards(d, pool, now_period) is Ok,
    ensures
        ({
            let (_r1, _u1, d1) = spec_claim_rewards(d, pool, now_period)->Ok_0;
            spec_claim_rewards(d1, pool, now_period) == Ok::<(Balance, Balance, Deposit), Error>((0, 0, d1))
        }),
{
}

/// A successful claim of a deposit's rewards makes a second claim by its owner in
/// the same block fail with `DoubleClaimInThePeriod`.
pub proof fn claiming_twice_in_a_period_is_refused(
    who: AccountId,
    nft_class_data: Option<NftClassData>,
    deposit: Option<Deposit>,
    liq_pool: Option<LiquidityPoolYieldFarm>,
    g_pool: Option<GlobalPool>,
    now: BlockNumber,
    g_pool_balance: Balance,
    g_pool_balance_later: Balance,
)
    requires
        spec_claim_rewards_call(who, nft_class_data, deposit, Some(who), liq_pool, g_pool, now, g_pool_balance) is Ok,
    ensures
        ({
            let (g1, l1, d1, _reward, _t, _claim) = spec_claim_rewards_call(
                who, nft_class_data, deposit, Some(who), liq_pool, g_pool, now, g_pool_balance)->Ok_0;
            spec_claim_rewards_call(who, nft_class_data, Some(d1), Some(who), Some(l1), Some(g1), now, g_pool_balance_later)
                == Err::<(GlobalPool, LiquidityPoolYieldFarm, Deposit, Balance, Option<Transfer>, Transfer), Error>(
                    Error::DoubleClaimInThePeriod)
        }),
{
}

/// Bringing a farm up to a period twice changes nothing the second time.
pub proof fn updating_global_pool_twice_is_idempotent(
    g: GlobalPool,
    now_period: BlockNumber,
    reward_per_period: Balance,
    pool_balance: Balance,
    reward_per_period2: Balance,
    pool_balance2: Balance,
)
    requires
        spec_update_global_pool(g, now_period, reward_per_period, pool_balance) is Ok,
    ensures
        ({
            let g1 = spec_update_global_pool(g, now_period, reward_per_period, pool_balance)->Ok_0;
            spec_update_global_pool(g1, now_period, reward_per_period2, pool_balance2) == Ok::<GlobalPool, Error>(g1)
        }),
{
}

/// Bringing a farm up to date never lowers its reward per share or its
/// undistributed rewards, and leaves its stake and paid-out rewards alone; what it
/// adds to the undistributed rewards is at most what the farm's account holds.
pub proof fn updating_global_pool_only_adds_rewards(
    g: GlobalPool,
    now_period: BlockNumber,
    reward_per_period: Balance,
    pool_balance: Balance,
)
    requires
        spec_update_global_pool(g, now_period, reward_per_period, pool_balance) is Ok,
    ensures
        ({
            let g1 = spec_update_global_pool(g, now_period, reward_per_period, pool_balance)->Ok_0;
            &&& g1.accumulated_rpz >= g.accumulated_rpz
            &&& g1.accumulated_rewards >= g.accumulated_rewards
            &&& g1.accumulated_rewards - g.accumulated_rewards <= pool_balance
            &&& g1.total_shares_z == g.total_shares_z
            &&& g1.paid_accumulated_rewards == g.paid_accumulated_rewards
            &&& g1.id == g.id
        }),
{
}

/// A farm never pays more per period than its maximum reward per period.
pub proof fn reward_per_period_is_capped(yield_per_period: u128, total_shares_z: Balance, max_reward_per_period: Balance)
    requires
        spec_reward_per_period(yield_per_period, total_shares_z, max_reward_per_period) is Ok,
    ensures
        spec_reward_per_period(yield_per_period, total_shares_z, max_reward_per_period)->Ok_0 <= max_reward_per_period,
{
}

/// Distributing a reward over shares never lowers the accumulated reward per share.
pub proof fn accumulated_rps_never_decreases(accumulated_rps_now: Balance, total_shares: Balance, reward: Balance)
    requires
        spec_accumulated_rps(accumulated_rps_now, total_shares, reward) is Ok,
    ensures
        spec_accumulated_rps(accumulated_rps_now, total_shares, reward)->Ok_0 >= accumulated_rps_now,
{
}

proof fn lemma_mul_div_below_one(num: int, den: int)
    requires
        0 <= num < den,
        den <= u128::MAX,
    ensures
        mul_div(num, DIV as int, den) <= DIV,
{
    if num != 0 {
        let p = num * DIV;
        assert(p < den * DIV) by (nonlinear_arith)
            requires num < den, p == num * DIV;
        assert(p / den < DIV) by (nonlinear_arith)
            requires p < den * DIV, den > 0, p >= 0;
    }
}

/// Without a loyalty curve the multiplier is one; with a curve whose initial reward
/// percentage is below one, the multiplier never exceeds one.
pub proof fn loyalty_multiplier_is_at_most_one(periods: BlockNumber, curve: Option<LoyaltyCurve>)
    requires
        curve matches Some(c) ==> c.initial_reward_percentage.inner < DIV,
        spec_loyalty_multiplier(periods, curve) is Ok,
    ensures
        curve is None ==> spec_loyalty_multiplier(periods, curve)->Ok_0 == DIV,
        spec_loyalty_multiplier(periods, curve)->Ok_0 <= DIV,
{
    if let Some(c) = curve {
        let b = c.initial_reward_percentage.inner;
        if b != 1 {
            let denom = spec_checked_mul((b + DIV) as u128, spec_from_integer(c.scale_coef as u128))->Some_0;
            let theta = spec_checked_div(spec_from_integer(periods as u128), denom)->Some_0;
            let theta_b = spec_checked_mul(theta, b)->Some_0;
            let t = theta + theta_b;
            lemma_mul_div_below_one(t + b, t + DIV);
        }
    }
}

proof fn lemma_floor_div_monotone(p1: int, c1: int, p2: int, c2: int)
    requires
        p1 >= 0,
        p2 >= 0,
        c1 > 0,
        c2 > 0,
        p1 * c2 <= p2 * c1,
    ensures
        p1 / c1 <= p2 / c2,
{
    let q1 = p1 / c1;
    let q2 = p2 / c2;
    assert(q1 * c1 <= p1) by (nonlinear_arith)
        requires q1 == p1 / c1, c1 > 0, p1 >= 0;
    assert(q1 >= 0) by (nonlinear_arith)
        requires q1 == p1 / c1, c1 > 0, p1 >= 0;
    assert(q1 * c1 * c2 <= p1 * c2) by (nonlinear_arith)
        requires q1 * c1 <= p1, c2 > 0;
    assert(q1 * c2 * c1 <= p2 * c1) by (nonlinear_arith)
        requires q1 * c1 * c2 <= p1 * c2, p1 * c2 <= p2 * c1;
    assert(q1 * c2 <= p2) by (nonlinear_arith)
        requires q1 * c2 * c1 <= p2 * c1, c1 > 0;
    assert(p2 < (q2 + 1) * c2) by (nonlinear_arith)
        requires q2 == p2 / c2, c2 > 0, p2 >= 0;
    if q1 > q2 {
        assert((q2 + 1) * c2 <= q1 * c2) by (nonlinear_arith)
            requires q1 >= q2 + 1, c2 > 0;
    }
}

/// `mul_div` grows with the exact quotient, provided the product does not shrink
/// and a divisor wide enough to round is followed by another.
proof fn lemma_mul_div_monotone(a1: int, b1: int, c1: int, a2: int, b2: int, c2: int)
    requires
        a1 >= 0,
        b1 >= 0,
        a2 >= 0,
        b2 >= 0,
        c1 > 0,
        c2 > 0,
        a1 * b1 * c2 <= a2 * b2 * c1,
        a1 * b1 <= a2 * b2,
        c1 >= 0x1_0000_0000 ==> c2 >= 0x1_0000_0000,
    ensures
        mul_div(a1, b1, c1) <= mul_div(a2, b2, c2),
{
    let p1 = a1 * b1;
    let p2 = a2 * b2;
    assert(p1 >= 0 && p2 >= 0) by (nonlinear_arith)
        requires a1 >= 0, b1 >= 0, a2 >= 0, b2 >= 0, p1 == a1 * b1, p2 == a2 * b2;
    assert(p2 / c2 >= 0) by (nonlinear_arith)
        requires p2 >= 0, c2 > 0;
    if !(a1 == 0 || b1 == 0) {
        assert(p1 > 0) by (nonlinear_arith)
            requires a1 > 0, b1 > 0, p1 == a1 * b1;
        assert(a2 != 0 && b2 != 0) by (nonlinear_arith)
            requires p2 >= p1, p1 > 0, p2 == a2 * b2;
        lemma_floor_div_monotone(p1, c1, p2, c2);
        let q1 = p1 / c1;
        let q2 = p2 / c2;
        if !(p1 <= u128::MAX || c1 < 0x1_0000_0000 || p1 % c1 <= c1 / 2) && q1 == q2 {
            let r1 = p1 % c1;
            let r2 = p2 % c2;
            assert(p1 == q1 * c1 + r1 && 0 <= r1 < c1) by (nonlinear_arith)
                requires q1 == p1 / c1, r1 == p1 % c1, c1 > 0, p1 >= 0;
            assert(p2 == q1 * c2 + r2 && 0 <= r2 < c2) by (nonlinear_arith)
                requires q1 == p2 / c2, r2 == p2 % c2, c2 > 0, p2 >= 0;
            assert(r1 * c2 <= r2 * c1) by (nonlinear_arith)
                requires p1 == q1 * c1 + r1, p2 == q1 * c2 + r2, p1 * c2 <= p2 * c1;
            assert(2 * r1 > c1);
            assert(2 * r2 * c1 >= 2 * r1 * c2) by (nonlinear_arith)
                requires r1 * c2 <= r2 * c1;
            assert(2 * r1 * c2 > c1 * c2) by (nonlinear_arith)
                requires 2 * r1 > c1, c2 > 0;
            assert(2 * r2 > c2) by (nonlinear_arith)
                requires 2 * r2 * c1 > c1 * c2, c1 > 0;
        }
    }
}

proof fn lemma_from_integer_monotone(n1: u128, n2: u128)
    requires
        n1 <= n2,
    ensures
        spec_from_integer(n1) <= spec_from_integer(n2),
{
    assert(n1 * DIV <= n2 * DIV) by (nonlinear_arith)
        requires n1 <= n2;
}

/// With an initial reward percentage below one, the loyalty multiplier never
/// decreases as the periods a deposit stays grow.
pub proof fn loyalty_multiplier_never_decreases(p1: BlockNumber, p2: BlockNumber, c: LoyaltyCurve)
    requires
        p1 <= p2,
        c.initial_reward_percentage.inner < DIV,
        spec_loyalty_multiplier(p1, Some(c)) is Ok,
        spec_loyalty_multiplier(p2, Some(c)) is Ok,
    ensures
        spec_loyalty_multiplier(p1, Some(c))->Ok_0 <= spec_loyalty_multiplier(p2, Some(c))->Ok_0,
{
    let b = c.initial_reward_percentage.inner;
    if b != 1 {
        let denom = spec_checked_mul((b + DIV) as u128, spec_from_integer(c.scale_coef as u128))->Some_0;
        let x1 = spec_from_integer(p1 as u128);
        let x2 = spec_from_integer(p2 as u128);
        lemma_from_integer_monotone(p1 as u128, p2 as u128);
        let theta1 = spec_checked_div(x1, denom)->Some_0;
        let theta2 = spec_checked_div(x2, denom)->Some_0;
        let d = DIV as int;
        assert(x1 * d * denom <= x2 * d * denom) by (nonlinear_arith)
            requires x1 <= x2, d > 0, denom > 0;
        assert(x1 * d <= x2 * d) by (nonlinear_arith)
            requires x1 <= x2, d > 0;
        lemma_mul_div_monotone(x1 as int, d, denom as int, x2 as int, d, denom as int);
        let tb1 = spec_checked_mul(theta1, b)->Some_0;
        let tb2 = spec_checked_mul(theta2, b)->Some_0;
        assert(theta1 * b * d <= theta2 * b * d) by (nonlinear_arith)
            requires theta1 <= theta2, b >= 0, d > 0;
        assert(theta1 * b <= theta2 * b) by (nonlinear_arith)
            requires theta1 <= theta2, b >= 0;
        lemma_mul_div_monotone(theta1 as int, b as int, d, theta2 as int, b as int, d);
        let t1 = theta1 + tb1;
        let t2 = theta2 + tb2;
        assert((t1 + b) * d * (t2 + d) <= (t2 + b) * d * (t1 + d)) by (nonlinear_arith)
            requires t1 <= t2, 0 <= b < d, t1 >= 0;
        assert((t1 + b) * d <= (t2 + b) * d) by (nonlinear_arith)
            requires t1 <= t2, d > 0;
        lemma_mul_div_monotone(t1 + b, d, t1 + d, t2 + b, d, t2 + d);
    }
}

/// `theta + theta * b + b`, the numerator of the loyalty multiplier's last
/// division, for a curve `c` after `periods` periods.
pub open spec fn loyalty_numerator(periods: BlockNumber, c: LoyaltyCurve) -> int {
    let b = c.initial_reward_percentage.inner;
    let denom = spec_checked_mul((b + DIV) as u128, spec_from_integer(c.scale_coef as u128))->Some_0;
    let theta = spec_checked_div(spec_from_integer(periods as u128), denom)->Some_0;
    let theta_b = spec_checked_mul(theta, b)->Some_0;
    theta + theta_b + b
}

/// Whether the loyalty multiplier's last division, of the numerator by
/// `theta + theta * b + 1`, rounds a quotient just below one up to one: this
/// happens only where the product of the numerator and `DIV` does not fit in
/// 128 bits and the divisor needs more than one 32-bit limb.
pub open spec fn loyalty_rounds_up_to_one(periods: BlockNumber, c: LoyaltyCurve) -> bool {
    let num = loyalty_numerator(periods, c);
    let den = num - c.initial_reward_percentage.inner + DIV;
    let p = num * DIV;
    &&& p > u128::MAX
    &&& den >= 0x1_0000_0000
    &&& p % den > den / 2
    &&& p / den == DIV - 1
}

/// With an initial reward percentage below one (and above the smallest step, which
/// the curve treats as one), the loyalty multiplier stays strictly below one,
/// except exactly where its last division rounds a quotient just below one up to
/// one.
pub proof fn loyalty_multiplier_stays_below_one(periods: BlockNumber, c: LoyaltyCurve)
    requires
        c.initial_reward_percentage.inner < DIV,
        c.initial_reward_percentage.inner != 1,
        spec_loyalty_multiplier(periods, Some(c)) is Ok,
    ensures
        spec_loyalty_multiplier(periods, Some(c))->Ok_0 < DIV <==> !loyalty_rounds_up_to_one(periods, c),
        spec_loyalty_multiplier(periods, Some(c))->Ok_0 <= DIV,
{
    let b = c.initial_reward_percentage.inner;
    let denom = spec_checked_mul((b + DIV) as u128, spec_from_integer(c.scale_coef as u128))->Some_0;
    let theta = spec_checked_div(spec_from_integer(periods as u128), denom)->Some_0;
    let theta_b = spec_checked_mul(theta, b)->Some_0;
    let t = theta + theta_b;
    let d = DIV as int;
    let num = t + b;
    let den = t + d;
    let p = num * d;
    assert(p >= 0) by (nonlinear_arith)
        requires num >= 0, d > 0, p == num * d;
    assert(p < den * d) by (nonlinear_arith)
        requires num < den, d > 0, p == num * d;
    assert(p / den < d) by (nonlinear_arith)
        requires p < den * d, den > 0, p >= 0;
    if num == 0 {
        assert(p == 0) by (nonlinear_arith)
            requires num == 0, p == num * d;
    }
}

/// At the moment of a deposit the multiplier is the curve's initial reward
/// percentage.
pub proof fn loyalty_multiplier_starts_at_initial_reward_percentage(curve: LoyaltyCurve)
    requires
        curve.initial_reward_percentage.inner < DIV,
        curve.initial_reward_percentage.inner != 1,
        curve.scale_coef > 0,
    ensures
        spec_loyalty_multiplier(0, Some(curve)) == Ok::<u128, Error>(curve.initial_reward_percentage.inner),
{
    let b = curve.initial_reward_percentage.inner;
    let s = curve.scale_coef as int;
    assert(spec_from_integer(curve.scale_coef as u128) == s * DIV) by {
        assert(s * DIV <= u128::MAX) by (nonlinear_arith)
            requires s <= u32::MAX;
    }
    let a = (b + DIV) as int;
    let sd = s * DIV;
    assert(a * sd >= DIV) by (nonlinear_arith)
        requires a >= DIV, s >= 1, sd == s * DIV;
    let md = mul_div(a, sd, DIV as int);
    assert(md >= 1 && md <= u128::MAX) by {
        let p = a * sd;
        assert(p / (DIV as int) >= 1) by (nonlinear_arith)
            requires p >= DIV;
        assert(p / (DIV as int) == a * s) by (nonlinear_arith)
            requires p == a * sd, sd == s * DIV;
        assert(a * s <= 2 * DIV * u32::MAX) by (nonlinear_arith)
            requires 0 <= a <= 2 * DIV, 0 <= s <= u32::MAX;
    }
    assert(spec_from_integer(0) == 0);
    if b != 0 {
        assert(b * DIV <= u128::MAX) by (nonlinear_arith)
            requires b < DIV;
        assert((b * DIV) / (DIV as int) == b) by (nonlinear_arith);
    }
}

/// A withdrawal hands back to the depositor, from the pallet's account, exactly the
/// shares the deposit took from them.
pub proof fn withdrawal_returns_deposited_shares(
    who: AccountId,
    shares: Balance,
    who_share_balance: Balance,
    amm_share_token: AssetId,
    amm_reward_balance: Balance,
    liq_pool: Option<LiquidityPoolYieldFarm>,
    g_pool: Option<GlobalPool>,
    nft_class_data: Option<NftClassData>,
    now: BlockNumber,
    g_pool_balance: Balance,
    class_later: Option<NftClassData>,
    liq_pool_later: Option<LiquidityPoolYieldFarm>,
    g_pool_later: Option<GlobalPool>,
    now_later: BlockNumber,
    g_pool_balance_later: Balance,
)
    requires
        spec_deposit_shares(who, shares, who_share_balance, amm_share_token, amm_reward_balance, liq_pool, g_pool,
            nft_class_data, now, g_pool_balance) is Ok,
        ({
            let d = spec_deposit_shares(who, shares, who_share_balance, amm_share_token, amm_reward_balance,
                liq_pool, g_pool, nft_class_data, now, g_pool_balance)->Ok_0.3;
            spec_withdraw_shares(who, class_later, Some(d), Some(who), liq_pool_later, g_pool_later, now_later,
                g_pool_balance_later, true, amm_share_token) is Ok
        }),
    ensures
        ({
            let out = spec_deposit_shares(who, shares, who_share_balance, amm_share_token, amm_reward_balance,
                liq_pool, g_pool, nft_class_data, now, g_pool_balance)->Ok_0;
            let d = out.3;
            let taken = out.5;
            let ts = spec_withdraw_shares(who, class_later, Some(d), Some(who), liq_pool_later, g_pool_later, now_later,
                g_pool_balance_later, true, amm_share_token)->Ok_0.4;
            &&& d.shares == shares
            &&& ts.len() > 0
            &&& ts.last() == (Transfer { currency: taken.currency, from: taken.to, to: taken.from, amount: taken.amount })
        }),
{
}

/// A new liquidity pool's stake in its farm is its valued shares times its
/// multiplier (nothing yet).
pub proof fn new_pool_stake_follows_valued_shares(
    who: AccountId,
    asset_pair: AssetPair,
    multiplier: u32,
    loyalty_curve: Option<LoyaltyCurve>,
    amm_exists: bool,
    liq_pool_exists: bool,
    g_pool: Option<GlobalPool>,
    pool_id_seq: u32,
    now: BlockNumber,
    g_pool_balance: Balance,
    nft_class: u32,
)
    requires
        spec_add_liquidity_pool(who, asset_pair, multiplier, loyalty_curve, amm_exists, liq_pool_exists, g_pool,
            pool_id_seq, now, g_pool_balance, nft_class) is Ok,
    ensures
        stake_follows_valued_shares(spec_add_liquidity_pool(who, asset_pair, multiplier, loyalty_curve, amm_exists,
            liq_pool_exists, g_pool, pool_id_seq, now, g_pool_balance, nft_class)->Ok_0.1),
{
}

/// A deposit keeps a liquidity pool's stake in its farm equal to its valued shares
/// times its multiplier.
pub proof fn deposit_keeps_stake_following_valued_shares(
    who: AccountId,
    shares: Balance,
    who_share_balance: Balance,
    amm_share_token: AssetId,
    amm_reward_balance: Balance,
    l: LiquidityPoolYieldFarm,
    g_pool: Option<GlobalPool>,
    nft_class_data: Option<NftClassData>,
    now: BlockNumber,
    g_pool_balance: Balance,
)
    requires
        stake_follows_valued_shares(l),
        spec_deposit_shares(who, shares, who_share_balance, amm_share_token, amm_reward_balance, Some(l), g_pool,
            nft_class_data, now, g_pool_balance) is Ok,
    ensures
        stake_follows_valued_shares(spec_deposit_shares(who, shares, who_share_balance, amm_share_token,
            amm_reward_balance, Some(l), g_pool, nft_class_data, now, g_pool_balance)->Ok_0.1),
{
    let l1 = spec_deposit_shares(who, shares, who_share_balance, amm_share_token, amm_reward_balance, Some(l),
        g_pool, nft_class_data, now, g_pool_balance)->Ok_0.1;
    let v = shares * amm_reward_balance;
    let s0 = l.total_valued_shares as int;
    let m = l.multiplier as int;
    assert((s0 + v) * m == s0 * m + v * m) by (nonlinear_arith);
    assert(l1.total_valued_shares == s0 + v && l1.multiplier == m);
}

/// A new multiplier makes a liquidity pool's stake in its farm its valued shares
/// times that multiplier.
pub proof fn new_multiplier_sets_stake_to_valued_shares(
    who: AccountId,
    multiplier: u32,
    liq_pool: Option<LiquidityPoolYieldFarm>,
    g_pool: Option<GlobalPool>,
    now: BlockNumber,
    g_pool_balance: Balance,
)
    requires
        spec_update_liquidity_pool(who, multiplier, liq_pool, g_pool, now, g_pool_balance) is Ok,
    ensures
        stake_follows_valued_shares(spec_update_liquidity_pool(who, multiplier, liq_pool, g_pool, now,
            g_pool_balance)->Ok_0.1),
        spec_update_liquidity_pool(who, multiplier, liq_pool, g_pool, now, g_pool_balance)->Ok_0.1.multiplier
            == multiplier,
{
}

/// A withdrawal keeps a liquidity pool's stake in its farm equal to its valued
/// shares times its multiplier.
pub proof fn withdrawal_keeps_stake_following_valued_shares(
    who: AccountId,
    nft_class_data: Option<NftClassData>,
    deposit: Option<Deposit>,
    nft_owner: Option<AccountId>,
    l: LiquidityPoolYieldFarm,
    g_pool: Option<GlobalPool>,
    now: BlockNumber,
    g_pool_balance: Balance,
    amm_exists: bool,
    amm_share_token: AssetId,
)
    requires
        stake_follows_valued_shares(l),
        spec_withdraw_shares(who, nft_class_data, deposit, nft_owner, Some(l), g_pool, now, g_pool_balance,
            amm_exists, amm_share_token) is Ok,
    ensures
        spec_withdraw_shares(who, nft_class_data, deposit, nft_owner, Some(l), g_pool, now, g_pool_balance,
            amm_exists, amm_share_token)->Ok_0.1 matches Some(l1) && stake_follows_valued_shares(l1),
{
    let d = deposit->Some_0;
    let l1 = spec_withdraw_shares(who, nft_class_data, deposit, nft_owner, Some(l), g_pool, now, g_pool_balance,
        amm_exists, amm_share_token)->Ok_0.1->Some_0;
    let s0 = l.total_valued_shares as int;
    let v = d.valued_shares as int;
    let m = l.multiplier as int;
    assert((s0 - v) * m == s0 * m - v * m) by (nonlinear_arith);
}


/// A claim by a deposit not yet claimed in `now_period` makes the deposit's claimed
/// total the loyalty multiplier for the periods since the deposit entered, applied
/// to everything the deposit has earned (`(pool rps - deposit rps) * valued shares`);
/// the user gets that total less what was claimed before, and the rest of the
/// earnings is unclaimable. Nothing earned pays and withholds nothing. The deposit
/// only records the new claimed total and the period of the claim.
pub proof fn claim_pays_loyalty_share_of_earnings(d: Deposit, pool: LiquidityPoolYieldFarm, now_period: BlockNumber)
    requires
        spec_claim_rewards(d, pool, now_period) is Ok,
        d.updated_at != now_period,
    ensures
        ({
            let (rewards, unclaimable, d1) = spec_claim_rewards(d, pool, now_period)->Ok_0;
            let earned = (pool.accumulated_rps - d.accumulated_rps) * d.valued_shares;
            let loyalty = spec_loyalty_multiplier((now_period - d.entered_period) as BlockNumber, pool.loyalty_curve);
            &&& d.entered_period <= now_period
            &&& loyalty is Ok
            &&& earned >= 0
            &&& earned > 0 ==> d.accumulated_claimed_rewards + rewards
                == spec_checked_mul_int(loyalty->Ok_0, earned as u128)->Some_0
            &&& earned > 0 ==> d.accumulated_claimed_rewards + rewards + unclaimable == earned
            &&& earned == 0 ==> rewards == 0 && unclaimable == 0
            &&& d1 == (Deposit {
                accumulated_claimed_rewards: (d.accumulated_claimed_rewards + rewards) as Balance,
                updated_at: now_period,
                ..d
            })
        }),
{
}

/// What a claim pays does not depend on when the deposit was last claimed: two
/// deposits that differ only in the period of their last claim, neither claimed in
/// `now_period`, get the same result.
pub proof fn claim_ignores_period_of_last_claim(
    d: Deposit,
    pool: LiquidityPoolYieldFarm,
    now_period: BlockNumber,
    last_claim_1: BlockNumber,
    last_claim_2: BlockNumber,
)
    requires
        last_claim_1 != now_period,
        last_claim_2 != now_period,
    ensures
        spec_claim_rewards(Deposit { updated_at: last_claim_1, ..d }, pool, now_period)
            == spec_claim_rewards(Deposit { updated_at: last_claim_2, ..d }, pool, now_period),
{
    let d1 = Deposit { updated_at: last_claim_1, ..d };
    let d2 = Deposit { updated_at: last_claim_2, ..d };
    assert(Deposit { updated_at: now_period, ..d1 } == Deposit { updated_at: now_period, ..d2 });
}

/// In a withdrawal from a liquidity pool that still exists, by a deposit not yet
/// claimed in the current period, the pool's account pays the claimed rewards to
/// the withdrawer and the unclaimable rest to the farm's account, both in the farm's
/// reward currency, just before the shares go back: the rewards claimed now, those
/// claimed before, and those returned to the farm add up to all the deposit earned
/// in the pool (brought up to date), when it earned anything.
pub proof fn withdrawal_returns_unclaimable_rewards_to_farm(
    who: AccountId,
    nft_class_data: Option<NftClassData>,
    d: Deposit,
    nft_owner: Option<AccountId>,
    l: LiquidityPoolYieldFarm,
    g: GlobalPool,
    now: BlockNumber,
    g_pool_balance: Balance,
    amm_exists: bool,
    amm_share_token: AssetId,
)
    requires
        spec_withdraw_shares(who, nft_class_data, Some(d), nft_owner, Some(l), Some(g), now, g_pool_balance,
            amm_exists, amm_share_token) is Ok,
        g.blocks_per_period != 0 ==> d.updated_at != now / g.blocks_per_period,
    ensures
        ({
            let out = spec_withdraw_shares(who, nft_class_data, Some(d), nft_owner, Some(l), Some(g), now,
                g_pool_balance, amm_exists, amm_share_token)->Ok_0;
            let ts = out.4;
            let k: int = if amm_exists { 1 } else { 0 };
            let claimed = out.3->Some_0;
            let l1 = out.1->Some_0;
            let earned = (l1.accumulated_rps - d.accumulated_rps) * d.valued_shares;
            let returned = ts[ts.len() - 1 - k];
            &&& out.3 is Some
            &&& out.1 is Some
            &&& l1.id == l.id
            &&& ts.len() >= 2 + k
            &&& ts[ts.len() - 2 - k] == (Transfer {
                currency: g.reward_currency, from: Account::Pool(l.id), to: Account::User(who), amount: claimed })
            &&& returned.currency == g.reward_currency
            &&& returned.from == Account::Pool(l.id)
            &&& returned.to == Account::Pool(g.id)
            &&& earned > 0 ==> claimed + d.accumulated_claimed_rewards + returned.amount == earned
        }),
{
    let now_period = (now / g.blocks_per_period) as BlockNumber;
    let updated = if l.stake_in_global_pool != 0 {
        crate::liquidity_mining::spec_maybe_update_pools(g, l, now_period, g_pool_balance)
    } else {
        Ok((g, l, None))
    };
    let (g1, l1, t) = updated->Ok_0;
    assert(spec_claim_rewards(d, l1, now_period) is Ok);
    claim_pays_loyalty_share_of_earnings(d, l1, now_period);
}

/// A new deposit starts from the accumulated rewards per share of the liquidity
/// pool as it is stored after the deposit (brought up to date first), so it has
/// earned nothing yet; it records the deposited shares, their value, the current
/// period as both its entry and its last claim, and nothing claimed.
pub proof fn deposit_starts_from_pool_rewards_per_share(
    who: AccountId,
    shares: Balance,
    who_share_balance: Balance,
    amm_share_token: AssetId,
    amm_reward_balance: Balance,
    liq_pool: Option<LiquidityPoolYieldFarm>,
    g: GlobalPool,
    nft_class_data: Option<NftClassData>,
    now: BlockNumber,
    g_pool_balance: Balance,
)
    requires
        spec_deposit_shares(who, shares, who_share_balance, amm_share_token, amm_reward_balance, liq_pool, Some(g),
            nft_class_data, now, g_pool_balance) is Ok,
    ensures
        ({
            let out = spec_deposit_shares(who, shares, who_share_balance, amm_share_token, amm_reward_balance,
                liq_pool, Some(g), nft_class_data, now, g_pool_balance)->Ok_0;
            let l1 = out.1;
            let dep = out.3;
            &&& dep.accumulated_rps == l1.accumulated_rps
            &&& max_user_rewards(dep.accumulated_rps, dep.valued_shares, l1.accumulated_rps) == 0
            &&& dep.shares == shares
            &&& dep.valued_shares == shares * amm_reward_balance
            &&& dep.accumulated_claimed_rewards == 0
            &&& dep.entered_period == now / g.blocks_per_period
            &&& dep.updated_at == dep.entered_period
        }),
{
}

/// A new multiplier only replaces the liquidity pool's own stake in its farm's total:
/// the farm's total stake less the pool's stake, the stake of its other pools, is
/// the same before and after, and the pool's stake becomes its valued shares times
/// the new multiplier.
pub proof fn new_multiplier_keeps_other_pools_stake(
    who: AccountId,
    multiplier: u32,
    l: LiquidityPoolYieldFarm,
    g: GlobalPool,
    now: BlockNumber,
    g_pool_balance: Balance,
)
    requires
        spec_update_liquidity_pool(who, multiplier, Some(l), Some(g), now, g_pool_balance) is Ok,
    ensures
        ({
            let (g1, l1, _t) = spec_update_liquidity_pool(who, multiplier, Some(l), Some(g), now, g_pool_balance)->Ok_0;
            &&& l.stake_in_global_pool <= g.total_shares_z
            &&& g1.total_shares_z - l1.stake_in_global_pool == g.total_shares_z - l.stake_in_global_pool
            &&& l1.stake_in_global_pool == l.total_valued_shares * multiplier
            &&& l1.id == l.id && g1.id == g.id
        }),
{
}

/// A new farm pays its rewards in the given reward currency and accepts liquidity
/// pools by the given incentivized token; it belongs to the given owner, takes the
/// next id, starts in the current period with the given yield and schedule, caps
/// its reward per period at the total rewards over the planned periods, holds no
/// stake, rewards or pools yet, and is funded by a transfer of the total rewards, in
/// its reward currency, from the owner to its own account.
pub proof fn created_farm_keeps_its_currencies(
    pool_id_seq: u32,
    total_rewards: Balance,
    planned_yielding_periods: BlockNumber,
    blocks_per_period: BlockNumber,
    incentivized_token: AssetId,
    reward_currency: AssetId,
    owner: AccountId,
    yield_per_period: Permill,
    owner_reward_balance: Balance,
    now: BlockNumber,
    min_total_farm_rewards: Balance,
    min_planned_yielding_periods: BlockNumber,
)
    requires
        spec_create_farm(pool_id_seq, total_rewards, planned_yielding_periods, blocks_per_period, incentivized_token,
            reward_currency, owner, yield_per_period, owner_reward_balance, now, min_total_farm_rewards,
            min_planned_yielding_periods) is Ok,
    ensures
        ({
            let (farm, funding) = spec_create_farm(pool_id_seq, total_rewards, planned_yielding_periods,
                blocks_per_period, incentivized_token, reward_currency, owner, yield_per_period, owner_reward_balance,
                now, min_total_farm_rewards, min_planned_yielding_periods)->Ok_0;
            &&& farm.reward_currency == reward_currency
            &&& farm.incentivized_token == incentivized_token
            &&& farm.owner == owner
            &&& farm.id == pool_id_seq + 1
            &&& farm.updated_at == now / blocks_per_period
            &&& farm.yield_per_period == yield_per_period
            &&& farm.planned_yielding_periods == planned_yielding_periods
            &&& farm.blocks_per_period == blocks_per_period
            &&& farm.max_reward_per_period == (total_rewards as int) / (planned_yielding_periods as int)
            &&& farm.total_shares_z == 0 && farm.accumulated_rpz == 0 && farm.liq_pools_count == 0
            &&& farm.accumulated_rewards == 0 && farm.paid_accumulated_rewards == 0
            &&& funding == (Transfer {
                currency: farm.reward_currency, from: Account::User(owner), to: Account::Pool(farm.id),
                amount: total_rewards })
        }),
{
}


/// A deposit already claimed in `now_period` gets nothing more in that period and
/// stays as it is.
pub proof fn claim_in_period_of_last_claim_pays_nothing(d: Deposit, pool: LiquidityPoolYieldFarm, now_period: BlockNumber)
    requires
        d.entered_period <= now_period,
        d.updated_at == now_period,
    ensures
        spec_claim_rewards(d, pool, now_period) == Ok::<(Balance, Balance, Deposit), Error>((0, 0, d)),
{
}

/// A deposit adds exactly its shares, their value and their stake to its liquidity
/// pool, and only that stake to the farm's total: the stake of the farm's other
/// pools is unchanged. The depositor's shares move to the pallet's account.
pub proof fn deposit_adds_only_its_own_stake(
    who: AccountId,
    shares: Balance,
    who_share_balance: Balance,
    amm_share_token: AssetId,
    amm_reward_balance: Balance,
    l: LiquidityPoolYieldFarm,
    g: GlobalPool,
    nft_class_data: Option<NftClassData>,
    now: BlockNumber,
    g_pool_balance: Balance,
)
    requires
        spec_deposit_shares(who, shares, who_share_balance, amm_share_token, amm_reward_balance, Some(l), Some(g),
            nft_class_data, now, g_pool_balance) is Ok,
    ensures
        ({
            let out = spec_deposit_shares(who, shares, who_share_balance, amm_share_token, amm_reward_balance,
                Some(l), Some(g), nft_class_data, now, g_pool_balance)->Ok_0;
            let g1 = out.0;
            let l1 = out.1;
            &&& l1.id == l.id && g1.id == g.id && l1.multiplier == l.multiplier
            &&& l1.total_shares == l.total_shares + shares
            &&& l1.total_valued_shares == l.total_valued_shares + shares * amm_reward_balance
            &&& l1.stake_in_global_pool == l.stake_in_global_pool + shares * amm_reward_balance * l.multiplier
            &&& g1.total_shares_z - l1.stake_in_global_pool == g.total_shares_z - l.stake_in_global_pool
            &&& out.5 == (Transfer { currency: amm_share_token, from: Account::User(who), to: Account::Pallet, amount: shares })
        }),
{
}

/// A withdrawal from a liquidity pool that still exists takes exactly the deposit's
/// shares, their value and their stake out of the pool, and only that stake out of
/// the farm's total: the stake of the farm's other pools is unchanged.
pub proof fn withdrawal_removes_only_its_own_stake(
    who: AccountId,
    nft_class_data: Option<NftClassData>,
    d: Deposit,
    nft_owner: Option<AccountId>,
    l: LiquidityPoolYieldFarm,
    g: GlobalPool,
    now: BlockNumber,
    g_pool_balance: Balance,
    amm_exists: bool,
    amm_share_token: AssetId,
)
    requires
        spec_withdraw_shares(who, nft_class_data, Some(d), nft_owner, Some(l), Some(g), now, g_pool_balance,
            amm_exists, amm_share_token) is Ok,
    ensures
        ({
            let out = spec_withdraw_shares(who, nft_class_data, Some(d), nft_owner, Some(l), Some(g), now,
                g_pool_balance, amm_exists, amm_share_token)->Ok_0;
            let g1 = out.0->Some_0;
            let l1 = out.1->Some_0;
            &&& out.0 is Some && out.1 is Some
            &&& l1.id == l.id && g1.id == g.id && l1.multiplier == l.multiplier
            &&& l1.total_shares == l.total_shares - d.shares
            &&& l1.total_valued_shares == l.total_valued_shares - d.valued_shares
            &&& l1.stake_in_global_pool == l.stake_in_global_pool - d.valued_shares * l.multiplier
            &&& g1.total_shares_z - l1.stake_in_global_pool == g.total_shares_z - l.stake_in_global_pool
        }),
{
}

} // verus!
