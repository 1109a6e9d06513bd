//! Liquidity mining: farms (global pools) distribute a reward currency to the
//! liquidity pools added to them, and each liquidity pool distributes what it
//! receives to the AMM shares deposited in it, weighted by a loyalty curve.
//!
//! Naming: `rpz` is reward per share in a farm, `rps` is reward per valued
//! share in a liquidity pool; `z` is the stake of a liquidity pool in its farm.
use vstd::prelude::*;
use crate::fixed::{Fixed, PERMILL_ACCURACY, spec_checked_mul, spec_checked_div, spec_checked_mul_int, spec_from_integer, DIV};
use crate::types::{AccountId, Account, AssetId, AssetPair, Balance, BlockNumber, NftClassId, NftInstanceId, Transfer};

verus! {

pub type PoolId = u32;

pub type PoolMultiplier = u32;

#[derive(Clone, Copy, PartialEq, Eq, Debug, Structural)]
pub enum Error {
    /// Math computation overflow
    Overflow,
    /// Insufficient balance in global pool to transfer rewards to pool
    InsuffcientBalanceInGlobalPool,
    /// Provide id is not valid. Valid range is [1, u32::MAX)
    InvalidPoolId,
    /// Provided planed_yielding_periods is below limit
    InvalidPlannedYieldingPeriods,
    /// Provided blocks_per_period can't be 0
    InvalidBlocksPerPeriod,
    /// Yield per period can't be 0
    InvalidYieldPerPeriod,
    /// Provided total_rewards for farming is bellow min limit
    InvalidTotalRewards,
    /// Reward currency balance too low
    InsufficientRewardCurrencyBalance,
    /// Account is not allowed to perform action
    Forbidden,
    /// Farm does not exist
    FarmNotFound,
    /// Liquidity pool already exist in farm
    LiquidityPoolAlreadyExists,
    /// Pool multiplier can't be 0
    InvalidMultiplier,
    /// Loyalty curver b param should be from [0, 1)
    InvalidLoyaltyCurverParamB,
    /// Account balance of amm pool shares is not sufficient
    InsufficientAmmSharesBalance,
    /// AMM pool does not exist
    AmmPoolDoesNotExist,
    /// Liq. pool for provided assets was not found in farm
    LiquidityPoolNotFound,
    /// Account already have stake in liq. pool in farm
    DuplicateDeposit,
    /// One or moe liq. pools exist in farm. Only farm without liq. pools can be destroyed.
    FarmIsNotEmpty,
    /// Balance on rewards account is not 0. Only farm with 0 raward balance can be destroyed.
    RewardBalanceIsNotZero,
    /// NFT class for liq. pool does not exists.
    NftClassDoesNotExists,
    /// NFT does not exist.
    NftDoesNotExist,
    /// Provided nft doesn't belong to provided asset pair.
    NftAssetsMismatch,
    /// Liquidity mining for porovided pool is canceled.
    LiquidityMiningCanceled,
    /// Deposit amount must be greater than 0.
    InvalidDepositAmount,
    /// Account is not the owner of the deposit's NFT.
    NotDepositOwner,
    /// Rewards of a deposit can be claimed only once in a period.
    DoubleClaimInThePeriod,
    /// Neither asset of the pair is the farm's incentivized asset.
    MissingIncentivizedAsset,
}

/// A share of one million: `parts / 1_000_000`.
#[derive(Clone, Copy, PartialEq, Eq, Debug)]
pub struct Permill {
    parts: u32,
}

impl Permill {
    #[verifier::type_invariant]
    spec fn well_formed(self) -> bool {
        self.parts <= PERMILL_ACCURACY
    }

    /// The number of millionths.
    pub closed spec fn spec_parts(self) -> u32 {
        self.parts
    }

    /// `parts` millionths, saturated at one whole.
    pub fn from_parts(parts: u32) -> (r: Permill)
        ensures
            r.spec_parts() == (if parts <= PERMILL_ACCURACY { parts } else { PERMILL_ACCURACY }),
    {
        if parts <= PERMILL_ACCURACY {
            Permill { parts }
        } else {
            Permill { parts: PERMILL_ACCURACY }
        }
    }

    /// `x` percent, saturated at one hundred percent.
    pub fn from_percent(x: u32) -> (r: Permill)
        ensures
            r.spec_parts() == (if x <= 100 { x * 10_000 } else { 1_000_000 }),
    {
        if x <= 100 {
            Permill { parts: x * 10_000 }
        } else {
            Permill { parts: PERMILL_ACCURACY }
        }
    }

    pub fn deconstruct(&self) -> (r: u32)
        ensures
            r == self.spec_parts(),
            r <= PERMILL_ACCURACY,
    {
        proof {
            use_type_invariant(self);
        }
        self.parts
    }

    pub fn is_zero(&self) -> (r: bool)
        ensures
            r == (self.spec_parts() == 0),
    {
        self.parts == 0
    }

    /// This share as a fixed point number.
    pub fn to_fixed(&self) -> (r: Fixed)
        ensures
            r.inner == self.spec_parts() * 1_000_000_000_000,
    {
        proof {
            use_type_invariant(self);
        }
        Fixed::from_permill(self.parts)
    }
}

/// A farm: it holds the rewards and distributes them to its liquidity pools.
#[derive(Clone, Copy, PartialEq, Eq, Debug)]
pub struct GlobalPool {
    pub id: PoolId,
    pub owner: AccountId,
    pub updated_at: BlockNumber,
    pub total_shares_z: Balance,
    pub accumulated_rpz: Balance,
    pub reward_currency: AssetId,
    pub accumulated_rewards: Balance,
    pub paid_accumulated_rewards: Balance,
    pub yield_per_period: Permill,
    pub planned_yielding_periods: BlockNumber,
    pub blocks_per_period: BlockNumber,
    pub incentivized_token: AssetId,
    pub max_reward_per_period: Balance,
    pub liq_pools_count: u32,
}

impl GlobalPool {
    pub fn new(
        id: PoolId,
        updated_at: BlockNumber,
        reward_currency: AssetId,
        yield_per_period: Permill,
        planned_yielding_periods: BlockNumber,
        blocks_per_period: BlockNumber,
        owner: AccountId,
        incentivized_token: AssetId,
        max_reward_per_period: Balance,
    ) -> (r: GlobalPool)
        ensures
            r == (GlobalPool {
                id,
                owner,
                updated_at,
                total_shares_z: 0,
                accumulated_rpz: 0,
                reward_currency,
                accumulated_rewards: 0,
                paid_accumulated_rewards: 0,
                yield_per_period,
                planned_yielding_periods,
                blocks_per_period,
                incentivized_token,
                max_reward_per_period,
                liq_pools_count: 0,
            }),
    {
        GlobalPool {
            id,
            owner,
            updated_at,
            total_shares_z: 0,
            accumulated_rpz: 0,
            reward_currency,
            accumulated_rewards: 0,
            paid_accumulated_rewards: 0,
            yield_per_period,
            planned_yielding_periods,
            blocks_per_period,
            incentivized_token,
            max_reward_per_period,
            liq_pools_count: 0,
        }
    }
}

/// Parameters of the loyalty curve of a liquidity pool.
#[derive(Clone, Copy, PartialEq, Eq, Debug, Structural)]
pub struct LoyaltyCurve {
    /// The multiplier at the moment of a deposit; must be below one.
    pub initial_reward_percentage: Fixed,
    pub scale_coef: u32,
}

impl LoyaltyCurve {
    /// The default curve: initial reward percentage one half, scale coefficient 100.
    pub fn default() -> (r: LoyaltyCurve)
        ensures
            r.initial_reward_percentage.inner == 500_000_000_000_000_000,
            r.scale_coef == 100,
    {
        LoyaltyCurve {
            initial_reward_percentage: Fixed::from_inner(500_000_000_000_000_000),
            scale_coef: 100,
        }
    }
}

/// A liquidity pool (yield farm) of a farm.
#[derive(Clone, Copy, PartialEq, Eq, Debug, Structural)]
pub struct LiquidityPoolYieldFarm {
    pub id: PoolId,
    pub updated_at: BlockNumber,
    pub total_shares: Balance,
    pub total_valued_shares: Balance,
    pub accumulated_rps: Balance,
    pub accumulated_rpz: Balance,
    pub loyalty_curve: Option<LoyaltyCurve>,
    pub stake_in_global_pool: Balance,
    pub multiplier: PoolMultiplier,
    pub nft_class: NftClassId,
    pub canceled: bool,
}

impl LiquidityPoolYieldFarm {
    pub fn new(
        id: PoolId,
        updated_at: BlockNumber,
        loyalty_curve: Option<LoyaltyCurve>,
        multiplier: PoolMultiplier,
        nft_class: NftClassId,
    ) -> (r: LiquidityPoolYieldFarm)
        ensures
            r == (LiquidityPoolYieldFarm {
                id,
                updated_at,
                total_shares: 0,
                total_valued_shares: 0,
                accumulated_rps: 0,
                accumulated_rpz: 0,
                loyalty_curve,
                stake_in_global_pool: 0,
                multiplier,
                nft_class,
                canceled: false,
            }),
    {
        LiquidityPoolYieldFarm {
            id,
            updated_at,
            total_shares: 0,
            total_valued_shares: 0,
            accumulated_rps: 0,
            accumulated_rpz: 0,
            loyalty_curve,
            stake_in_global_pool: 0,
            multiplier,
            nft_class,
            canceled: false,
        }
    }
}

/// The record of AMM shares deposited into a liquidity pool, kept under the NFT
/// minted for the deposit.
#[derive(Clone, Copy, PartialEq, Eq, Debug, Structural)]
pub struct Deposit {
    pub shares: Balance,
    pub valued_shares: Balance,
    pub accumulated_rps: Balance,
    pub accumulated_claimed_rewards: Balance,
    pub entered_period: BlockNumber,
    /// The period of the last claim, or of the deposit when nothing was claimed yet.
    pub updated_at: BlockNumber,
}

impl Deposit {
    pub fn new(
        shares: Balance,
        valued_shares: Balance,
        accumulated_rps: Balance,
        entered_period: BlockNumber,
    ) -> (r: Deposit)
        ensures
            r == (Deposit {
                shares,
                valued_shares,
                accumulated_rps,
                accumulated_claimed_rewards: 0,
                entered_period,
                updated_at: entered_period,
            }),
    {
        Deposit {
            shares,
            valued_shares,
            accumulated_rps,
            accumulated_claimed_rewards: 0,
            entered_period,
            updated_at: entered_period,
        }
    }
}

pub open spec fn min(a: int, b: int) -> int {
    if a <= b {
        a
    } else {
        b
    }
}

// ---------------------------------------------------------------------------
// Identifiers and periods
// ---------------------------------------------------------------------------

/// Takes the next id from the pool id sequence `seq`: the sequence is increased
/// and its new value is the id. Farms and liquidity pools share the sequence.
pub fn get_next_id(seq: &mut PoolId) -> (r: Result<PoolId, Error>)
    ensures
        *old(seq) < u32::MAX ==> r == Ok::<PoolId, Error>((*old(seq) + 1) as PoolId) && *final(seq) == *old(seq) + 1,
        *old(seq) == u32::MAX ==> r == Err::<PoolId, Error>(Error::Overflow) && *final(seq) == *old(seq),
{
    match seq.checked_add(1) {
        Some(id) => {
            *seq = id;
            Ok(id)
        },
        None => Err(Error::Overflow),
    }
}

/// Pool id 0 is the pallet's own account and is not a valid pool id.
pub fn validate_pool_id(pool_id: PoolId) -> (r: Result<(), Error>)
    ensures
        r == (if pool_id == 0 { Err::<(), Error>(Error::InvalidPoolId) } else { Ok(()) }),
{
    if pool_id == 0 {
        return Err(Error::InvalidPoolId);
    }
    Ok(())
}

/// Account of the pot that holds all the deposited shares.
pub fn account_id() -> (r: Account)
    ensures
        r == Account::Pallet,
{
    Account::Pallet
}

/// The account holding the rewards of the farm or liquidity pool `pool_id`.
pub fn pool_account_id(pool_id: PoolId) -> (r: Result<Account, Error>)
    ensures
        r == (if pool_id == 0 {
            Err::<Account, Error>(Error::InvalidPoolId)
        } else {
            Ok(Account::Pool(pool_id))
        }),
{
    validate_pool_id(pool_id)?;
    Ok(Account::Pool(pool_id))
}

/// The period that `block` falls into when a period lasts `blocks_per_period` blocks.
pub fn get_period_number(block: BlockNumber, blocks_per_period: BlockNumber) -> (r: Result<BlockNumber, Error>)
    ensures
        r == (if blocks_per_period == 0 {
            Err::<BlockNumber, Error>(Error::Overflow)
        } else {
            Ok((block / blocks_per_period) as BlockNumber)
        }),
{
    match block.checked_div(blocks_per_period) {
        Some(p) => Ok(p),
        None => Err(Error::Overflow),
    }
}

/// The period of the current block `now`.
pub fn get_now_period(now: BlockNumber, blocks_per_period: BlockNumber) -> (r: Result<BlockNumber, Error>)
    ensures
        r == (if blocks_per_period == 0 {
            Err::<BlockNumber, Error>(Error::Overflow)
        } else {
            Ok((now / blocks_per_period) as BlockNumber)
        }),
{
    get_period_number(now, blocks_per_period)
}


// ---------------------------------------------------------------------------
// Reward arithmetic
// ---------------------------------------------------------------------------

/// The inner value carried by a fixed point result.
pub open spec fn fixed_result(r: Result<Fixed, Error>) -> Result<u128, Error> {
    match r {
        Ok(f) => Ok(f.inner),
        Err(e) => Err(e),
    }
}

/// The loyalty multiplier after `periods` periods on `curve`, computed with the
/// fixed point operations of `sp_arithmetic`:
/// `theta = periods / ((b + 1) * scale_coef)` and
/// `multiplier = (theta + theta * b + b) / (theta + theta * b + 1)`,
/// where `b` is the initial reward percentage. Without a curve the multiplier is one;
/// so it is when `b`'s inner value is one, which is what `FixedPointNumber::is_one` tests.
pub open spec fn spec_loyalty_multiplier(periods: BlockNumber, curve: Option<LoyaltyCurve>) -> Result<u128, Error> {
    match curve {
        None => Ok(DIV),
        Some(c) => {
            let b = c.initial_reward_percentage.inner;
            if b == 1 {
                Ok(DIV)
            } else if b + DIV > u128::MAX {
                Err(Error::Overflow)
            } else {
                match spec_checked_mul((b + DIV) as u128, spec_from_integer(c.scale_coef as u128)) {
                    None => Err(Error::Overflow),
                    Some(denom) => match spec_checked_div(spec_from_integer(periods as u128), denom) {
                        None => Err(Error::Overflow),
                        Some(theta) => match spec_checked_mul(theta, b) {
                            None => Err(Error::Overflow),
                            Some(theta_b) => {
                                let t = theta + theta_b;
                                if t > u128::MAX || t + b > u128::MAX || t + DIV > u128::MAX {
                                    Err(Error::Overflow)
                                } else {
                                    match spec_checked_div((t + b) as u128, (t + DIV) as u128) {
                                        None => Err(Error::Overflow),
                                        Some(m) => Ok(m),
                                    }
                                }
                            },
                        },
                    },
                }
            }
        },
    }
}

/// Loyalty multiplier of a deposit that entered `periods` periods ago.
pub fn get_loyalty_multiplier(periods: BlockNumber, curve: Option<LoyaltyCurve>) -> (r: Result<Fixed, Error>)
    ensures
        fixed_result(r) == spec_loyalty_multiplier(periods, curve),
{
    let curve = match curve {
        Some(v) => v,
        None => return Ok(Fixed::one()),
    };
    let b = curve.initial_reward_percentage;
    if b.inner == 1 {
        return Ok(Fixed::one());
    }
    let b_plus_one = match b.checked_add(&Fixed::one()) {
        Some(v) => v,
        None => return Err(Error::Overflow),
    };
    let denom = match b_plus_one.checked_mul(&Fixed::from_integer(curve.scale_coef as u128)) {
        Some(v) => v,
        None => return Err(Error::Overflow),
    };
    let periods = Fixed::from_integer(periods as u128);
    let theta = match periods.checked_div(&denom) {
        Some(v) => v,
        None => return Err(Error::Overflow),
    };
    let theta_mul_b = match theta.checked_mul(&b) {
        Some(v) => v,
        None => return Err(Error::Overflow),
    };
    let theta_add_theta_mul_b = match theta.checked_add(&theta_mul_b) {
        Some(v) => v,
        None => return Err(Error::Overflow),
    };
    let num = match theta_add_theta_mul_b.checked_add(&b) {
        Some(v) => v,
        None => return Err(Error::Overflow),
    };
    let denom = match theta_add_theta_mul_b.checked_add(&Fixed::one()) {
        Some(v) => v,
        None => return Err(Error::Overflow),
    };
    match num.checked_div(&denom) {
        Some(v) => Ok(v),
        None => Err(Error::Overflow),
    }
}

/// Reward a farm pays per period: `yield_per_period * total_shares_z`, at most
/// `max_reward_per_period`.
pub open spec fn spec_reward_per_period(yield_per_period: u128, total_shares_z: Balance, max_reward_per_period: Balance) -> Result<Balance, Error> {
    match spec_checked_mul_int(yield_per_period, total_shares_z) {
        None => Err(Error::Overflow),
        Some(v) => Ok(min(v as int, max_reward_per_period as int) as Balance),
    }
}

pub fn get_reward_per_period(
    yield_per_period: Fixed,
    total_global_pool_shares_z: Balance,
    max_reward_per_period: Balance,
) -> (r: Result<Balance, Error>)
    ensures
        r == spec_reward_per_period(yield_per_period.inner, total_global_pool_shares_z, max_reward_per_period),
{
    match yield_per_period.checked_mul_int(total_global_pool_shares_z) {
        Some(v) => {
            if v <= max_reward_per_period {
                Ok(v)
            } else {
                Ok(max_reward_per_period)
            }
        },
        None => Err(Error::Overflow),
    }
}

/// New accumulated reward per share after distributing `reward` over `total_shares`.
pub open spec fn spec_accumulated_rps(accumulated_rps_now: Balance, total_shares: Balance, reward: Balance) -> Result<Balance, Error> {
    if total_shares == 0 || reward / total_shares + accumulated_rps_now > u128::MAX {
        Err(Error::Overflow)
    } else {
        Ok((reward / total_shares + accumulated_rps_now) as Balance)
    }
}

pub fn get_accumulated_rps(accumulated_rps_now: Balance, total_shares: Balance, reward: Balance) -> (r: Result<Balance, Error>)
    ensures
        r == spec_accumulated_rps(accumulated_rps_now, total_shares, reward),
{
    let per_share = match reward.checked_div(total_shares) {
        Some(v) => v,
        None => return Err(Error::Overflow),
    };
    match per_share.checked_add(accumulated_rps_now) {
        Some(v) => Ok(v),
        None => Err(Error::Overflow),
    }
}

/// Rewards a deposit has earned since it entered: `(rps_now - rps) * valued_shares`.
pub open spec fn max_user_rewards(accumulated_rps: Balance, valued_shares: Balance, accumulated_rps_now: Balance) -> int {
    (accumulated_rps_now - accumulated_rps) * valued_shares
}

/// `(user_rewards, unclaimable_rewards)`: of the rewards earned since entering, the
/// loyalty multiplier decides the claimable part; the user gets the claimable part
/// not claimed yet, the rest of the earned rewards is unclaimable. Nothing earned
/// gives nothing to pay and nothing withheld.
pub open spec fn spec_user_reward(
    accumulated_rps: Balance,
    valued_shares: Balance,
    accumulated_claimed_rewards: Balance,
    accumulated_rps_now: Balance,
    loyalty_multiplier: u128,
) -> Result<(Balance, Balance), Error> {
    let max_rewards = max_user_rewards(accumulated_rps, valued_shares, accumulated_rps_now);
    if accumulated_rps_now < accumulated_rps || max_rewards > u128::MAX {
        Err(Error::Overflow)
    } else if max_rewards == 0 {
        Ok((0, 0))
    } else {
        match spec_checked_mul_int(loyalty_multiplier, max_rewards as u128) {
            None => Err(Error::Overflow),
            Some(claimable) => if claimable > max_rewards || accumulated_claimed_rewards > claimable {
                Err(Error::Overflow)
            } else {
                Ok(((claimable - accumulated_claimed_rewards) as Balance, (max_rewards - claimable) as Balance))
            },
        }
    }
}

pub fn get_user_reward(
    accumulated_rps: Balance,
    valued_shares: Balance,
    accumulated_claimed_rewards: Balance,
    accumulated_rps_now: Balance,
    loyalty_multiplier: Fixed,
) -> (r: Result<(Balance, Balance), Error>)
    ensures
        r == spec_user_reward(accumulated_rps, valued_shares, accumulated_claimed_rewards, accumulated_rps_now, loyalty_multiplier.inner),
        r matches Ok((user_rewards, unclaimable_rewards)) ==> (max_user_rewards(accumulated_rps, valued_shares, accumulated_rps_now) > 0 ==>
            user_rewards + accumulated_claimed_rewards + unclaimable_rewards
                == max_user_rewards(accumulated_rps, valued_shares, accumulated_rps_now)),
{
    let rps_diff = match accumulated_rps_now.checked_sub(accumulated_rps) {
        Some(v) => v,
        None => return Err(Error::Overflow),
    };
    let max_rewards = match rps_diff.checked_mul(valued_shares) {
        Some(v) => v,
        None => return Err(Error::Overflow),
    };
    if max_rewards == 0 {
        return Ok((0, 0));
    }
    let claimable_rewards = match loyalty_multiplier.checked_mul_int(max_rewards) {
        Some(v) => v,
        None => return Err(Error::Overflow),
    };
    let unclaimable_rewards = match max_rewards.checked_sub(claimable_rewards) {
        Some(v) => v,
        None => return Err(Error::Overflow),
    };
    let user_rewards = match claimable_rewards.checked_sub(accumulated_claimed_rewards) {
        Some(v) => v,
        None => return Err(Error::Overflow),
    };
    Ok((user_rewards, unclaimable_rewards))
}


/// The farm after it is brought up to period `now_period`: the rewards of the
/// elapsed periods, at most what is left in the farm's account (`pool_balance`),
/// are spread over the farm's stake `total_shares_z`. A farm already at
/// `now_period`, or without stake, is left as it is.
pub open spec fn spec_update_global_pool(
    pool: GlobalPool,
    now_period: BlockNumber,
    reward_per_period: Balance,
    pool_balance: Balance,
) -> Result<GlobalPool, Error> {
    if pool.updated_at == now_period || pool.total_shares_z == 0 {
        Ok(pool)
    } else if now_period < pool.updated_at {
        Err(Error::Overflow)
    } else if pool.id == 0 {
        Err(Error::InvalidPoolId)
    } else if (now_period - pool.updated_at) * reward_per_period > u128::MAX {
        Err(Error::Overflow)
    } else {
        let reward = min((now_period - pool.updated_at) * reward_per_period, pool_balance as int);
        if reward == 0 {
            Ok(GlobalPool { updated_at: now_period, ..pool })
        } else if reward / (pool.total_shares_z as int) + pool.accumulated_rpz > u128::MAX
            || pool.accumulated_rewards + reward > u128::MAX {
            Err(Error::Overflow)
        } else {
            Ok(GlobalPool {
                updated_at: now_period,
                accumulated_rpz: (reward / (pool.total_shares_z as int) + pool.accumulated_rpz) as Balance,
                accumulated_rewards: (pool.accumulated_rewards + reward) as Balance,
                ..pool
            })
        }
    }
}

/// `pool_balance` is the balance of the farm's account in its reward currency.
pub fn update_global_pool(
    pool: &mut GlobalPool,
    now_period: BlockNumber,
    reward_per_period: Balance,
    pool_balance: Balance,
) -> (r: Result<(), Error>)
    ensures
        r is Ok ==> spec_update_global_pool(*old(pool), now_period, reward_per_period, pool_balance) == Ok::<GlobalPool, Error>(*final(pool)),
        r matches Err(e) ==> spec_update_global_pool(*old(pool), now_period, reward_per_period, pool_balance) == Err::<GlobalPool, Error>(e)
            && *final(pool) == *old(pool),
{
    if pool.updated_at == now_period {
        return Ok(());
    }
    if pool.total_shares_z == 0 {
        return Ok(());
    }
    let periods_since_last_update: Balance = match now_period.checked_sub(pool.updated_at) {
        Some(v) => v as Balance,
        None => return Err(Error::Overflow),
    };
    let _pool_account = pool_account_id(pool.id)?;
    let reward = match periods_since_last_update.checked_mul(reward_per_period) {
        Some(v) => if v <= pool_balance { v } else { pool_balance },
        None => return Err(Error::Overflow),
    };
    if reward != 0 {
        let accumulated_rpz = get_accumulated_rps(pool.accumulated_rpz, pool.total_shares_z, reward)?;
        let accumulated_rewards = match pool.accumulated_rewards.checked_add(reward) {
            Some(v) => v,
            None => return Err(Error::Overflow),
        };
        pool.accumulated_rpz = accumulated_rpz;
        pool.accumulated_rewards = accumulated_rewards;
    }
    pool.updated_at = now_period;
    Ok(())
}

/// The rewards a liquidity pool with stake `shares` collects from its farm: what
/// the farm's reward per share grew by since the pool last collected, times
/// `shares`, at most the farm's undistributed rewards.
pub open spec fn spec_claim_from_global_pool_reward(g_pool: GlobalPool, liq_pool: LiquidityPoolYieldFarm, shares: Balance) -> Result<Balance, Error> {
    if g_pool.accumulated_rpz < liq_pool.accumulated_rpz
        || (g_pool.accumulated_rpz - liq_pool.accumulated_rpz) * shares > u128::MAX {
        Err(Error::Overflow)
    } else {
        let reward = min((g_pool.accumulated_rpz - liq_pool.accumulated_rpz) * shares, g_pool.accumulated_rewards as int);
        if g_pool.paid_accumulated_rewards + reward > u128::MAX {
            Err(Error::Overflow)
        } else {
            Ok(reward as Balance)
        }
    }
}

/// Moves the liquidity pool's share of the farm's undistributed rewards from
/// `accumulated_rewards` to `paid_accumulated_rewards`; the pool's reward per share
/// in the farm catches up with the farm's.
pub fn claim_from_global_pool(
    g_pool: &mut GlobalPool,
    liq_pool: &mut LiquidityPoolYieldFarm,
    shares: Balance,
) -> (r: Result<Balance, Error>)
    ensures
        r == spec_claim_from_global_pool_reward(*old(g_pool), *old(liq_pool), shares),
        r matches Ok(reward) ==> {
            &&& *final(g_pool) == (GlobalPool {
                paid_accumulated_rewards: (old(g_pool).paid_accumulated_rewards + reward) as Balance,
                accumulated_rewards: (old(g_pool).accumulated_rewards - reward) as Balance,
                ..*old(g_pool)
            })
            &&& *final(liq_pool) == (LiquidityPoolYieldFarm {
                accumulated_rpz: old(g_pool).accumulated_rpz,
                ..*old(liq_pool)
            })
        },
        r is Err ==> *final(g_pool) == *old(g_pool) && *final(liq_pool) == *old(liq_pool),
{
    let rpz_diff = match g_pool.accumulated_rpz.checked_sub(liq_pool.accumulated_rpz) {
        Some(v) => v,
        None => return Err(Error::Overflow),
    };
    let reward = match rpz_diff.checked_mul(shares) {
        Some(v) => if v <= g_pool.accumulated_rewards { v } else { g_pool.accumulated_rewards },
        None => return Err(Error::Overflow),
    };
    let paid = match g_pool.paid_accumulated_rewards.checked_add(reward) {
        Some(v) => v,
        None => return Err(Error::Overflow),
    };
    liq_pool.accumulated_rpz = g_pool.accumulated_rpz;
    g_pool.paid_accumulated_rewards = paid;
    g_pool.accumulated_rewards = g_pool.accumulated_rewards - reward;
    Ok(reward)
}

/// The liquidity pool after it receives `rewards` at `period_now`, and the
/// transfer of those rewards from the farm's account to the pool's account. A pool
/// already at `period_now`, or without valued shares, is left as it is and
/// nothing moves. `global_pool_balance` is the farm account's balance in
/// `reward_currency`; it must cover the rewards.
pub open spec fn spec_update_pool(
    pool: LiquidityPoolYieldFarm,
    rewards: Balance,
    period_now: BlockNumber,
    global_pool_id: PoolId,
    reward_currency: AssetId,
    global_pool_balance: Balance,
) -> Result<(LiquidityPoolYieldFarm, Option<Transfer>), Error> {
    if pool.updated_at == period_now || pool.total_valued_shares == 0 {
        Ok((pool, None))
    } else {
        match spec_accumulated_rps(pool.accumulated_rps, pool.total_valued_shares, rewards) {
            Err(e) => Err(e),
            Ok(rps) => if global_pool_id == 0 {
                Err(Error::InvalidPoolId)
            } else if global_pool_balance < rewards {
                Err(Error::InsuffcientBalanceInGlobalPool)
            } else if pool.id == 0 {
                Err(Error::InvalidPoolId)
            } else {
                Ok((
                    LiquidityPoolYieldFarm { accumulated_rps: rps, updated_at: period_now, ..pool },
                    Some(Transfer {
                        currency: reward_currency,
                        from: Account::Pool(global_pool_id),
                        to: Account::Pool(pool.id),
                        amount: rewards,
                    }),
                ))
            },
        }
    }
}

pub fn update_pool(
    pool: &mut LiquidityPoolYieldFarm,
    rewards: Balance,
    period_now: BlockNumber,
    global_pool_id: PoolId,
    reward_currency: AssetId,
    global_pool_balance: Balance,
) -> (r: Result<Option<Transfer>, Error>)
    ensures
        r matches Ok(t) ==> spec_update_pool(*old(pool), rewards, period_now, global_pool_id, reward_currency, global_pool_balance)
            == Ok::<(LiquidityPoolYieldFarm, Option<Transfer>), Error>((*final(pool), t)),
        r matches Err(e) ==> spec_update_pool(*old(pool), rewards, period_now, global_pool_id, reward_currency, global_pool_balance)
            == Err::<(LiquidityPoolYieldFarm, Option<Transfer>), Error>(e) && *final(pool) == *old(pool),
{
    if pool.updated_at == period_now {
        return Ok(None);
    }
    if pool.total_valued_shares == 0 {
        return Ok(None);
    }
    let accumulated_rps = get_accumulated_rps(pool.accumulated_rps, pool.total_valued_shares, rewards)?;
    let global_pool_account = pool_account_id(global_pool_id)?;
    if global_pool_balance < rewards {
        return Err(Error::InsuffcientBalanceInGlobalPool);
    }
    let pool_account = pool_account_id(pool.id)?;
    pool.accumulated_rps = accumulated_rps;
    pool.updated_at = period_now;
    Ok(Some(Transfer { currency: reward_currency, from: global_pool_account, to: pool_account, amount: rewards }))
}

/// Checks the parameters of a new farm against the runtime's minimums.
pub fn validate_create_farm_data(
    total_rewards: Balance,
    planned_yielding_periods: BlockNumber,
    blocks_per_period: BlockNumber,
    yield_per_period: Permill,
    min_total_farm_rewards: Balance,
    min_planned_yielding_periods: BlockNumber,
) -> (r: Result<(), Error>)
    ensures
        r == (if total_rewards < min_total_farm_rewards {
            Err::<(), Error>(Error::InvalidTotalRewards)
        } else if planned_yielding_periods < min_planned_yielding_periods {
            Err(Error::InvalidPlannedYieldingPeriods)
        } else if blocks_per_period == 0 {
            Err(Error::InvalidBlocksPerPeriod)
        } else if yield_per_period.spec_parts() == 0 {
            Err(Error::InvalidYieldPerPeriod)
        } else {
            Ok(())
        }),
{
    if total_rewards < min_total_farm_rewards {
        return Err(Error::InvalidTotalRewards);
    }
    if planned_yielding_periods < min_planned_yielding_periods {
        return Err(Error::InvalidPlannedYieldingPeriods);
    }
    if blocks_per_period == 0 {
        return Err(Error::InvalidBlocksPerPeriod);
    }
    if yield_per_period.is_zero() {
        return Err(Error::InvalidYieldPerPeriod);
    }
    Ok(())
}

/// Stake in the farm of `valued_shares` in a pool with `multiplier`.
pub fn get_global_pool_shares(valued_shares: Balance, multiplier: PoolMultiplier) -> (r: Result<Balance, Error>)
    ensures
        r == (if valued_shares * multiplier > u128::MAX {
            Err::<Balance, Error>(Error::Overflow)
        } else {
            Ok((valued_shares * multiplier) as Balance)
        }),
{
    match valued_shares.checked_mul(multiplier as u128) {
        Some(v) => Ok(v),
        None => Err(Error::Overflow),
    }
}

/// Value of `shares` in the reward currency: `shares` times the AMM pool's
/// balance `amm_reward_balance` of the reward currency.
pub fn get_valued_shares(shares: Balance, amm_reward_balance: Balance) -> (r: Result<Balance, Error>)
    ensures
        r == (if shares * amm_reward_balance > u128::MAX {
            Err::<Balance, Error>(Error::Overflow)
        } else {
            Ok((shares * amm_reward_balance) as Balance)
        }),
{
    match shares.checked_mul(amm_reward_balance) {
        Some(v) => Ok(v),
        None => Err(Error::Overflow),
    }
}


/// Rewards paid out to `who` for deposit `d` in `pool` at `now_period`, and what
/// the deposit records as claimed afterwards. The result holds the user's rewards,
/// the rewards the loyalty curve withholds, and the updated deposit. A deposit
/// already claimed in `now_period` gets nothing and stays as it is.
pub open spec fn spec_claim_rewards(d: Deposit, pool: LiquidityPoolYieldFarm, now_period: BlockNumber) -> Result<(Balance, Balance, Deposit), Error> {
    if now_period < d.entered_period {
        Err(Error::Overflow)
    } else if d.updated_at == now_period {
        Ok((0, 0, d))
    } else {
        match spec_loyalty_multiplier((now_period - d.entered_period) as BlockNumber, pool.loyalty_curve) {
            Err(e) => Err(e),
            Ok(loyalty) => match spec_user_reward(
                d.accumulated_rps,
                d.valued_shares,
                d.accumulated_claimed_rewards,
                pool.accumulated_rps,
                loyalty,
            ) {
                Err(e) => Err(e),
                Ok((rewards, unclaimable)) => if d.accumulated_claimed_rewards + rewards > u128::MAX {
                    Err(Error::Overflow)
                } else if pool.id == 0 {
                    Err(Error::InvalidPoolId)
                } else {
                    Ok((rewards, unclaimable, Deposit {
                        accumulated_claimed_rewards: (d.accumulated_claimed_rewards + rewards) as Balance,
                        updated_at: now_period,
                        ..d
                    }))
                },
            },
        }
    }
}

/// Claims the rewards of deposit `d` for `who`: returns the user's rewards, the
/// unclaimable rewards, and the transfer of the user's rewards from the liquidity
/// pool's account to `who`.
pub fn do_claim_rewards(
    who: AccountId,
    d: &mut Deposit,
    pool: &LiquidityPoolYieldFarm,
    now_period: BlockNumber,
    reward_currency: AssetId,
) -> (r: Result<(Balance, Balance, Transfer), Error>)
    ensures
        r matches Ok((rewards, unclaimable, t)) ==> {
            &&& spec_claim_rewards(*old(d), *pool, now_period) == Ok::<(Balance, Balance, Deposit), Error>((rewards, unclaimable, *final(d)))
            &&& t == (Transfer { currency: reward_currency, from: Account::Pool(pool.id), to: Account::User(who), amount: rewards })
        },
        r matches Err(e) ==> spec_claim_rewards(*old(d), *pool, now_period) == Err::<(Balance, Balance, Deposit), Error>(e)
            && *final(d) == *old(d),
{
    let periods = match now_period.checked_sub(d.entered_period) {
        Some(v) => v,
        None => return Err(Error::Overflow),
    };
    if d.updated_at == now_period {
        return Ok((0, 0, Transfer { currency: reward_currency, from: Account::Pool(pool.id), to: Account::User(who), amount: 0 }));
    }
    let loyalty_multiplier = get_loyalty_multiplier(periods, pool.loyalty_curve)?;
    let (rewards, unclaimable_rewards) = get_user_reward(
        d.accumulated_rps,
        d.valued_shares,
        d.accumulated_claimed_rewards,
        pool.accumulated_rps,
        loyalty_multiplier,
    )?;
    let claimed = match d.accumulated_claimed_rewards.checked_add(rewards) {
        Some(v) => v,
        None => return Err(Error::Overflow),
    };
    let pool_account = pool_account_id(pool.id)?;
    d.accumulated_claimed_rewards = claimed;
    d.updated_at = now_period;
    Ok((rewards, unclaimable_rewards, Transfer { currency: reward_currency, from: pool_account, to: Account::User(who), amount: rewards }))
}

/// Both pools brought up to `now_period`, when the liquidity pool is live, holds
/// shares and is behind: first the farm, then the rewards the liquidity pool
/// collects from it. `g_pool_balance` is the farm account's balance in the reward
/// currency.
pub open spec fn spec_maybe_update_pools(
    g_pool: GlobalPool,
    liq_pool: LiquidityPoolYieldFarm,
    now_period: BlockNumber,
    g_pool_balance: Balance,
) -> Result<(GlobalPool, LiquidityPoolYieldFarm, Option<Transfer>), Error> {
    if liq_pool.canceled || liq_pool.total_shares == 0 || liq_pool.updated_at == now_period {
        Ok((g_pool, liq_pool, None))
    } else {
        let g1 = if g_pool.total_shares_z != 0 && g_pool.updated_at != now_period {
            match spec_reward_per_period(
                (g_pool.yield_per_period.spec_parts() * 1_000_000_000_000) as u128,
                g_pool.total_shares_z,
                g_pool.max_reward_per_period,
            ) {
                Err(e) => Err(e),
                Ok(rpp) => spec_update_global_pool(g_pool, now_period, rpp, g_pool_balance),
            }
        } else {
            Ok(g_pool)
        };
        match g1 {
            Err(e) => Err(e),
            Ok(g1) => match spec_claim_from_global_pool_reward(g1, liq_pool, liq_pool.stake_in_global_pool) {
                Err(e) => Err(e),
                Ok(reward) => {
                    let g2 = GlobalPool {
                        paid_accumulated_rewards: (g1.paid_accumulated_rewards + reward) as Balance,
                        accumulated_rewards: (g1.accumulated_rewards - reward) as Balance,
                        ..g1
                    };
                    let liq1 = LiquidityPoolYieldFarm { accumulated_rpz: g1.accumulated_rpz, ..liq_pool };
                    match spec_update_pool(liq1, reward, now_period, g2.id, g2.reward_currency, g_pool_balance) {
                        Err(e) => Err(e),
                        Ok((liq2, t)) => Ok((g2, liq2, t)),
                    }
                },
            },
        }
    }
}

pub fn maybe_update_pools(
    g_pool: &mut GlobalPool,
    liq_pool: &mut LiquidityPoolYieldFarm,
    now_period: BlockNumber,
    g_pool_balance: Balance,
) -> (r: Result<Option<Transfer>, Error>)
    ensures
        r matches Ok(t) ==> spec_maybe_update_pools(*old(g_pool), *old(liq_pool), now_period, g_pool_balance)
            == Ok::<(GlobalPool, LiquidityPoolYieldFarm, Option<Transfer>), Error>((*final(g_pool), *final(liq_pool), t)),
        r matches Err(e) ==> spec_maybe_update_pools(*old(g_pool), *old(liq_pool), now_period, g_pool_balance)
            == Err::<(GlobalPool, LiquidityPoolYieldFarm, Option<Transfer>), Error>(e),
{
    if liq_pool.canceled {
        return Ok(None);
    }
    if liq_pool.total_shares != 0 && liq_pool.updated_at != now_period {
        if g_pool.total_shares_z != 0 && g_pool.updated_at != now_period {
            let rewards = get_reward_per_period(
                g_pool.yield_per_period.to_fixed(),
                g_pool.total_shares_z,
                g_pool.max_reward_per_period,
            )?;
            update_global_pool(g_pool, now_period, rewards, g_pool_balance)?;
        }
        let stake = liq_pool.stake_in_global_pool;
        let rewards = claim_from_global_pool(g_pool, liq_pool, stake)?;
        let gid = g_pool.id;
        let currency = g_pool.reward_currency;
        let t = update_pool(liq_pool, rewards, now_period, gid, currency, g_pool_balance)?;
        return Ok(t);
    }
    Ok(None)
}


// ---------------------------------------------------------------------------
// Calls
// ---------------------------------------------------------------------------

/// What the farm registry keeps per liquidity pool NFT class: the AMM asset pair,
/// the number of deposits (NFTs) in the class, and the farm id.
pub type NftClassData = (AssetPair, u64, PoolId);

/// A new farm, if every check passes: the farm, kept under its id, and the
/// transfer of `total_rewards` from the owner to the farm's account.
pub open spec fn spec_create_farm(
    pool_id_seq: PoolId,
    total_rewards: Balance,
    planned_yielding_periods: BlockNumber,
    blocks_per_period: BlockNumber,
    incentivized_token: AssetId,
    reward_currency: AssetId,
    owner: AccountId,
    yield_per_period: Permill,
    owner_reward_balance: Balance,
    now: BlockNumber,
    min_total_farm_rewards: Balance,
    min_planned_yielding_periods: BlockNumber,
) -> Result<(GlobalPool, Transfer), Error> {
    if total_rewards < min_total_farm_rewards {
        Err(Error::InvalidTotalRewards)
    } else if planned_yielding_periods < min_planned_yielding_periods {
        Err(Error::InvalidPlannedYieldingPeriods)
    } else if blocks_per_period == 0 {
        Err(Error::InvalidBlocksPerPeriod)
    } else if yield_per_period.spec_parts() == 0 {
        Err(Error::InvalidYieldPerPeriod)
    } else if owner_reward_balance < total_rewards {
        Err(Error::InsufficientRewardCurrencyBalance)
    } else if planned_yielding_periods == 0 || pool_id_seq == u32::MAX {
        Err(Error::Overflow)
    } else {
        let id = (pool_id_seq + 1) as PoolId;
        Ok((
            GlobalPool {
                id,
                owner,
                updated_at: (now / blocks_per_period) as BlockNumber,
                total_shares_z: 0,
                accumulated_rpz: 0,
                reward_currency,
                accumulated_rewards: 0,
                paid_accumulated_rewards: 0,
                yield_per_period,
                planned_yielding_periods,
                blocks_per_period,
                incentivized_token,
                max_reward_per_period: (total_rewards / (planned_yielding_periods as u128)) as Balance,
                liq_pools_count: 0,
            },
            Transfer { currency: reward_currency, from: Account::User(owner), to: Account::Pool(id), amount: total_rewards },
        ))
    }
}

/// Creates a farm that distributes `total_rewards` of `reward_currency` over about
/// `planned_yielding_periods` periods of `blocks_per_period` blocks.
/// `owner_reward_balance` is the owner's free balance of the reward currency, `now`
/// the current block, and the two minimums are the runtime's limits. The id comes
/// from the pool id sequence `pool_id_seq`.
pub fn create_farm(
    pool_id_seq: &mut PoolId,
    total_rewards: Balance,
    planned_yielding_periods: BlockNumber,
    blocks_per_period: BlockNumber,
    incentivized_token: AssetId,
    reward_currency: AssetId,
    owner: AccountId,
    yield_per_period: Permill,
    owner_reward_balance: Balance,
    now: BlockNumber,
    min_total_farm_rewards: Balance,
    min_planned_yielding_periods: BlockNumber,
) -> (r: Result<(GlobalPool, Transfer), Error>)
    ensures
        r == spec_create_farm(*old(pool_id_seq), total_rewards, planned_yielding_periods, blocks_per_period,
            incentivized_token, reward_currency, owner, yield_per_period, owner_reward_balance, now,
            min_total_farm_rewards, min_planned_yielding_periods),
        r is Ok ==> *final(pool_id_seq) == *old(pool_id_seq) + 1,
        r is Err ==> *final(pool_id_seq) == *old(pool_id_seq),
{
    validate_create_farm_data(
        total_rewards,
        planned_yielding_periods,
        blocks_per_period,
        yield_per_period,
        min_total_farm_rewards,
        min_planned_yielding_periods,
    )?;
    if owner_reward_balance < total_rewards {
        return Err(Error::InsufficientRewardCurrencyBalance);
    }
    let planned_periods = planned_yielding_periods as Balance;
    let max_reward_per_period = match total_rewards.checked_div(planned_periods) {
        Some(v) => v,
        None => return Err(Error::Overflow),
    };
    let now_period = get_now_period(now, blocks_per_period)?;
    let pool_id = get_next_id(pool_id_seq)?;
    let pool = GlobalPool::new(
        pool_id,
        now_period,
        reward_currency,
        yield_per_period,
        planned_yielding_periods,
        blocks_per_period,
        owner,
        incentivized_token,
        max_reward_per_period,
    );
    let pool_account = pool_account_id(pool.id)?;
    Ok((pool, Transfer { currency: reward_currency, from: Account::User(owner), to: pool_account, amount: total_rewards }))
}

/// Destroys the farm in `g_pool` at the request of `who`. `farm_reward_balance`
/// is the balance of the farm's account in its reward currency; a farm can only be
/// destroyed by its owner, without liquidity pools and without rewards left.
pub fn destroy_farm(who: AccountId, g_pool: &mut Option<GlobalPool>, farm_reward_balance: Balance) -> (r: Result<(), Error>)
    ensures
        r == (match *old(g_pool) {
            None => Err::<(), Error>(Error::FarmNotFound),
            Some(g) => if who != g.owner {
                Err(Error::Forbidden)
            } else if g.liq_pools_count != 0 {
                Err(Error::FarmIsNotEmpty)
            } else if g.id == 0 {
                Err(Error::InvalidPoolId)
            } else if farm_reward_balance != 0 {
                Err(Error::RewardBalanceIsNotZero)
            } else {
                Ok(())
            },
        }),
        r is Ok ==> *final(g_pool) == None::<GlobalPool>,
        r is Err ==> *final(g_pool) == *old(g_pool),
{
    let g = match g_pool {
        Some(g) => *g,
        None => return Err(Error::FarmNotFound),
    };
    if who != g.owner {
        return Err(Error::Forbidden);
    }
    if g.liq_pools_count != 0 {
        return Err(Error::FarmIsNotEmpty);
    }
    let _g_pool_account = pool_account_id(g.id)?;
    if farm_reward_balance != 0 {
        return Err(Error::RewardBalanceIsNotZero);
    }
    *g_pool = None;
    Ok(())
}

/// The farm brought up to `now_period` before its liquidity pools change, when it
/// has stake and is behind.
pub open spec fn spec_refresh_global_pool(g: GlobalPool, now_period: BlockNumber, g_pool_balance: Balance) -> Result<GlobalPool, Error> {
    if g.total_shares_z != 0 && g.updated_at != now_period {
        match spec_reward_per_period(
            (g.yield_per_period.spec_parts() * 1_000_000_000_000) as u128,
            g.total_shares_z,
            g.max_reward_per_period,
        ) {
            Err(e) => Err(e),
            Ok(rpp) => spec_update_global_pool(g, now_period, rpp, g_pool_balance),
        }
    } else {
        Ok(g)
    }
}

/// A liquidity pool's stake in its farm is its valued shares times its multiplier.
pub open spec fn stake_follows_valued_shares(l: LiquidityPoolYieldFarm) -> bool {
    l.stake_in_global_pool == l.total_valued_shares * l.multiplier
}

/// A liquidity pool for the AMM pool `amm_pool_id` of `asset_pair`, added to the
/// farm in `g_pool` by its owner, when one of the pair's assets is the farm's
/// incentivized asset: the farm afterwards, the pool, and the record of its NFT
/// class `nft_class`.
pub open spec fn spec_add_liquidity_pool(
    who: AccountId,
    asset_pair: AssetPair,
    multiplier: PoolMultiplier,
    loyalty_curve: Option<LoyaltyCurve>,
    amm_exists: bool,
    liq_pool_exists: bool,
    g_pool: Option<GlobalPool>,
    pool_id_seq: PoolId,
    now: BlockNumber,
    g_pool_balance: Balance,
    nft_class: NftClassId,
) -> Result<(GlobalPool, LiquidityPoolYieldFarm, NftClassData), Error> {
    if multiplier == 0 {
        Err(Error::InvalidMultiplier)
    } else if loyalty_curve matches Some(c) && c.initial_reward_percentage.inner >= DIV {
        Err(Error::InvalidLoyaltyCurverParamB)
    } else if !amm_exists {
        Err(Error::AmmPoolDoesNotExist)
    } else {
        match g_pool {
            None => Err(Error::FarmNotFound),
            Some(g) => if who != g.owner {
                Err(Error::Forbidden)
            } else if asset_pair.asset_in != g.incentivized_token && asset_pair.asset_out != g.incentivized_token {
                Err(Error::MissingIncentivizedAsset)
            } else if liq_pool_exists {
                Err(Error::LiquidityPoolAlreadyExists)
            } else if g.blocks_per_period == 0 {
                Err(Error::Overflow)
            } else {
                let now_period = (now / g.blocks_per_period) as BlockNumber;
                match spec_refresh_global_pool(g, now_period, g_pool_balance) {
                    Err(e) => Err(e),
                    Ok(g1) => if g1.liq_pools_count == u32::MAX || pool_id_seq == u32::MAX {
                        Err(Error::Overflow)
                    } else {
                        Ok((
                            GlobalPool { liq_pools_count: (g1.liq_pools_count + 1) as u32, ..g1 },
                            LiquidityPoolYieldFarm::new_spec((pool_id_seq + 1) as PoolId, now_period, loyalty_curve, multiplier, nft_class),
                            (asset_pair, 0u64, g1.id),
                        ))
                    },
                }
            },
        }
    }
}

impl LiquidityPoolYieldFarm {
    pub open spec fn new_spec(
        id: PoolId,
        updated_at: BlockNumber,
        loyalty_curve: Option<LoyaltyCurve>,
        multiplier: PoolMultiplier,
        nft_class: NftClassId,
    ) -> LiquidityPoolYieldFarm {
        LiquidityPoolYieldFarm {
            id,
            updated_at,
            total_shares: 0,
            total_valued_shares: 0,
            accumulated_rps: 0,
            accumulated_rpz: 0,
            loyalty_curve,
            stake_in_global_pool: 0,
            multiplier,
            nft_class,
            canceled: false,
        }
    }
}

/// Adds a liquidity pool for an AMM pool to a farm. `amm_exists` tells whether the
/// AMM pool of `asset_pair` exists, `liq_pool_exists` whether the farm already has
/// a liquidity pool for it, `g_pool_balance` is the farm account's balance in the
/// reward currency, and `nft_class` the NFT class created for the pool's deposits.
/// Returns the new pool and its NFT class record; on success `g_pool` holds the
/// farm with one more liquidity pool.
pub fn add_liquidity_pool(
    who: AccountId,
    asset_pair: AssetPair,
    multiplier: PoolMultiplier,
    loyalty_curve: Option<LoyaltyCurve>,
    amm_exists: bool,
    liq_pool_exists: bool,
    g_pool: &mut Option<GlobalPool>,
    pool_id_seq: &mut PoolId,
    now: BlockNumber,
    g_pool_balance: Balance,
    nft_class: NftClassId,
) -> (r: Result<(LiquidityPoolYieldFarm, NftClassData), Error>)
    ensures
        r matches Ok((pool, class_data)) ==> {
            &&& *final(g_pool) matches Some(g)
            &&& spec_add_liquidity_pool(who, asset_pair, multiplier, loyalty_curve, amm_exists, liq_pool_exists,
                *old(g_pool), *old(pool_id_seq), now, g_pool_balance, nft_class)
                == Ok::<(GlobalPool, LiquidityPoolYieldFarm, NftClassData), Error>((g, pool, class_data))
            &&& *final(pool_id_seq) == *old(pool_id_seq) + 1
        },
        r matches Err(e) ==> {
            &&& spec_add_liquidity_pool(who, asset_pair, multiplier, loyalty_curve, amm_exists, liq_pool_exists,
                *old(g_pool), *old(pool_id_seq), now, g_pool_balance, nft_class)
                == Err::<(GlobalPool, LiquidityPoolYieldFarm, NftClassData), Error>(e)
            &&& *final(g_pool) == *old(g_pool)
            &&& *final(pool_id_seq) == *old(pool_id_seq)
        },
{
    if multiplier == 0 {
        return Err(Error::InvalidMultiplier);
    }
    if let Some(c) = loyalty_curve {
        if c.initial_reward_percentage.inner >= Fixed::one().inner {
            return Err(Error::InvalidLoyaltyCurverParamB);
        }
    }
    if !amm_exists {
        return Err(Error::AmmPoolDoesNotExist);
    }
    let mut g = match g_pool {
        Some(g) => *g,
        None => return Err(Error::FarmNotFound),
    };
    if who != g.owner {
        return Err(Error::Forbidden);
    }
    if asset_pair.asset_in != g.incentivized_token && asset_pair.asset_out != g.incentivized_token {
        return Err(Error::MissingIncentivizedAsset);
    }
    if liq_pool_exists {
        return Err(Error::LiquidityPoolAlreadyExists);
    }
    let now_period = get_now_period(now, g.blocks_per_period)?;
    if g.total_shares_z != 0 && g.updated_at != now_period {
        let reward_per_period = get_reward_per_period(
            g.yield_per_period.to_fixed(),
            g.total_shares_z,
            g.max_reward_per_period,
        )?;
        update_global_pool(&mut g, now_period, reward_per_period, g_pool_balance)?;
    }
    g.liq_pools_count = match g.liq_pools_count.checked_add(1) {
        Some(v) => v,
        None => return Err(Error::Overflow),
    };
    let liq_pool_id = get_next_id(pool_id_seq)?;
    let pool = LiquidityPoolYieldFarm::new(liq_pool_id, now_period, loyalty_curve, multiplier, nft_class);
    let class_data: NftClassData = (asset_pair, 0u64, g.id);
    *g_pool = Some(g);
    Ok((pool, class_data))
}


/// The liquidity pool collects its rewards from the (already updated) farm and
/// receives them: the farm and pool afterwards, and the transfer between their
/// accounts.
pub open spec fn spec_collect_rewards(
    g1: GlobalPool,
    liq_pool: LiquidityPoolYieldFarm,
    now_period: BlockNumber,
    g_pool_balance: Balance,
) -> Result<(GlobalPool, LiquidityPoolYieldFarm, Option<Transfer>), Error> {
    match spec_claim_from_global_pool_reward(g1, liq_pool, liq_pool.stake_in_global_pool) {
        Err(e) => Err(e),
        Ok(reward) => {
            let g2 = GlobalPool {
                paid_accumulated_rewards: (g1.paid_accumulated_rewards + reward) as Balance,
                accumulated_rewards: (g1.accumulated_rewards - reward) as Balance,
                ..g1
            };
            let liq1 = LiquidityPoolYieldFarm { accumulated_rpz: g1.accumulated_rpz, ..liq_pool };
            match spec_update_pool(liq1, reward, now_period, g2.id, g2.reward_currency, g_pool_balance) {
                Err(e) => Err(e),
                Ok((liq2, t)) => Ok((g2, liq2, t)),
            }
        },
    }
}

/// A new multiplier for a live liquidity pool, set by the farm's owner: both pools are
/// brought up to the current period, then the pool's stake in the farm becomes
/// `total_valued_shares * multiplier` and the farm's total stake follows it.
pub open spec fn spec_update_liquidity_pool(
    who: AccountId,
    multiplier: PoolMultiplier,
    liq_pool: Option<LiquidityPoolYieldFarm>,
    g_pool: Option<GlobalPool>,
    now: BlockNumber,
    g_pool_balance: Balance,
) -> Result<(GlobalPool, LiquidityPoolYieldFarm, Option<Transfer>), Error> {
    if multiplier == 0 {
        Err(Error::InvalidMultiplier)
    } else {
        match liq_pool {
            None => Err(Error::LiquidityPoolNotFound),
            Some(l) => if l.canceled {
                Err(Error::LiquidityMiningCanceled)
            } else { match g_pool {
                None => Err(Error::FarmNotFound),
                Some(g) => if who != g.owner {
                    Err(Error::Forbidden)
                } else if g.blocks_per_period == 0 {
                    Err(Error::Overflow)
                } else {
                    let now_period = (now / g.blocks_per_period) as BlockNumber;
                    match spec_reward_per_period(
                        (g.yield_per_period.spec_parts() * 1_000_000_000_000) as u128,
                        g.total_shares_z,
                        g.max_reward_per_period,
                    ) {
                        Err(e) => Err(e),
                        Ok(rpp) => match spec_update_global_pool(g, now_period, rpp, g_pool_balance) {
                            Err(e) => Err(e),
                            Ok(g1) => match spec_collect_rewards(g1, l, now_period, g_pool_balance) {
                                Err(e) => Err(e),
                                Ok((g2, l2, t)) => {
                                    let new_stake = l2.total_valued_shares * multiplier;
                                    if new_stake > u128::MAX || g2.total_shares_z < l2.stake_in_global_pool
                                        || g2.total_shares_z - l2.stake_in_global_pool + new_stake > u128::MAX {
                                        Err(Error::Overflow)
                                    } else {
                                        Ok((
                                            GlobalPool {
                                                total_shares_z: (g2.total_shares_z - l2.stake_in_global_pool + new_stake) as Balance,
                                                ..g2
                                            },
                                            LiquidityPoolYieldFarm {
                                                stake_in_global_pool: new_stake as Balance,
                                                multiplier,
                                                ..l2
                                            },
                                            t,
                                        ))
                                    }
                                },
                            },
                        },
                    }
                },
            } },
        }
    }
}

/// Sets a new multiplier for the liquidity pool in `liq_pool` of the farm in
/// `g_pool`. `g_pool_balance` is the farm account's balance of the farm's reward
/// currency. Returns the transfer of the rewards the pool collected, if any.
pub fn update_liquidity_pool(
    who: AccountId,
    multiplier: PoolMultiplier,
    liq_pool: &mut Option<LiquidityPoolYieldFarm>,
    g_pool: &mut Option<GlobalPool>,
    now: BlockNumber,
    g_pool_balance: Balance,
) -> (r: Result<Option<Transfer>, Error>)
    ensures
        r matches Ok(t) ==> {
            &&& *final(g_pool) matches Some(g)
            &&& *final(liq_pool) matches Some(l)
            &&& spec_update_liquidity_pool(who, multiplier, *old(liq_pool), *old(g_pool), now, g_pool_balance)
                == Ok::<(GlobalPool, LiquidityPoolYieldFarm, Option<Transfer>), Error>((g, l, t))
        },
        r matches Err(e) ==> {
            &&& spec_update_liquidity_pool(who, multiplier, *old(liq_pool), *old(g_pool), now, g_pool_balance)
                == Err::<(GlobalPool, LiquidityPoolYieldFarm, Option<Transfer>), Error>(e)
            &&& *final(g_pool) == *old(g_pool)
            &&& *final(liq_pool) == *old(liq_pool)
        },
{
    if multiplier == 0 {
        return Err(Error::InvalidMultiplier);
    }
    let mut l = match liq_pool {
        Some(l) => *l,
        None => return Err(Error::LiquidityPoolNotFound),
    };
    if l.canceled {
        return Err(Error::LiquidityMiningCanceled);
    }
    let mut g = match g_pool {
        Some(g) => *g,
        None => return Err(Error::FarmNotFound),
    };
    if who != g.owner {
        return Err(Error::Forbidden);
    }
    let now_period = get_now_period(now, g.blocks_per_period)?;
    let reward_per_period = get_reward_per_period(
        g.yield_per_period.to_fixed(),
        g.total_shares_z,
        g.max_reward_per_period,
    )?;
    update_global_pool(&mut g, now_period, reward_per_period, g_pool_balance)?;
    let stake = l.stake_in_global_pool;
    let pool_reward = claim_from_global_pool(&mut g, &mut l, stake)?;
    let t = update_pool(&mut l, pool_reward, now_period, g.id, g.reward_currency, g_pool_balance)?;
    let new_stake_in_global_pool = get_global_pool_shares(l.total_valued_shares, multiplier)?;
    let without_old_stake = match g.total_shares_z.checked_sub(l.stake_in_global_pool) {
        Some(v) => v,
        None => return Err(Error::Overflow),
    };
    let total_shares_z = match without_old_stake.checked_add(new_stake_in_global_pool) {
        Some(v) => v,
        None => return Err(Error::Overflow),
    };
    g.total_shares_z = total_shares_z;
    l.stake_in_global_pool = new_stake_in_global_pool;
    l.multiplier = multiplier;
    *liq_pool = Some(l);
    *g_pool = Some(g);
    Ok(t)
}


/// What a deposit of `shares` AMM shares by `who` changes: the farm, the
/// liquidity pool and the NFT class record afterwards, the new deposit, the
/// transfer of rewards the pool collected on the way, if any, and the transfer of
/// the shares from `who` to the pallet's account. A deposit of no shares is refused.
pub open spec fn spec_deposit_shares(
    who: AccountId,
    shares: Balance,
    who_share_balance: Balance,
    amm_share_token: AssetId,
    amm_reward_balance: Balance,
    liq_pool: Option<LiquidityPoolYieldFarm>,
    g_pool: Option<GlobalPool>,
    nft_class_data: Option<NftClassData>,
    now: BlockNumber,
    g_pool_balance: Balance,
) -> Result<(GlobalPool, LiquidityPoolYieldFarm, NftClassData, Deposit, Option<Transfer>, Transfer), Error> {
    if who_share_balance < shares {
        Err(Error::InsufficientAmmSharesBalance)
    } else {
        match liq_pool {
            None => Err(Error::LiquidityPoolNotFound),
            Some(l) => if l.canceled {
                Err(Error::LiquidityMiningCanceled)
            } else if shares == 0 {
                Err(Error::InvalidDepositAmount)
            } else {
                match g_pool {
                    None => Err(Error::FarmNotFound),
                    Some(g) => if g.blocks_per_period == 0 {
                        Err(Error::Overflow)
                    } else {
                        let now_period = (now / g.blocks_per_period) as BlockNumber;
                        match spec_maybe_update_pools(g, l, now_period, g_pool_balance) {
                            Err(e) => Err(e),
                            Ok((g1, l1, t)) => {
                                let valued = shares * amm_reward_balance;
                                let z_shares = valued * l1.multiplier;
                                if valued > u128::MAX || z_shares > u128::MAX
                                    || l1.total_shares + shares > u128::MAX
                                    || l1.total_valued_shares + valued > u128::MAX
                                    || l1.stake_in_global_pool + z_shares > u128::MAX
                                    || g1.total_shares_z + z_shares > u128::MAX {
                                    Err(Error::Overflow)
                                } else {
                                    match nft_class_data {
                                        None => Err(Error::NftClassDoesNotExists),
                                        Some((pair, count, farm_id)) => if count == u64::MAX {
                                            Err(Error::Overflow)
                                        } else {
                                            Ok((
                                                GlobalPool { total_shares_z: (g1.total_shares_z + z_shares) as Balance, ..g1 },
                                                LiquidityPoolYieldFarm {
                                                    total_shares: (l1.total_shares + shares) as Balance,
                                                    total_valued_shares: (l1.total_valued_shares + valued) as Balance,
                                                    stake_in_global_pool: (l1.stake_in_global_pool + z_shares) as Balance,
                                                    ..l1
                                                },
                                                (pair, (count + 1) as u64, farm_id),
                                                Deposit {
                                                    shares,
                                                    valued_shares: valued as Balance,
                                                    accumulated_rps: l1.accumulated_rps,
                                                    accumulated_claimed_rewards: 0,
                                                    entered_period: now_period,
                                                    updated_at: now_period,
                                                },
                                                t,
                                                Transfer { currency: amm_share_token, from: Account::User(who), to: Account::Pallet, amount: shares },
                                            ))
                                        },
                                    }
                                }
                            },
                        }
                    },
                }
            },
        }
    }
}

/// Deposits `shares` AMM shares of `who` into the liquidity pool in `liq_pool` of
/// the farm in `g_pool`. `who_share_balance` is `who`'s balance of the AMM share
/// token `amm_share_token`, `amm_reward_balance` the AMM pool's balance of the
/// farm's reward currency, `g_pool_balance` the farm account's balance of it, and
/// `nft_class_data` the record of the pool's NFT class. Returns the deposit to be
/// kept under the NFT minted for it, the transfer of rewards the pool collected, if
/// any, and the transfer of the shares to the pallet.
pub fn deposit_shares(
    who: AccountId,
    shares: Balance,
    who_share_balance: Balance,
    amm_share_token: AssetId,
    amm_reward_balance: Balance,
    liq_pool: &mut Option<LiquidityPoolYieldFarm>,
    g_pool: &mut Option<GlobalPool>,
    nft_class_data: &mut Option<NftClassData>,
    now: BlockNumber,
    g_pool_balance: Balance,
) -> (r: Result<(Deposit, Option<Transfer>, Transfer), Error>)
    ensures
        r matches Ok((d, t, share_transfer)) ==> {
            &&& *final(g_pool) matches Some(g)
            &&& *final(liq_pool) matches Some(l)
            &&& *final(nft_class_data) matches Some(c)
            &&& spec_deposit_shares(who, shares, who_share_balance, amm_share_token, amm_reward_balance,
                *old(liq_pool), *old(g_pool), *old(nft_class_data), now, g_pool_balance)
                == Ok::<(GlobalPool, LiquidityPoolYieldFarm, NftClassData, Deposit, Option<Transfer>, Transfer), Error>(
                    (g, l, c, d, t, share_transfer))
        },
        r matches Err(e) ==> {
            &&& spec_deposit_shares(who, shares, who_share_balance, amm_share_token, amm_reward_balance,
                *old(liq_pool), *old(g_pool), *old(nft_class_data), now, g_pool_balance)
                == Err::<(GlobalPool, LiquidityPoolYieldFarm, NftClassData, Deposit, Option<Transfer>, Transfer), Error>(e)
            &&& *final(g_pool) == *old(g_pool)
            &&& *final(liq_pool) == *old(liq_pool)
            &&& *final(nft_class_data) == *old(nft_class_data)
        },
{
    if who_share_balance < shares {
        return Err(Error::InsufficientAmmSharesBalance);
    }
    let mut l = match liq_pool {
        Some(l) => *l,
        None => return Err(Error::LiquidityPoolNotFound),
    };
    if l.canceled {
        return Err(Error::LiquidityMiningCanceled);
    }
    if shares == 0 {
        return Err(Error::InvalidDepositAmount);
    }
    let mut g = match g_pool {
        Some(g) => *g,
        None => return Err(Error::FarmNotFound),
    };
    let now_period = get_now_period(now, g.blocks_per_period)?;
    let t = maybe_update_pools(&mut g, &mut l, now_period, g_pool_balance)?;
    let valued_shares = get_valued_shares(shares, amm_reward_balance)?;
    let global_pool_shares = get_global_pool_shares(valued_shares, l.multiplier)?;
    let total_shares = match l.total_shares.checked_add(shares) {
        Some(v) => v,
        None => return Err(Error::Overflow),
    };
    let total_valued_shares = match l.total_valued_shares.checked_add(valued_shares) {
        Some(v) => v,
        None => return Err(Error::Overflow),
    };
    let stake = match l.stake_in_global_pool.checked_add(global_pool_shares) {
        Some(v) => v,
        None => return Err(Error::Overflow),
    };
    let total_shares_z = match g.total_shares_z.checked_add(global_pool_shares) {
        Some(v) => v,
        None => return Err(Error::Overflow),
    };
    l.total_shares = total_shares;
    l.total_valued_shares = total_valued_shares;
    l.stake_in_global_pool = stake;
    g.total_shares_z = total_shares_z;
    let share_transfer = Transfer { currency: amm_share_token, from: Account::User(who), to: account_id(), amount: shares };
    let d = Deposit::new(shares, valued_shares, l.accumulated_rps, now_period);
    let class = match nft_class_data {
        Some(c) => *c,
        None => return Err(Error::NftClassDoesNotExists),
    };
    let count = match class.1.checked_add(1) {
        Some(v) => v,
        None => return Err(Error::Overflow),
    };
    *nft_class_data = Some((class.0, count, class.2));
    *liq_pool = Some(l);
    *g_pool = Some(g);
    Ok((d, t, share_transfer))
}

/// The rewards of a deposit claimed by `who`: the farm, the liquidity pool and the
/// deposit afterwards, the user's rewards, the transfer of rewards the pool
/// collected on the way, if any, and the transfer of the user's rewards. Only the
/// owner of the deposit's NFT (`nft_owner`) may claim, once per period.
pub open spec fn spec_claim_rewards_call(
    who: AccountId,
    nft_class_data: Option<NftClassData>,
    deposit: Option<Deposit>,
    nft_owner: Option<AccountId>,
    liq_pool: Option<LiquidityPoolYieldFarm>,
    g_pool: Option<GlobalPool>,
    now: BlockNumber,
    g_pool_balance: Balance,
) -> Result<(GlobalPool, LiquidityPoolYieldFarm, Deposit, Balance, Option<Transfer>, Transfer), Error> {
    match nft_class_data {
        None => Err(Error::NftClassDoesNotExists),
        Some(_) => match deposit {
            None => Err(Error::NftDoesNotExist),
            Some(d) => if nft_owner != Some(who) {
                Err(Error::NotDepositOwner)
            } else { match liq_pool {
                None => Err(Error::LiquidityPoolNotFound),
                Some(l) => if l.canceled {
                    Err(Error::LiquidityMiningCanceled)
                } else {
                    match g_pool {
                        None => Err(Error::FarmNotFound),
                        Some(g) => if g.blocks_per_period == 0 {
                            Err(Error::Overflow)
                        } else if d.updated_at == (now / g.blocks_per_period) as BlockNumber {
                            Err(Error::DoubleClaimInThePeriod)
                        } else {
                            let now_period = (now / g.blocks_per_period) as BlockNumber;
                            let updated = if l.stake_in_global_pool != 0 {
                                spec_maybe_update_pools(g, l, now_period, g_pool_balance)
                            } else {
                                Ok((g, l, None))
                            };
                            match updated {
                                Err(e) => Err(e),
                                Ok((g1, l1, t)) => match spec_claim_rewards(d, l1, now_period) {
                                    Err(e) => Err(e),
                                    Ok((reward, _unclaimable, d1)) => Ok((
                                        g1,
                                        l1,
                                        d1,
                                        reward,
                                        t,
                                        Transfer {
                                            currency: g1.reward_currency,
                                            from: Account::Pool(l1.id),
                                            to: Account::User(who),
                                            amount: reward,
                                        },
                                    )),
                                },
                            }
                        },
                    }
                },
            } },
        },
    }
}

/// `who` claims the rewards of the deposit in `deposit`, of the NFT class with
/// record `nft_class_data`, whose NFT is owned by `nft_owner`; rewards can be
/// claimed once per period. They come from the liquidity pool in `liq_pool` of the farm in
/// `g_pool`. Returns the claimed amount, the transfer of rewards the pool
/// collected on the way, if any, and the transfer of the claimed rewards.
pub fn claim_rewards(
    who: AccountId,
    nft_class_data: Option<NftClassData>,
    deposit: &mut Option<Deposit>,
    nft_owner: Option<AccountId>,
    liq_pool: &mut Option<LiquidityPoolYieldFarm>,
    g_pool: &mut Option<GlobalPool>,
    now: BlockNumber,
    g_pool_balance: Balance,
) -> (r: Result<(Balance, Option<Transfer>, Transfer), Error>)
    ensures
        r matches Ok((reward, t, claim)) ==> {
            &&& *final(g_pool) matches Some(g)
            &&& *final(liq_pool) matches Some(l)
            &&& *final(deposit) matches Some(d)
            &&& spec_claim_rewards_call(who, nft_class_data, *old(deposit), nft_owner, *old(liq_pool), *old(g_pool), now, g_pool_balance)
                == Ok::<(GlobalPool, LiquidityPoolYieldFarm, Deposit, Balance, Option<Transfer>, Transfer), Error>(
                    (g, l, d, reward, t, claim))
        },
        r matches Err(e) ==> {
            &&& spec_claim_rewards_call(who, nft_class_data, *old(deposit), nft_owner, *old(liq_pool), *old(g_pool), now, g_pool_balance)
                == Err::<(GlobalPool, LiquidityPoolYieldFarm, Deposit, Balance, Option<Transfer>, Transfer), Error>(e)
            &&& *final(g_pool) == *old(g_pool)
            &&& *final(liq_pool) == *old(liq_pool)
            &&& *final(deposit) == *old(deposit)
        },
{
    if nft_class_data.is_none() {
        return Err(Error::NftClassDoesNotExists);
    }
    let mut d = match deposit {
        Some(d) => *d,
        None => return Err(Error::NftDoesNotExist),
    };
    if nft_owner != Some(who) {
        return Err(Error::NotDepositOwner);
    }
    let mut l = match liq_pool {
        Some(l) => *l,
        None => return Err(Error::LiquidityPoolNotFound),
    };
    if l.canceled {
        return Err(Error::LiquidityMiningCanceled);
    }
    let mut g = match g_pool {
        Some(g) => *g,
        None => return Err(Error::FarmNotFound),
    };
    let now_period = get_now_period(now, g.blocks_per_period)?;
    if d.updated_at == now_period {
        return Err(Error::DoubleClaimInThePeriod);
    }
    let mut t = None;
    if l.stake_in_global_pool != 0 {
        t = maybe_update_pools(&mut g, &mut l, now_period, g_pool_balance)?;
    }
    let (reward, _unclaimable, claim) = do_claim_rewards(who, &mut d, &l, now_period, g.reward_currency)?;
    *deposit = Some(d);
    *liq_pool = Some(l);
    *g_pool = Some(g);
    Ok((reward, t, claim))
}


pub open spec fn opt_to_seq(t: Option<Transfer>) -> Seq<Transfer> {
    match t {
        Some(t) => seq![t],
        None => Seq::empty(),
    }
}

/// The liquidity pool part of a withdrawal: when the pool still exists, both pools
/// are brought up to date, the deposit's rewards are claimed, and the deposit's
/// shares, valued shares and stake leave the pool and the farm. The result holds
/// the farm and pool afterwards, whether the pool was canceled, the claimed
/// rewards and the transfers made so far.
pub open spec fn spec_withdraw_from_pools(
    who: AccountId,
    d: Deposit,
    liq_pool: Option<LiquidityPoolYieldFarm>,
    g_pool: Option<GlobalPool>,
    now: BlockNumber,
    g_pool_balance: Balance,
) -> Result<(Option<GlobalPool>, Option<LiquidityPoolYieldFarm>, bool, Option<Balance>, Seq<Transfer>), Error> {
    match liq_pool {
        None => Ok((g_pool, None, false, None, Seq::empty())),
        Some(l) => match g_pool {
            None => Err(Error::FarmNotFound),
            Some(g) => if g.blocks_per_period == 0 {
                Err(Error::Overflow)
            } else {
                let now_period = (now / g.blocks_per_period) as BlockNumber;
                let updated = if l.stake_in_global_pool != 0 {
                    spec_maybe_update_pools(g, l, now_period, g_pool_balance)
                } else {
                    Ok((g, l, None))
                };
                match updated {
                    Err(e) => Err(e),
                    Ok((g1, l1, t)) => match spec_claim_rewards(d, l1, now_period) {
                        Err(e) => Err(e),
                        Ok((reward, unclaimable, _d1)) => {
                            let z_shares = d.valued_shares * l1.multiplier;
                            if g1.id == 0 || l1.id == 0 {
                                Err(Error::InvalidPoolId)
                            } else if l1.total_shares < d.shares || l1.total_valued_shares < d.valued_shares
                                || z_shares > u128::MAX || l1.stake_in_global_pool < z_shares
                                || g1.total_shares_z < z_shares {
                                Err(Error::Overflow)
                            } else {
                                Ok((
                                    Some(GlobalPool { total_shares_z: (g1.total_shares_z - z_shares) as Balance, ..g1 }),
                                    Some(LiquidityPoolYieldFarm {
                                        total_shares: (l1.total_shares - d.shares) as Balance,
                                        total_valued_shares: (l1.total_valued_shares - d.valued_shares) as Balance,
                                        stake_in_global_pool: (l1.stake_in_global_pool - z_shares) as Balance,
                                        ..l1
                                    }),
                                    l.canceled,
                                    Some(reward),
                                    opt_to_seq(t) + seq![
                                        Transfer { currency: g1.reward_currency, from: Account::Pool(l1.id), to: Account::User(who), amount: reward },
                                        Transfer { currency: g1.reward_currency, from: Account::Pool(l1.id), to: Account::Pool(g1.id), amount: unclaimable },
                                    ],
                                ))
                            }
                        },
                    },
                }
            },
        },
    }
}

/// A withdrawal of the deposit in `deposit`: the farm, the liquidity pool and the
/// NFT class record afterwards, the claimed rewards (when the pool still exists)
/// and the transfers, in order. The deposit itself is removed. The shares go back
/// to `who` when the AMM pool still exists; the class record goes away with its last
/// deposit once the pool is gone or canceled. Only the owner of the deposit's NFT
/// (`nft_owner`) may withdraw.
pub open spec fn spec_withdraw_shares(
    who: AccountId,
    nft_class_data: Option<NftClassData>,
    deposit: Option<Deposit>,
    nft_owner: Option<AccountId>,
    liq_pool: Option<LiquidityPoolYieldFarm>,
    g_pool: Option<GlobalPool>,
    now: BlockNumber,
    g_pool_balance: Balance,
    amm_exists: bool,
    amm_share_token: AssetId,
) -> Result<(Option<GlobalPool>, Option<LiquidityPoolYieldFarm>, Option<NftClassData>, Option<Balance>, Seq<Transfer>), Error> {
    match nft_class_data {
        None => Err(Error::NftClassDoesNotExists),
        Some((pair, count, farm_id)) => match deposit {
            None => Err(Error::NftDoesNotExist),
            Some(d) => if nft_owner != Some(who) {
                Err(Error::NotDepositOwner)
            } else { match spec_withdraw_from_pools(who, d, liq_pool, g_pool, now, g_pool_balance) {
                Err(e) => Err(e),
                Ok((g1, l1, canceled, claimed, ts)) => {
                    let ts2 = if amm_exists {
                        ts.push(Transfer { currency: amm_share_token, from: Account::Pallet, to: Account::User(who), amount: d.shares })
                    } else {
                        ts
                    };
                    if count == 1 && (liq_pool is None || canceled) {
                        Ok((g1, l1, None, claimed, ts2))
                    } else if count == 0 {
                        Err(Error::Overflow)
                    } else {
                        Ok((g1, l1, Some((pair, (count - 1) as u64, farm_id)), claimed, ts2))
                    }
                },
            } },
        },
    }
}

/// What a withdrawal hands out.
#[derive(Debug)]
pub struct Withdrawal {
    /// The rewards claimed on the way out, when the liquidity pool still exists.
    pub claimed: Option<Balance>,
    /// The currency movements, in the order they are made.
    pub transfers: Vec<Transfer>,
}

/// `who` withdraws the deposit in `deposit`, of the NFT class with record
/// `nft_class_data`, whose NFT is owned by `nft_owner`, from the liquidity pool in `liq_pool` (which may have been
/// removed) of the farm in `g_pool`. `amm_exists` tells whether the AMM pool still
/// exists and `amm_share_token` is its share token.
#[verifier::spinoff_prover]
#[verifier::rlimit(40)]
pub fn withdraw_shares(
    who: AccountId,
    nft_class_data: &mut Option<NftClassData>,
    deposit: &mut Option<Deposit>,
    nft_owner: Option<AccountId>,
    liq_pool: &mut Option<LiquidityPoolYieldFarm>,
    g_pool: &mut Option<GlobalPool>,
    now: BlockNumber,
    g_pool_balance: Balance,
    amm_exists: bool,
    amm_share_token: AssetId,
) -> (r: Result<Withdrawal, Error>)
    ensures
        r matches Ok(w) ==> {
            &&& spec_withdraw_shares(who, *old(nft_class_data), *old(deposit), nft_owner, *old(liq_pool), *old(g_pool), now,
                g_pool_balance, amm_exists, amm_share_token)
                == Ok::<(Option<GlobalPool>, Option<LiquidityPoolYieldFarm>, Option<NftClassData>, Option<Balance>, Seq<Transfer>), Error>(
                    (*final(g_pool), *final(liq_pool), *final(nft_class_data), w.claimed, w.transfers@))
            &&& *final(deposit) == None::<Deposit>
        },
        r matches Err(e) ==> {
            &&& spec_withdraw_shares(who, *old(nft_class_data), *old(deposit), nft_owner, *old(liq_pool), *old(g_pool), now,
                g_pool_balance, amm_exists, amm_share_token)
                == Err::<(Option<GlobalPool>, Option<LiquidityPoolYieldFarm>, Option<NftClassData>, Option<Balance>, Seq<Transfer>), Error>(e)
            &&& *final(g_pool) == *old(g_pool)
            &&& *final(liq_pool) == *old(liq_pool)
            &&& *final(deposit) == *old(deposit)
            &&& *final(nft_class_data) == *old(nft_class_data)
        },
{
    let (pair, count, farm_id) = match nft_class_data {
        Some(c) => *c,
        None => return Err(Error::NftClassDoesNotExists),
    };
    let mut d = match deposit {
        Some(d) => *d,
        None => return Err(Error::NftDoesNotExist),
    };
    if nft_owner != Some(who) {
        return Err(Error::NotDepositOwner);
    }
    let mut transfers: Vec<Transfer> = Vec::new();
    let mut claimed: Option<Balance> = None;
    let mut liq_pool_canceled = false;
    let mut new_g = *g_pool;
    let mut new_l = *liq_pool;
    if let Some(l0) = liq_pool {
        let mut l = *l0;
        liq_pool_canceled = l.canceled;
        let mut g = match g_pool {
            Some(g) => *g,
            None => return Err(Error::FarmNotFound),
        };
        let now_period = get_now_period(now, g.blocks_per_period)?;
        let mut t_collected: Option<Transfer> = None;
        if l.stake_in_global_pool != 0 {
            t_collected = maybe_update_pools(&mut g, &mut l, now_period, g_pool_balance)?;
            if let Some(t) = t_collected {
                transfers.push(t);
            }
        }
        assert(transfers@ =~= opt_to_seq(t_collected));
        let (reward, unclaimable_rewards, claim) = do_claim_rewards(who, &mut d, &l, now_period, g.reward_currency)?;
        let g_pool_account = pool_account_id(g.id)?;
        let liq_pool_account = pool_account_id(l.id)?;
        let total_shares = match l.total_shares.checked_sub(d.shares) {
            Some(v) => v,
            None => return Err(Error::Overflow),
        };
        let total_valued_shares = match l.total_valued_shares.checked_sub(d.valued_shares) {
            Some(v) => v,
            None => return Err(Error::Overflow),
        };
        let global_pool_shares = get_global_pool_shares(d.valued_shares, l.multiplier)?;
        let stake = match l.stake_in_global_pool.checked_sub(global_pool_shares) {
            Some(v) => v,
            None => return Err(Error::Overflow),
        };
        let total_shares_z = match g.total_shares_z.checked_sub(global_pool_shares) {
            Some(v) => v,
            None => return Err(Error::Overflow),
        };
        l.total_shares = total_shares;
        l.total_valued_shares = total_valued_shares;
        l.stake_in_global_pool = stake;
        g.total_shares_z = total_shares_z;
        transfers.push(claim);
        transfers.push(Transfer { currency: g.reward_currency, from: liq_pool_account, to: g_pool_account, amount: unclaimable_rewards });
        assert(transfers@ =~= opt_to_seq(t_collected) + seq![claim, Transfer {
            currency: g.reward_currency, from: liq_pool_account, to: g_pool_account, amount: unclaimable_rewards }]);
        claimed = Some(reward);
        new_g = Some(g);
        new_l = Some(l);
    }
    if amm_exists {
        transfers.push(Transfer { currency: amm_share_token, from: account_id(), to: Account::User(who), amount: d.shares });
    }
    let new_class = if count == 1 && (liq_pool.is_none() || liq_pool_canceled) {
        None
    } else {
        match count.checked_sub(1) {
            Some(c) => Some((pair, c, farm_id)),
            None => return Err(Error::Overflow),
        }
    };
    *g_pool = new_g;
    *liq_pool = new_l;
    *nft_class_data = new_class;
    *deposit = None;
    Ok(Withdrawal { claimed, transfers })
}

} // verus!
