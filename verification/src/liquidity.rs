//! The liquidity manager: providers add two tokens to a pool against pool
//! shares, take them out again in proportion, and earn rewards at the
//! pool's yield for the days they stay.

use vstd::prelude::*;
use vstd::hash_map::StringHashMap;
use std::collections::HashMap;
use crate::types::Address;
use crate::math::{clamp_i128, div_toward_zero, fits_i128, saturating_add_i128, saturating_sub_i128};

verus! {

/// Yield of a pool before any bonus, in basis points a year.
pub const BASE_APY: u32 = 500;

/// Highest yield of a pool, in basis points a year.
pub const MAX_APY: u32 = 5000;

/// Smallest amount of a token that can be added.
pub const MIN_LIQUIDITY_AMOUNT: i128 = 1_000_000;

/// The pool that every deposit goes to.
pub const DEFAULT_POOL_ID: &'static str = "XLM_USDC";

/// The time against which the age of a pool is taken.
pub const APY_REFERENCE_TIME: u64 = 1234567890;

/// Why the liquidity manager refused an operation.
#[derive(Clone, Copy, Debug, PartialEq, Eq, Structural)]
pub enum LiquidityError {
    InsufficientLiquidity,
    InvalidPoolId,
    PoolNotFound,
    RewardCalculationError,
    DistributionFailed,
    UnauthorizedAccess,
    InvalidAmount,
    PoolCapExceeded,
    ImpermanentLossExceeded,
    RewardClaimFailed,
}

/// A pool of two tokens.
#[derive(Debug, PartialEq, Eq)]
pub struct LiquidityPool {
    pub pool_id: String,
    pub token_a: Address,
    pub token_b: Address,
    pub reserve_a: i128,
    pub reserve_b: i128,
    /// Shares of the pool that were handed out.
    pub total_lp_tokens: i128,
    /// Yield of the pool, in basis points a year.
    pub current_apy: u32,
    pub created_at: u64,
    pub last_reward_distribution: u64,
    pub total_rewards_distributed: i128,
    pub active: bool,
}

impl Clone for LiquidityPool {
    fn clone(&self) -> (r: Self)
        ensures
            r == *self,
    {
        LiquidityPool {
            pool_id: self.pool_id.clone(),
            token_a: self.token_a,
            token_b: self.token_b,
            reserve_a: self.reserve_a,
            reserve_b: self.reserve_b,
            total_lp_tokens: self.total_lp_tokens,
            current_apy: self.current_apy,
            created_at: self.created_at,
            last_reward_distribution: self.last_reward_distribution,
            total_rewards_distributed: self.total_rewards_distributed,
            active: self.active,
        }
    }
}

/// What a provider holds in a pool.
#[derive(Debug, PartialEq, Eq)]
pub struct LiquidityPosition {
    pub provider: Address,
    pub pool_id: String,
    /// Shares of the pool that the provider holds.
    pub lp_tokens: i128,
    pub deposited_at: u64,
    pub initial_token_a: i128,
    pub initial_token_b: i128,
    pub accumulated_rewards: i128,
    pub last_reward_claim: u64,
    pub impermanent_loss: i128,
}

impl Clone for LiquidityPosition {
    fn clone(&self) -> (r: Self)
        ensures
            r == *self,
    {
        LiquidityPosition {
            provider: self.provider,
            pool_id: self.pool_id.clone(),
            lp_tokens: self.lp_tokens,
            deposited_at: self.deposited_at,
            initial_token_a: self.initial_token_a,
            initial_token_b: self.initial_token_b,
            accumulated_rewards: self.accumulated_rewards,
            last_reward_claim: self.last_reward_claim,
            impermanent_loss: self.impermanent_loss,
        }
    }
}

/// The rewards of a provider for a period.
#[derive(Clone, Copy, Debug, PartialEq, Eq)]
pub struct YieldFarmRewards {
    pub swave_rewards: i128,
    pub lp_rewards: i128,
    pub fee_rewards: i128,
    pub total_value_usd: i128,
    pub effective_apy: u32,
    pub period_start: u64,
    pub period_end: u64,
}

/// The record of rewards that were handed out to a pool.
#[derive(Debug, PartialEq, Eq)]
pub struct RewardDistribution {
    pub pool_id: String,
    pub total_rewards: i128,
    pub participants: u32,
    pub distributed_at: u64,
    pub avg_reward: i128,
    pub new_apy: u32,
}

/// Running totals over all pools.
#[derive(Clone, Copy, Debug, PartialEq, Eq)]
pub struct GlobalLiquidityStats {
    pub total_tvl_usd: i128,
    pub total_pools: u32,
    pub active_providers: u32,
    pub total_rewards_distributed: i128,
    pub average_apy: u32,
}

/// The totals before anything was recorded.
pub open spec fn empty_stats() -> GlobalLiquidityStats {
    GlobalLiquidityStats {
        total_tvl_usd: 0,
        total_pools: 0,
        active_providers: 0,
        total_rewards_distributed: 0,
        average_apy: BASE_APY,
    }
}

/// The totals after `amount` was added (`is_addition`) or taken out.
/// Counters stop at the ends of their range.
pub open spec fn stats_after(stats: Option<GlobalLiquidityStats>, amount: i128, is_addition: bool) -> GlobalLiquidityStats {
    let s = match stats {
        Some(s) => s,
        None => empty_stats(),
    };
    if is_addition {
        GlobalLiquidityStats {
            total_tvl_usd: clamp_i128(s.total_tvl_usd + amount) as i128,
            active_providers: if s.active_providers == u32::MAX {
                u32::MAX
            } else {
                (s.active_providers + 1) as u32
            },
            ..s
        }
    } else {
        GlobalLiquidityStats { total_tvl_usd: clamp_i128(s.total_tvl_usd - amount) as i128, ..s }
    }
}

/// Whether `pool` is a pool that was just opened at time `now` by the
/// manager at `contract_address`.
pub open spec fn is_new_pool(pool: LiquidityPool, contract_address: Address, now: u64) -> bool {
    &&& pool.pool_id@ == DEFAULT_POOL_ID@
    &&& pool.token_a == contract_address
    &&& pool.token_b == contract_address
    &&& pool.reserve_a == 0
    &&& pool.reserve_b == 0
    &&& pool.total_lp_tokens == 0
    &&& pool.current_apy == BASE_APY
    &&& pool.created_at == now
    &&& pool.last_reward_distribution == now
    &&& pool.total_rewards_distributed == 0
    &&& pool.active
}

/// The shares that a deposit of the two amounts earns.
///
/// The first deposit earns the product of the amounts over a million. A
/// later one earns the smaller of the two amounts' shares of the pool. A
/// reserve that is not positive cannot be shared; a product that leaves
/// `i128` is an invalid amount.
pub open spec fn lp_tokens_outcome(pool: LiquidityPool, token_a_amount: i128, token_b_amount: i128) -> Result<
    i128,
    LiquidityError,
> {
    if pool.total_lp_tokens == 0 {
        if !fits_i128(token_a_amount * token_b_amount) {
            Err(LiquidityError::InvalidAmount)
        } else {
            Ok(div_toward_zero(token_a_amount * token_b_amount, 1000000) as i128)
        }
    } else if pool.reserve_a <= 0 || pool.reserve_b <= 0 {
        Err(LiquidityError::InsufficientLiquidity)
    } else if !fits_i128(token_a_amount * pool.total_lp_tokens) || !fits_i128(
        token_b_amount * pool.total_lp_tokens,
    ) {
        Err(LiquidityError::InvalidAmount)
    } else {
        let lp_a = div_toward_zero(token_a_amount * pool.total_lp_tokens, pool.reserve_a as int);
        let lp_b = div_toward_zero(token_b_amount * pool.total_lp_tokens, pool.reserve_b as int);
        if lp_a <= lp_b {
            Ok(lp_a as i128)
        } else {
            Ok(lp_b as i128)
        }
    }
}

/// The amounts of the two tokens that `lp_tokens` shares stand for.
pub open spec fn withdrawal_outcome(pool: LiquidityPool, lp_tokens: i128) -> Result<(i128, i128), LiquidityError> {
    if pool.total_lp_tokens <= 0 {
        Err(LiquidityError::InsufficientLiquidity)
    } else if !fits_i128(lp_tokens * pool.reserve_a) || !fits_i128(lp_tokens * pool.reserve_b) {
        Err(LiquidityError::InvalidAmount)
    } else {
        Ok(
            (
                div_toward_zero(lp_tokens * pool.reserve_a, pool.total_lp_tokens as int) as i128,
                div_toward_zero(lp_tokens * pool.reserve_b, pool.total_lp_tokens as int) as i128,
            ),
        )
    }
}

/// Age of a pool in days, against the reference time.
pub open spec fn pool_age_days(pool: LiquidityPool) -> int {
    if APY_REFERENCE_TIME >= pool.created_at {
        (APY_REFERENCE_TIME - pool.created_at) / 86400
    } else {
        0
    }
}

/// The yield of a pool: the base yield, 100 more over ten thousand millions
/// in the pool and 200 more over a hundred thousand millions, and 50 more
/// for a pool older than thirty days.
pub open spec fn apy_outcome(pool: LiquidityPool) -> Result<u32, LiquidityError> {
    let tvl = pool.reserve_a + pool.reserve_b;
    if !fits_i128(tvl) {
        Err(LiquidityError::RewardCalculationError)
    } else {
        let utilization_bonus: int = if tvl > 1_000_000_000_000 {
            200
        } else if tvl > 100_000_000_000 {
            100
        } else {
            0
        };
        let age_bonus: int = if pool_age_days(pool) > 30 {
            50
        } else {
            0
        };
        Ok((BASE_APY + utilization_bonus + age_bonus) as u32)
    }
}

/// What the initial deposit of a position lost against what is taken out.
pub open spec fn impermanent_loss_outcome(position: LiquidityPosition, withdrawn_a: i128, withdrawn_b: i128) -> Result<
    i128,
    LiquidityError,
> {
    let initial = position.initial_token_a + position.initial_token_b;
    let withdrawn = withdrawn_a + withdrawn_b;
    if !fits_i128(initial) || !fits_i128(withdrawn) || !fits_i128(initial - withdrawn) {
        Err(LiquidityError::InvalidAmount)
    } else if withdrawn < initial {
        Ok((initial - withdrawn) as i128)
    } else {
        Ok(0)
    }
}

/// Whole days between the last claim of a position and `now`.
pub open spec fn days_since_claim(position: LiquidityPosition, now: u64) -> int {
    if now >= position.last_reward_claim {
        (now - position.last_reward_claim) / 86400
    } else {
        0
    }
}

/// The rewards of a position at time `now`: its shares at a 365th of the
/// pool's yield for each whole day since the last claim, of which 60 % are
/// paid in the platform's token, 30 % in shares and 10 % in fees.
pub open spec fn rewards_outcome(position: LiquidityPosition, pool: LiquidityPool, now: u64) -> Result<
    YieldFarmRewards,
    LiquidityError,
> {
    let daily = pool.current_apy as int / 365;
    let days = days_since_claim(position, now);
    if !fits_i128(position.lp_tokens * daily) || !fits_i128(position.lp_tokens * daily * days) {
        Err(LiquidityError::RewardCalculationError)
    } else {
        let base = div_toward_zero(position.lp_tokens * daily * days, 10000);
        if !fits_i128(base * 60) {
            Err(LiquidityError::RewardCalculationError)
        } else {
            Ok(
                YieldFarmRewards {
                    swave_rewards: div_toward_zero(base * 60, 100) as i128,
                    lp_rewards: div_toward_zero(base * 30, 100) as i128,
                    fee_rewards: div_toward_zero(base * 10, 100) as i128,
                    total_value_usd: base as i128,
                    effective_apy: pool.current_apy,
                    period_start: position.last_reward_claim,
                    period_end: now,
                },
            )
        }
    }
}

/// The liquidity manager.
pub struct UltimateLiquidityContract {
    /// The manager's own address.
    pub contract_address: Address,
    pub admin: Option<Address>,
    pub stats: Option<GlobalLiquidityStats>,
    /// Pools by their identifier.
    pub pools: StringHashMap<LiquidityPool>,
    /// Positions in the default pool, by the provider's identifier.
    pub positions: HashMap<u64, LiquidityPosition>,
}

/// What a successful deposit computed.
pub struct Deposit {
    pub pool: LiquidityPool,
    pub lp_tokens: i128,
    pub total: i128,
}

impl UltimateLiquidityContract {
    /// A manager at `contract_address` that has not been set up.
    pub fn new(contract_address: Address) -> (c: Self)
        ensures
            c.contract_address == contract_address,
            c.admin is None,
            c.stats is None,
            c.pools@ == Map::<Seq<char>, LiquidityPool>::empty(),
            c.positions@ == Map::<u64, LiquidityPosition>::empty(),
    {
        UltimateLiquidityContract {
            contract_address,
            admin: None,
            stats: None,
            pools: StringHashMap::new(),
            positions: HashMap::new(),
        }
    }

    /// Sets the administrator and starts the totals at zero.
    pub fn initialize(&mut self, admin: Address) -> (r: Result<(), LiquidityError>)
        ensures
            r is Ok,
            final(self).admin == Some(admin),
            final(self).stats == Some(empty_stats()),
            final(self).contract_address == old(self).contract_address,
            final(self).pools == old(self).pools,
            final(self).positions == old(self).positions,
    {
        self.admin = Some(admin);
        self.stats = Some(
            GlobalLiquidityStats {
                total_tvl_usd: 0,
                total_pools: 0,
                active_providers: 0,
                total_rewards_distributed: 0,
                average_apy: BASE_APY,
            },
        );
        Ok(())
    }

    /// The shares that a deposit earns, as [`lp_tokens_outcome`] states.
    pub fn calculate_lp_tokens(pool: &LiquidityPool, token_a_amount: i128, token_b_amount: i128) -> (r:
        Result<i128, LiquidityError>)
        ensures
            r == lp_tokens_outcome(*pool, token_a_amount, token_b_amount),
    {
        if pool.total_lp_tokens == 0 {
            match token_a_amount.checked_mul(token_b_amount) {
                Some(product) => Ok(product / 1000000),
                None => Err(LiquidityError::InvalidAmount),
            }
        } else {
            if pool.reserve_a <= 0 || pool.reserve_b <= 0 {
                return Err(LiquidityError::InsufficientLiquidity);
            }
            let share_a: i128 = match token_a_amount.checked_mul(pool.total_lp_tokens) {
                Some(p) => p,
                None => {
                    return Err(LiquidityError::InvalidAmount);
                },
            };
            let share_b: i128 = match token_b_amount.checked_mul(pool.total_lp_tokens) {
                Some(p) => p,
                None => {
                    return Err(LiquidityError::InvalidAmount);
                },
            };
            let lp_a: i128 = share_a / pool.reserve_a;
            let lp_b: i128 = share_b / pool.reserve_b;
            if lp_a <= lp_b {
                Ok(lp_a)
            } else {
                Ok(lp_b)
            }
        }
    }

    /// The amounts that `lp_tokens` shares stand for, as
    /// [`withdrawal_outcome`] states.
    pub fn calculate_withdrawal_amounts(pool: &LiquidityPool, lp_tokens: i128) -> (r: Result<
        (i128, i128),
        LiquidityError,
    >)
        ensures
            r == withdrawal_outcome(*pool, lp_tokens),
    {
        if pool.total_lp_tokens <= 0 {
            return Err(LiquidityError::InsufficientLiquidity);
        }
        let part_a: i128 = match lp_tokens.checked_mul(pool.reserve_a) {
            Some(p) => p,
            None => {
                return Err(LiquidityError::InvalidAmount);
            },
        };
        let part_b: i128 = match lp_tokens.checked_mul(pool.reserve_b) {
            Some(p) => p,
            None => {
                return Err(LiquidityError::InvalidAmount);
            },
        };
        Ok((part_a / pool.total_lp_tokens, part_b / pool.total_lp_tokens))
    }

    /// The yield of a pool, as [`apy_outcome`] states.
    pub fn calculate_dynamic_apy(pool: &LiquidityPool) -> (r: Result<u32, LiquidityError>)
        ensures
            r == apy_outcome(*pool),
            r matches Ok(apy) ==> BASE_APY <= apy <= 750,
    {
        let tvl: i128 = match pool.reserve_a.checked_add(pool.reserve_b) {
            Some(t) => t,
            None => {
                return Err(LiquidityError::RewardCalculationError);
            },
        };
        let utilization_bonus: u32 = if tvl > 1_000_000_000_000 {
            200
        } else if tvl > 100_000_000_000 {
            100
        } else {
            0
        };
        let pool_age_days: u64 = APY_REFERENCE_TIME.saturating_sub(pool.created_at) / 86400;
        let age_bonus: u32 = if pool_age_days > 30 {
            50
        } else {
            0
        };
        let total_apy: u32 = BASE_APY + utilization_bonus + age_bonus;
        if total_apy > MAX_APY {
            Ok(MAX_APY)
        } else {
            Ok(total_apy)
        }
    }

    /// What a position lost, as [`impermanent_loss_outcome`] states.
    pub fn calculate_impermanent_loss(position: &LiquidityPosition, withdrawn_a: i128, withdrawn_b: i128) -> (r:
        Result<i128, LiquidityError>)
        ensures
            r == impermanent_loss_outcome(*position, withdrawn_a, withdrawn_b),
    {
        let initial_value: i128 = match position.initial_token_a.checked_add(position.initial_token_b) {
            Some(v) => v,
            None => {
                return Err(LiquidityError::InvalidAmount);
            },
        };
        let withdrawn_value: i128 = match withdrawn_a.checked_add(withdrawn_b) {
            Some(v) => v,
            None => {
                return Err(LiquidityError::InvalidAmount);
            },
        };
        let loss: i128 = match initial_value.checked_sub(withdrawn_value) {
            Some(v) => v,
            None => {
                return Err(LiquidityError::InvalidAmount);
            },
        };
        if withdrawn_value < initial_value {
            Ok(loss)
        } else {
            Ok(0)
        }
    }

    /// The rewards of `position` in `pool` at time `now`, as
    /// [`rewards_outcome`] states.
    pub fn rewards_for(position: &LiquidityPosition, pool: &LiquidityPool, now: u64) -> (r: Result<
        YieldFarmRewards,
        LiquidityError,
    >)
        ensures
            r == rewards_outcome(*position, *pool, now),
    {
        let time_elapsed: u64 = now.saturating_sub(position.last_reward_claim);
        let days_elapsed: u64 = time_elapsed / 86400;
        let annual_reward_rate: i128 = pool.current_apy as i128;
        let daily_reward_rate: i128 = annual_reward_rate / 365;
        let per_day: i128 = match position.lp_tokens.checked_mul(daily_reward_rate) {
            Some(p) => p,
            None => {
                return Err(LiquidityError::RewardCalculationError);
            },
        };
        let scaled: i128 = match per_day.checked_mul(days_elapsed as i128) {
            Some(p) => p,
            None => {
                return Err(LiquidityError::RewardCalculationError);
            },
        };
        let base_rewards: i128 = scaled / 10000;
        let sixty: i128 = match base_rewards.checked_mul(60) {
            Some(p) => p,
            None => {
                return Err(LiquidityError::RewardCalculationError);
            },
        };
        proof {
            lemma_parts_fit(base_rewards as int);
        }
        Ok(
            YieldFarmRewards {
                swave_rewards: sixty / 100,
                lp_rewards: (base_rewards * 30) / 100,
                fee_rewards: (base_rewards * 10) / 100,
                total_value_usd: base_rewards,
                effective_apy: pool.current_apy,
                period_start: position.last_reward_claim,
                period_end: now,
            },
        )
    }

    /// The rewards of `position` at time `now`, at the yield of the default
    /// pool. Fails while there is no default pool.
    pub fn calculate_yield_rewards(&self, position: &LiquidityPosition, now: u64) -> (r: Result<
        YieldFarmRewards,
        LiquidityError,
    >)
        ensures
            !self.pools@.contains_key(DEFAULT_POOL_ID@) ==> r == Err::<
                YieldFarmRewards,
                LiquidityError,
            >(LiquidityError::PoolNotFound),
            self.pools@.contains_key(DEFAULT_POOL_ID@) ==> r == rewards_outcome(
                *position,
                self.pools@[DEFAULT_POOL_ID@],
                now,
            ),
    {
        match self.pools.get(DEFAULT_POOL_ID) {
            Some(pool) => Self::rewards_for(position, pool, now),
            None => Err(LiquidityError::PoolNotFound),
        }
    }

    /// The default pool: the one that is kept, or one that is opened at
    /// time `now`.
    pub fn get_or_create_pool(&self, now: u64) -> (r: Result<LiquidityPool, LiquidityError>)
        ensures
            r is Ok,
            self.pools@.contains_key(DEFAULT_POOL_ID@) ==> r->Ok_0 == self.pools@[DEFAULT_POOL_ID@],
            !self.pools@.contains_key(DEFAULT_POOL_ID@) ==> is_new_pool(
                r->Ok_0,
                self.contract_address,
                now,
            ),
    {
        match self.pools.get(DEFAULT_POOL_ID) {
            Some(pool) => Ok(pool.clone()),
            None => Ok(
                LiquidityPool {
                    pool_id: DEFAULT_POOL_ID.to_owned(),
                    token_a: self.contract_address,
                    token_b: self.contract_address,
                    reserve_a: 0,
                    reserve_b: 0,
                    total_lp_tokens: 0,
                    current_apy: BASE_APY,
                    created_at: now,
                    last_reward_distribution: now,
                    total_rewards_distributed: 0,
                    active: true,
                },
            ),
        }
    }

    /// Adds `lp_tokens` shares to the position of `provider` in the default
    /// pool, or opens the position with the two amounts as its initial
    /// deposit.
    pub fn update_liquidity_position(
        &mut self,
        provider: Address,
        lp_tokens: i128,
        token_a: i128,
        token_b: i128,
        now: u64,
    ) -> (r: Result<(), LiquidityError>)
        ensures
            r is Ok,
            final(self).positions@.dom() == old(self).positions@.dom().insert(provider.id),
            forall|id: u64|
                id != provider.id && old(self).positions@.contains_key(id) ==> final(self).positions@[id] == old(self).positions@[id],
            old(self).positions@.contains_key(provider.id) ==> final(self).positions@[provider.id]
                == (LiquidityPosition {
                lp_tokens: clamp_i128(old(self).positions@[provider.id].lp_tokens + lp_tokens) as i128,
                ..old(self).positions@[provider.id]
            }),
            !old(self).positions@.contains_key(provider.id) ==> is_new_position(
                final(self).positions@[provider.id],
                provider,
                lp_tokens,
                token_a,
                token_b,
                now,
            ),
            final(self).contract_address == old(self).contract_address,
            final(self).admin == old(self).admin,
            final(self).stats == old(self).stats,
            final(self).pools == old(self).pools,
    {
        let position = match self.positions.remove(&provider.id) {
            Some(existing) => {
                let mut position = existing;
                position.lp_tokens = saturating_add_i128(position.lp_tokens, lp_tokens);
                position
            },
            None => LiquidityPosition {
                provider,
                pool_id: DEFAULT_POOL_ID.to_owned(),
                lp_tokens,
                deposited_at: now,
                initial_token_a: token_a,
                initial_token_b: token_b,
                accumulated_rewards: 0,
                last_reward_claim: now,
                impermanent_loss: 0,
            },
        };
        self.positions.insert(provider.id, position);
        proof {
            assert(self.positions@.dom() =~= old(self).positions@.dom().insert(provider.id));
        }
        Ok(())
    }

    /// Records in the totals that `amount` was added (`is_addition`) or
    /// taken out.
    pub fn update_global_stats(&mut self, amount: i128, is_addition: bool) -> (r: Result<(), LiquidityError>)
        ensures
            r is Ok,
            final(self).stats == Some(stats_after(old(self).stats, amount, is_addition)),
            final(self).contract_address == old(self).contract_address,
            final(self).admin == old(self).admin,
            final(self).pools == old(self).pools,
            final(self).positions == old(self).positions,
    {
        let mut stats = match self.stats {
            Some(s) => s,
            None => GlobalLiquidityStats {
                total_tvl_usd: 0,
                total_pools: 0,
                active_providers: 0,
                total_rewards_distributed: 0,
                average_apy: BASE_APY,
            },
        };
        if is_addition {
            stats.total_tvl_usd = saturating_add_i128(stats.total_tvl_usd, amount);
            stats.active_providers = stats.active_providers.saturating_add(1);
        } else {
            stats.total_tvl_usd = saturating_sub_i128(stats.total_tvl_usd, amount);
        }
        self.stats = Some(stats);
        Ok(())
    }

    /// Works out a deposit of the two amounts into the default pool at time
    /// `now`, without changing anything.
    pub fn plan_deposit(&self, token_a_amount: i128, token_b_amount: i128, now: u64) -> (r: Result<
        Deposit,
        LiquidityError,
    >)
        ensures
            forall|base: LiquidityPool| #[trigger]
                self.is_base_pool(base, now) ==> {
                    &&& r is Err <==> deposit_rejection(base, token_a_amount, token_b_amount) is Some
                    &&& r matches Err(e) ==> Some(e) == deposit_rejection(
                        base,
                        token_a_amount,
                        token_b_amount,
                    )
                },
            r matches Ok(d) ==> {
                &&& token_a_amount >= MIN_LIQUIDITY_AMOUNT
                &&& token_b_amount >= MIN_LIQUIDITY_AMOUNT
                &&& d.total == token_a_amount + token_b_amount
                &&& exists|base: LiquidityPool| #[trigger]
                    self.is_base_pool(base, now) && lp_tokens_outcome(
                        base,
                        token_a_amount,
                        token_b_amount,
                    ) == Ok::<i128, LiquidityError>(d.lp_tokens) && deposited(
                        base,
                        d.pool,
                        token_a_amount,
                        token_b_amount,
                        d.lp_tokens,
                    )
            },
    {
        if token_a_amount < MIN_LIQUIDITY_AMOUNT || token_b_amount < MIN_LIQUIDITY_AMOUNT {
            return Err(LiquidityError::InvalidAmount);
        }
        let total: i128 = match token_a_amount.checked_add(token_b_amount) {
            Some(t) => t,
            None => {
                return Err(LiquidityError::InvalidAmount);
            },
        };
        let mut pool = match self.get_or_create_pool(now) {
            Ok(p) => p,
            Err(e) => {
                return Err(e);
            },
        };
        let ghost base = pool;
        let lp_tokens: i128 = match Self::calculate_lp_tokens(&pool, token_a_amount, token_b_amount) {
            Ok(l) => l,
            Err(e) => {
                return Err(e);
            },
        };
        pool.reserve_a = saturating_add_i128(pool.reserve_a, token_a_amount);
        pool.reserve_b = saturating_add_i128(pool.reserve_b, token_b_amount);
        pool.total_lp_tokens = saturating_add_i128(pool.total_lp_tokens, lp_tokens);
        pool.current_apy = match Self::calculate_dynamic_apy(&pool) {
            Ok(a) => a,
            Err(e) => {
                return Err(e);
            },
        };
        proof {
            assert(self.is_base_pool(base, now));
        }
        Ok(Deposit { pool, lp_tokens, total })
    }

    /// Whether `base` is the default pool as a deposit at time `now` finds
    /// it: the one that is kept, or one that is opened then.
    pub open spec fn is_base_pool(&self, base: LiquidityPool, now: u64) -> bool {
        if self.pools@.contains_key(DEFAULT_POOL_ID@) {
            base == self.pools@[DEFAULT_POOL_ID@]
        } else {
            is_new_pool(base, self.contract_address, now)
        }
    }

    /// Adds the two amounts to the default pool for `provider` and returns
    /// the shares that the deposit earns.
    ///
    /// The deposit is refused for the reasons that [`deposit_rejection`]
    /// gives, taken against the default pool as it is kept, or as it is
    /// opened at time `now` where none is kept. Else the pool's reserves
    /// and shares grow, its yield is set anew, and it is kept under
    /// `pool_id`. The provider's position in the default pool grows by the
    /// shares, and the totals count the deposit. On an error nothing
    /// changes.
    pub fn add_liquidity(
        &mut self,
        provider: Address,
        pool_id: String,
        token_a_amount: i128,
        token_b_amount: i128,
        now: u64,
    ) -> (r: Result<i128, LiquidityError>)
        ensures
            forall|base: LiquidityPool| #[trigger]
                old(self).is_base_pool(base, now) ==> {
                    &&& r is Err <==> deposit_rejection(base, token_a_amount, token_b_amount) is Some
                    &&& r matches Err(e) ==> Some(e) == deposit_rejection(
                        base,
                        token_a_amount,
                        token_b_amount,
                    )
                },
            r is Err ==> *final(self) == *old(self),
            r matches Ok(lp_tokens) ==> {
                &&& exists|base: LiquidityPool| #[trigger]
                    old(self).is_base_pool(base, now) && lp_tokens_outcome(
                        base,
                        token_a_amount,
                        token_b_amount,
                    ) == Ok::<i128, LiquidityError>(lp_tokens) && deposited(
                        base,
                        final(self).pools@[pool_id@],
                        token_a_amount,
                        token_b_amount,
                        lp_tokens,
                    )
                &&& final(self).pools@.dom() == old(self).pools@.dom().insert(pool_id@)
                &&& forall|other: Seq<char>|
                    other != pool_id@ && old(self).pools@.contains_key(other) ==> final(self).pools@[other] == old(self).pools@[other]
                &&& final(self).positions@.contains_key(provider.id)
                &&& old(self).positions@.contains_key(provider.id) ==> final(self).positions@[provider.id].lp_tokens == clamp_i128(
                    old(self).positions@[provider.id].lp_tokens + lp_tokens,
                )
                &&& !old(self).positions@.contains_key(provider.id) ==> is_new_position(
                    final(self).positions@[provider.id],
                    provider,
                    lp_tokens,
                    token_a_amount,
                    token_b_amount,
                    now,
                )
                &&& final(self).stats == Some(
                    stats_after(old(self).stats, (token_a_amount + token_b_amount) as i128, true),
                )
                &&& final(self).contract_address == old(self).contract_address
                &&& final(self).admin == old(self).admin
            },
    {
        let deposit = match self.plan_deposit(token_a_amount, token_b_amount, now) {
            Ok(d) => d,
            Err(e) => {
                return Err(e);
            },
        };
        let lp_tokens: i128 = deposit.lp_tokens;
        let total: i128 = deposit.total;
        self.pools.insert(pool_id, deposit.pool);
        let _ = self.update_liquidity_position(provider, lp_tokens, token_a_amount, token_b_amount, now);
        let _ = self.update_global_stats(total, true);
        proof {
            assert(self.pools@.dom() =~= old(self).pools@.dom().insert(pool_id@));
        }
        Ok(lp_tokens)
    }

    /// The position of `provider` in the pool `pool_id`. Positions are kept
    /// for the default pool only.
    fn position_in(&self, provider: Address, pool_id: &str) -> (r: Option<&LiquidityPosition>)
        ensures
            match r {
                Some(p) => self.has_position(provider, pool_id@) && *p == self.positions@[provider.id],
                None => !self.has_position(provider, pool_id@),
            },
    {
        if !crate::oracle::str_eq(pool_id, DEFAULT_POOL_ID) {
            return None;
        }
        self.positions.get(&provider.id)
    }

    /// Whether `provider` has a position in the pool `pool_id`.
    pub open spec fn has_position(&self, provider: Address, pool_id: Seq<char>) -> bool {
        pool_id == DEFAULT_POOL_ID@ && self.positions@.contains_key(provider.id)
    }

    /// Why taking `lp_tokens` shares out of the pool is refused, if it is.
    pub open spec fn removal_rejection(&self, provider: Address, pool_id: Seq<char>, lp_tokens: i128) -> Option<
        LiquidityError,
    > {
        if !self.pools@.contains_key(pool_id) {
            Some(LiquidityError::PoolNotFound)
        } else if !self.has_position(provider, pool_id) {
            Some(LiquidityError::InsufficientLiquidity)
        } else if lp_tokens > self.positions@[provider.id].lp_tokens {
            Some(LiquidityError::InsufficientLiquidity)
        } else {
            match withdrawal_outcome(self.pools@[pool_id], lp_tokens) {
                Err(e) => Some(e),
                Ok((a, b)) => if !fits_i128(a + b) {
                    Some(LiquidityError::InvalidAmount)
                } else {
                    match impermanent_loss_outcome(self.positions@[provider.id], a, b) {
                        Err(e) => Some(e),
                        Ok(_) => None,
                    }
                },
            }
        }
    }

    /// Takes `lp_tokens` shares of `provider` out of the pool `pool_id` and
    /// returns the amounts of the two tokens that they stand for.
    ///
    /// The provider has to hold the shares. The pool's reserves and shares
    /// shrink, the position gives up the shares and records what its
    /// initial deposit lost, and the totals count the withdrawal. On an
    /// error nothing changes.
    pub fn remove_liquidity(&mut self, provider: Address, pool_id: &str, lp_tokens: i128) -> (r: Result<
        (i128, i128),
        LiquidityError,
    >)
        ensures
            r is Err <==> old(self).removal_rejection(provider, pool_id@, lp_tokens) is Some,
            r matches Err(e) ==> {
                &&& Some(e) == old(self).removal_rejection(provider, pool_id@, lp_tokens)
                &&& *final(self) == *old(self)
            },
            r matches Ok(amounts) ==> {
                let pool = old(self).pools@[pool_id@];
                let position = old(self).positions@[provider.id];
                &&& Ok::<(i128, i128), LiquidityError>(amounts) == withdrawal_outcome(pool, lp_tokens)
                &&& final(self).pools@ == old(self).pools@.insert(
                    pool_id@,
                    LiquidityPool {
                        reserve_a: clamp_i128(pool.reserve_a - amounts.0) as i128,
                        reserve_b: clamp_i128(pool.reserve_b - amounts.1) as i128,
                        total_lp_tokens: clamp_i128(pool.total_lp_tokens - lp_tokens) as i128,
                        ..pool
                    },
                )
                &&& final(self).positions@ == old(self).positions@.insert(
                    provider.id,
                    LiquidityPosition {
                        lp_tokens: clamp_i128(position.lp_tokens - lp_tokens) as i128,
                        impermanent_loss: clamp_i128(
                            position.impermanent_loss + impermanent_loss_outcome(
                                position,
                                amounts.0,
                                amounts.1,
                            )->Ok_0,
                        ) as i128,
                        ..position
                    },
                )
                &&& final(self).stats == Some(
                    stats_after(old(self).stats, (amounts.0 + amounts.1) as i128, false),
                )
                &&& final(self).contract_address == old(self).contract_address
                &&& final(self).admin == old(self).admin
            },
    {
        let mut pool = match self.pools.get(pool_id) {
            Some(p) => p.clone(),
            None => {
                return Err(LiquidityError::PoolNotFound);
            },
        };
        let mut position = match self.position_in(provider, pool_id) {
            Some(p) => p.clone(),
            None => {
                return Err(LiquidityError::InsufficientLiquidity);
            },
        };
        if lp_tokens > position.lp_tokens {
            return Err(LiquidityError::InsufficientLiquidity);
        }
        let (token_a_amount, token_b_amount) = match Self::calculate_withdrawal_amounts(
            &pool,
            lp_tokens,
        ) {
            Ok(amounts) => amounts,
            Err(e) => {
                return Err(e);
            },
        };
        let total: i128 = match token_a_amount.checked_add(token_b_amount) {
            Some(t) => t,
            None => {
                return Err(LiquidityError::InvalidAmount);
            },
        };
        let impermanent_loss: i128 = match Self::calculate_impermanent_loss(
            &position,
            token_a_amount,
            token_b_amount,
        ) {
            Ok(l) => l,
            Err(e) => {
                return Err(e);
            },
        };
        pool.reserve_a = saturating_sub_i128(pool.reserve_a, token_a_amount);
        pool.reserve_b = saturating_sub_i128(pool.reserve_b, token_b_amount);
        pool.total_lp_tokens = saturating_sub_i128(pool.total_lp_tokens, lp_tokens);
        position.lp_tokens = saturating_sub_i128(position.lp_tokens, lp_tokens);
        position.impermanent_loss = saturating_add_i128(position.impermanent_loss, impermanent_loss);
        self.pools.insert(pool_id.to_owned(), pool);
        self.positions.insert(provider.id, position);
        let _ = self.update_global_stats(total, false);
        Ok((token_a_amount, token_b_amount))
    }

    /// Works out the rewards of `provider` in the pool `pool_id` at time
    /// `now`, adds what is paid in the platform's token to the position, and
    /// starts a new period. On an error nothing changes.
    pub fn claim_rewards(&mut self, provider: Address, pool_id: &str, now: u64) -> (r: Result<
        YieldFarmRewards,
        LiquidityError,
    >)
        ensures
            !old(self).has_position(provider, pool_id@) ==> r == Err::<
                YieldFarmRewards,
                LiquidityError,
            >(LiquidityError::InsufficientLiquidity),
            old(self).has_position(provider, pool_id@) && !old(self).pools@.contains_key(
                DEFAULT_POOL_ID@,
            ) ==> r == Err::<YieldFarmRewards, LiquidityError>(LiquidityError::PoolNotFound),
            old(self).has_position(provider, pool_id@) && old(self).pools@.contains_key(
                DEFAULT_POOL_ID@,
            ) ==> r == rewards_outcome(
                old(self).positions@[provider.id],
                old(self).pools@[DEFAULT_POOL_ID@],
                now,
            ),
            r is Err ==> *final(self) == *old(self),
            r matches Ok(rewards) ==> {
                let position = old(self).positions@[provider.id];
                &&& final(self).positions@ == old(self).positions@.insert(
                    provider.id,
                    LiquidityPosition {
                        accumulated_rewards: clamp_i128(
                            position.accumulated_rewards + rewards.swave_rewards,
                        ) as i128,
                        last_reward_claim: now,
                        ..position
                    },
                )
                &&& final(self).pools == old(self).pools
                &&& final(self).stats == old(self).stats
                &&& final(self).contract_address == old(self).contract_address
                &&& final(self).admin == old(self).admin
            },
    {
        let mut position = match self.position_in(provider, pool_id) {
            Some(p) => p.clone(),
            None => {
                return Err(LiquidityError::InsufficientLiquidity);
            },
        };
        let rewards = match self.calculate_yield_rewards(&position, now) {
            Ok(r) => r,
            Err(e) => {
                return Err(e);
            },
        };
        position.accumulated_rewards = saturating_add_i128(
            position.accumulated_rewards,
            rewards.swave_rewards,
        );
        position.last_reward_claim = now;
        self.positions.insert(provider.id, position);
        Ok(rewards)
    }

    /// The pool that is kept under `pool_id`.
    pub fn get_pool(&self, pool_id: &str) -> (r: Result<LiquidityPool, LiquidityError>)
        ensures
            self.pools@.contains_key(pool_id@) ==> r == Ok::<LiquidityPool, LiquidityError>(
                self.pools@[pool_id@],
            ),
            !self.pools@.contains_key(pool_id@) ==> r == Err::<LiquidityPool, LiquidityError>(
                LiquidityError::PoolNotFound,
            ),
    {
        match self.pools.get(pool_id) {
            Some(pool) => Ok(pool.clone()),
            None => Err(LiquidityError::PoolNotFound),
        }
    }

    /// The position of `provider` in the pool `pool_id`.
    pub fn get_position(&self, provider: Address, pool_id: &str) -> (r: Result<
        LiquidityPosition,
        LiquidityError,
    >)
        ensures
            self.has_position(provider, pool_id@) ==> r == Ok::<LiquidityPosition, LiquidityError>(
                self.positions@[provider.id],
            ),
            !self.has_position(provider, pool_id@) ==> r == Err::<
                LiquidityPosition,
                LiquidityError,
            >(LiquidityError::InsufficientLiquidity),
    {
        match self.position_in(provider, pool_id) {
            Some(position) => Ok(position.clone()),
            None => Err(LiquidityError::InsufficientLiquidity),
        }
    }

    /// The running totals; zero before anything was recorded.
    pub fn get_global_stats(&self) -> (r: Result<GlobalLiquidityStats, LiquidityError>)
        ensures
            r == Ok::<GlobalLiquidityStats, LiquidityError>(
                match self.stats {
                    Some(s) => s,
                    None => empty_stats(),
                },
            ),
    {
        match self.stats {
            Some(s) => Ok(s),
            None => Ok(
                GlobalLiquidityStats {
                    total_tvl_usd: 0,
                    total_pools: 0,
                    active_providers: 0,
                    total_rewards_distributed: 0,
                    average_apy: BASE_APY,
                },
            ),
        }
    }
}

/// The pool `base` with the two amounts and the shares they earned added.
pub open spec fn grown(
    base: LiquidityPool,
    token_a_amount: i128,
    token_b_amount: i128,
    lp_tokens: i128,
) -> LiquidityPool {
    LiquidityPool {
        reserve_a: clamp_i128(base.reserve_a + token_a_amount) as i128,
        reserve_b: clamp_i128(base.reserve_b + token_b_amount) as i128,
        total_lp_tokens: clamp_i128(base.total_lp_tokens + lp_tokens) as i128,
        ..base
    }
}

/// Why a deposit of the two amounts into the pool `base` is refused, if it
/// is: an amount under the smallest one, a sum of the amounts that leaves
/// `i128`, shares that cannot be worked out, or a yield that cannot.
pub open spec fn deposit_rejection(
    base: LiquidityPool,
    token_a_amount: i128,
    token_b_amount: i128,
) -> Option<LiquidityError> {
    if token_a_amount < MIN_LIQUIDITY_AMOUNT || token_b_amount < MIN_LIQUIDITY_AMOUNT {
        Some(LiquidityError::InvalidAmount)
    } else if !fits_i128(token_a_amount + token_b_amount) {
        Some(LiquidityError::InvalidAmount)
    } else {
        match lp_tokens_outcome(base, token_a_amount, token_b_amount) {
            Err(e) => Some(e),
            Ok(lp_tokens) => match apy_outcome(grown(base, token_a_amount, token_b_amount, lp_tokens)) {
                Err(e) => Some(e),
                Ok(_) => None,
            },
        }
    }
}

/// Whether `after` is the pool `base` after a deposit of the two amounts
/// that earned `lp_tokens` shares: reserves and shares have grown, and the
/// yield is the one of the grown pool.
pub open spec fn deposited(
    base: LiquidityPool,
    after: LiquidityPool,
    token_a_amount: i128,
    token_b_amount: i128,
    lp_tokens: i128,
) -> bool {
    let grown = grown(base, token_a_amount, token_b_amount, lp_tokens);
    &&& apy_outcome(grown) is Ok
    &&& after == (LiquidityPool { current_apy: apy_outcome(grown)->Ok_0, ..grown })
}

/// Whether `position` is a position that `provider` just opened at time
/// `now` in the default pool.
pub open spec fn is_new_position(
    position: LiquidityPosition,
    provider: Address,
    lp_tokens: i128,
    token_a: i128,
    token_b: i128,
    now: u64,
) -> bool {
    &&& position.provider == provider
    &&& position.pool_id@ == DEFAULT_POOL_ID@
    &&& position.lp_tokens == lp_tokens
    &&& position.deposited_at == now
    &&& position.initial_token_a == token_a
    &&& position.initial_token_b == token_b
    &&& position.accumulated_rewards == 0
    &&& position.last_reward_claim == now
    &&& position.impermanent_loss == 0
}

/// Where sixty times a value fits an `i128`, so do thirty and ten times it.
pub proof fn lemma_parts_fit(base: int)
    requires
        fits_i128(base * 60),
    ensures
        fits_i128(base * 30),
        fits_i128(base * 10),
        fits_i128(base),
{
}

/// Shares that stand for the whole pool stand for the whole of both
/// reserves, and no shares stand for nothing.
pub proof fn lemma_withdrawal_in_proportion(pool: LiquidityPool)
    requires
        pool.total_lp_tokens > 0,
        withdrawal_outcome(pool, pool.total_lp_tokens) is Ok,
        pool.reserve_a >= 0,
        pool.reserve_b >= 0,
    ensures
        withdrawal_outcome(pool, pool.total_lp_tokens) == Ok::<(i128, i128), LiquidityError>(
            (pool.reserve_a, pool.reserve_b),
        ),
        withdrawal_outcome(pool, 0) == Ok::<(i128, i128), LiquidityError>((0, 0)),
{
    let t = pool.total_lp_tokens as int;
    let a = pool.reserve_a as int;
    let b = pool.reserve_b as int;
    assert(t * a >= 0 && (t * a) / t == a) by (nonlinear_arith)
        requires
            t > 0,
            a >= 0,
    ;
    assert(t * b >= 0 && (t * b) / t == b) by (nonlinear_arith)
        requires
            t > 0,
            b >= 0,
    ;
    assert(0 * a == 0 && 0 * b == 0);
    assert(0int / t == 0) by (nonlinear_arith)
        requires
            t > 0,
    ;
}

} // verus!
