//! Tests of the liquidity manager.

use swave::liquidity::{
    GlobalLiquidityStats, LiquidityError, LiquidityPool, UltimateLiquidityContract, YieldFarmRewards,
};
use swave::types::Address;

const NOW: u64 = 1_700_000_000;
const DAY: u64 = 86400;

struct TestContext {
    admin: Address,
    user1: Address,
    user2: Address,
    manager_address: Address,
}

impl TestContext {
    fn new() -> Self {
        TestContext {
            admin: Address::new(1),
            user1: Address::new(11),
            user2: Address::new(12),
            manager_address: Address::new(400),
        }
    }

    fn manager(&self) -> UltimateLiquidityContract {
        let mut manager = UltimateLiquidityContract::new(self.manager_address);
        assert_eq!(manager.initialize(self.admin), Ok(()));
        manager
    }
}

fn pool(reserve_a: i128, reserve_b: i128, total_lp_tokens: i128, created_at: u64) -> LiquidityPool {
    LiquidityPool {
        pool_id: "XLM_USDC".to_string(),
        token_a: Address::new(400),
        token_b: Address::new(400),
        reserve_a,
        reserve_b,
        total_lp_tokens,
        current_apy: 500,
        created_at,
        last_reward_distribution: created_at,
        total_rewards_distributed: 0,
        active: true,
    }
}

#[test]
fn test_yield_pool_creation() {
    let ctx = TestContext::new();
    let mut manager = ctx.manager();
    let fresh = manager.get_or_create_pool(NOW).unwrap();
    let missing = manager.get_pool("XLM_USDC");
    manager.add_liquidity(ctx.user1, "XLM_USDC".to_string(), 2_000_000, 3_000_000, NOW + 1).unwrap();
    let kept = manager.get_or_create_pool(NOW + 2).unwrap();
    assert!(
        fresh == pool(0, 0, 0, NOW) && missing == Err(LiquidityError::PoolNotFound)
            && kept == pool(2_000_000, 3_000_000, 6_000_000, NOW + 1)
            && manager.get_pool("XLM_USDC") == Ok(kept),
        "Yield pool creation should work correctly"
    );
}

#[test]
fn test_liquidity_staking() {
    let ctx = TestContext::new();
    let mut manager = ctx.manager();
    let first = manager.add_liquidity(ctx.user1, "XLM_USDC".to_string(), 2_000_000, 3_000_000, NOW);
    let second = manager.add_liquidity(ctx.user1, "XLM_USDC".to_string(), 1_000_000, 3_000_000, NOW + 5);
    let position = manager.get_position(ctx.user1, "XLM_USDC").unwrap();
    let stats = manager.get_global_stats().unwrap();
    assert!(
        first == Ok(6_000_000) && second == Ok(3_000_000) && position.lp_tokens == 9_000_000
            && position.initial_token_a == 2_000_000 && position.initial_token_b == 3_000_000
            && position.deposited_at == NOW && position.last_reward_claim == NOW
            && position.provider == ctx.user1 && position.pool_id == "XLM_USDC"
            && manager.get_pool("XLM_USDC").unwrap() == pool(3_000_000, 6_000_000, 9_000_000, NOW)
            && stats.total_tvl_usd == 9_000_000 && stats.active_providers == 2
            && manager.add_liquidity(ctx.user2, "XLM_USDC".to_string(), 999_999, 3_000_000, NOW)
                == Err(LiquidityError::InvalidAmount)
            && manager.add_liquidity(ctx.user2, "XLM_USDC".to_string(), 3_000_000, 999_999, NOW)
                == Err(LiquidityError::InvalidAmount)
            && manager.add_liquidity(ctx.user2, "XLM_USDC".to_string(), i128::MAX, i128::MAX, NOW)
                == Err(LiquidityError::InvalidAmount)
            && manager.get_position(ctx.user2, "XLM_USDC") == Err(LiquidityError::InsufficientLiquidity),
        "Liquidity staking should work correctly"
    );
}

#[test]
fn test_reward_calculation() {
    let ctx = TestContext::new();
    let mut manager = ctx.manager();
    manager.add_liquidity(ctx.user1, "XLM_USDC".to_string(), 2_000_000, 3_000_000, NOW).unwrap();
    let position = manager.get_position(ctx.user1, "XLM_USDC").unwrap();
    let ten_days = manager.calculate_yield_rewards(&position, NOW + 10 * DAY + 5);
    let no_day = manager.calculate_yield_rewards(&position, NOW + DAY - 1).unwrap();
    let mut rich = pool(1, 1, 1, NOW);
    rich.current_apy = 3650;
    let mut whale = position.clone();
    whale.lp_tokens = i128::MAX;
    assert!(
        ten_days
            == Ok(YieldFarmRewards {
                swave_rewards: 3_600,
                lp_rewards: 1_800,
                fee_rewards: 600,
                total_value_usd: 6_000,
                effective_apy: 500,
                period_start: NOW,
                period_end: NOW + 10 * DAY + 5,
            })
            && no_day.total_value_usd == 0
            && UltimateLiquidityContract::rewards_for(&position, &rich, NOW + 3 * DAY).unwrap().total_value_usd
                == 18_000
            && UltimateLiquidityContract::rewards_for(&whale, &rich, NOW + 3 * DAY)
                == Err(LiquidityError::RewardCalculationError)
            && UltimateLiquidityContract::new(ctx.manager_address).calculate_yield_rewards(&position, NOW)
                == Err(LiquidityError::PoolNotFound),
        "Reward calculation should be accurate"
    );
}

#[test]
fn test_reward_claiming() {
    let ctx = TestContext::new();
    let mut manager = ctx.manager();
    manager.add_liquidity(ctx.user1, "XLM_USDC".to_string(), 2_000_000, 3_000_000, NOW).unwrap();
    let claimed = manager.claim_rewards(ctx.user1, "XLM_USDC", NOW + 10 * DAY).unwrap();
    let position = manager.get_position(ctx.user1, "XLM_USDC").unwrap();
    assert!(
        claimed.swave_rewards == 3_600 && position.accumulated_rewards == 3_600
            && position.last_reward_claim == NOW + 10 * DAY && position.lp_tokens == 6_000_000
            && manager.claim_rewards(ctx.user2, "XLM_USDC", NOW) == Err(LiquidityError::InsufficientLiquidity)
            && manager.claim_rewards(ctx.user1, "OTHER", NOW) == Err(LiquidityError::InsufficientLiquidity),
        "Reward claiming should work correctly"
    );
}

#[test]
fn test_liquidity_unstaking() {
    let ctx = TestContext::new();
    let mut manager = ctx.manager();
    manager.add_liquidity(ctx.user1, "XLM_USDC".to_string(), 2_000_000, 3_000_000, NOW).unwrap();
    manager.add_liquidity(ctx.user1, "XLM_USDC".to_string(), 1_000_000, 1_500_000, NOW).unwrap();
    let too_many = manager.remove_liquidity(ctx.user1, "XLM_USDC", 9_000_001);
    let taken = manager.remove_liquidity(ctx.user1, "XLM_USDC", 3_000_000);
    let position = manager.get_position(ctx.user1, "XLM_USDC").unwrap();
    assert!(
        too_many == Err(LiquidityError::InsufficientLiquidity) && taken == Ok((1_000_000, 1_500_000))
            && position.lp_tokens == 6_000_000 && position.impermanent_loss == 2_500_000
            && manager.get_pool("XLM_USDC").unwrap() == pool(2_000_000, 3_000_000, 6_000_000, NOW)
            && manager.get_global_stats().unwrap().total_tvl_usd == 5_000_000
            && manager.remove_liquidity(ctx.user1, "OTHER", 1) == Err(LiquidityError::PoolNotFound)
            && manager.remove_liquidity(ctx.user2, "XLM_USDC", 1) == Err(LiquidityError::InsufficientLiquidity),
        "Liquidity unstaking should work correctly"
    );
}

#[test]
fn test_compound_rewards() {
    let ctx = TestContext::new();
    let mut manager = ctx.manager();
    manager.add_liquidity(ctx.user1, "XLM_USDC".to_string(), 2_000_000, 3_000_000, NOW).unwrap();
    let first = manager.claim_rewards(ctx.user1, "XLM_USDC", NOW + 10 * DAY).unwrap();
    let at_once = manager.claim_rewards(ctx.user1, "XLM_USDC", NOW + 10 * DAY).unwrap();
    let second = manager.claim_rewards(ctx.user1, "XLM_USDC", NOW + 15 * DAY).unwrap();
    let position = manager.get_position(ctx.user1, "XLM_USDC").unwrap();
    assert!(
        first.swave_rewards == 3_600 && at_once.swave_rewards == 0 && second.swave_rewards == 1_800
            && second.period_start == NOW + 10 * DAY && position.accumulated_rewards == 5_400,
        "Compound rewards should work correctly"
    );
}

#[test]
fn test_multiple_pools() {
    let ctx = TestContext::new();
    let mut manager = ctx.manager();
    // Every deposit goes into the default pool; the grown pool is kept under the name that is given.
    manager.add_liquidity(ctx.user1, "XLM_USDC".to_string(), 2_000_000, 3_000_000, NOW).unwrap();
    let other = manager.add_liquidity(ctx.user2, "XLM_BTC".to_string(), 1_000_000, 1_500_000, NOW + 1);
    assert!(
        other == Ok(3_000_000)
            && manager.get_pool("XLM_BTC").unwrap() == pool(3_000_000, 4_500_000, 9_000_000, NOW)
            && manager.get_pool("XLM_USDC").unwrap() == pool(2_000_000, 3_000_000, 6_000_000, NOW)
            && manager.get_position(ctx.user2, "XLM_USDC").unwrap().lp_tokens == 3_000_000
            && manager.get_position(ctx.user2, "XLM_BTC") == Err(LiquidityError::InsufficientLiquidity)
            && manager.pools.len() == 2,
        "Multiple pool participation should work correctly"
    );
}

#[test]
fn test_pool_lifecycle() {
    let ctx = TestContext::new();
    let mut manager = ctx.manager();
    manager.add_liquidity(ctx.user1, "XLM_USDC".to_string(), 2_000_000, 3_000_000, NOW).unwrap();
    manager.claim_rewards(ctx.user1, "XLM_USDC", NOW + 30 * DAY).unwrap();
    let all = manager.remove_liquidity(ctx.user1, "XLM_USDC", 6_000_000);
    let emptied = manager.get_pool("XLM_USDC").unwrap();
    let position = manager.get_position(ctx.user1, "XLM_USDC").unwrap();
    assert!(
        all == Ok((2_000_000, 3_000_000)) && emptied == pool(0, 0, 0, NOW) && position.lp_tokens == 0
            && position.impermanent_loss == 0 && position.accumulated_rewards == 10_800
            && manager.remove_liquidity(ctx.user1, "XLM_USDC", 0)
                == Err(LiquidityError::InsufficientLiquidity)
            && manager.get_global_stats().unwrap().total_tvl_usd == 0,
        "Pool lifecycle should work correctly"
    );
}

#[test]
fn yield_follows_size_and_age() {
    assert_eq!(UltimateLiquidityContract::calculate_dynamic_apy(&pool(0, 0, 0, NOW)), Ok(500));
    assert_eq!(
        UltimateLiquidityContract::calculate_dynamic_apy(&pool(100_000_000_000, 0, 0, NOW)),
        Ok(500)
    );
    assert_eq!(
        UltimateLiquidityContract::calculate_dynamic_apy(&pool(100_000_000_000, 1, 0, NOW)),
        Ok(600)
    );
    assert_eq!(
        UltimateLiquidityContract::calculate_dynamic_apy(&pool(1_000_000_000_000, 1, 0, NOW)),
        Ok(700)
    );
    assert_eq!(
        UltimateLiquidityContract::calculate_dynamic_apy(&pool(0, 0, 0, 1234567890 - 31 * DAY)),
        Ok(550)
    );
    assert_eq!(
        UltimateLiquidityContract::calculate_dynamic_apy(&pool(0, 0, 0, 1234567890 - 31 * DAY + 1)),
        Ok(500)
    );
    assert_eq!(
        UltimateLiquidityContract::calculate_dynamic_apy(&pool(1_000_000_000_001, 0, 0, 0)),
        Ok(750)
    );
    assert_eq!(
        UltimateLiquidityContract::calculate_dynamic_apy(&pool(i128::MAX, 1, 0, 0)),
        Err(LiquidityError::RewardCalculationError)
    );
}

#[test]
fn shares_and_withdrawals() {
    let p = pool(2_000, 8_000, 4_000, NOW);
    assert_eq!(UltimateLiquidityContract::calculate_lp_tokens(&p, 1_000, 1_000), Ok(500));
    assert_eq!(UltimateLiquidityContract::calculate_lp_tokens(&p, 1_000, 8_000), Ok(2_000));
    assert_eq!(UltimateLiquidityContract::calculate_lp_tokens(&pool(0, 0, 0, NOW), 3_000, 5_000), Ok(15));
    assert_eq!(
        UltimateLiquidityContract::calculate_lp_tokens(&pool(0, 8, 4, NOW), 3_000, 5_000),
        Err(LiquidityError::InsufficientLiquidity)
    );
    assert_eq!(
        UltimateLiquidityContract::calculate_lp_tokens(&p, i128::MAX, 5_000),
        Err(LiquidityError::InvalidAmount)
    );
    assert_eq!(UltimateLiquidityContract::calculate_withdrawal_amounts(&p, 1_000), Ok((500, 2_000)));
    assert_eq!(UltimateLiquidityContract::calculate_withdrawal_amounts(&p, 4_000), Ok((2_000, 8_000)));
    assert_eq!(UltimateLiquidityContract::calculate_withdrawal_amounts(&p, 3), Ok((1, 6)));
    assert_eq!(
        UltimateLiquidityContract::calculate_withdrawal_amounts(&pool(5, 5, 0, NOW), 3),
        Err(LiquidityError::InsufficientLiquidity)
    );
    assert_eq!(
        UltimateLiquidityContract::calculate_withdrawal_amounts(&p, i128::MAX),
        Err(LiquidityError::InvalidAmount)
    );
    let bare = UltimateLiquidityContract::new(Address::new(400));
    assert_eq!(
        bare.get_global_stats(),
        Ok(GlobalLiquidityStats {
            total_tvl_usd: 0,
            total_pools: 0,
            active_providers: 0,
            total_rewards_distributed: 0,
            average_apy: 500,
        })
    );
}
