//! Tests of the swap contract.

use swave::swap::{
    Config, Pool, SwapContract, SwapError, SwapRequest, SwapResult, SwapRoute, SwapStep, Token,
};
use swave::types::Address;

const NOW: u64 = 1_700_000_000;

struct TestContext {
    admin: Address,
    user1: Address,
    user2: Address,
}

impl TestContext {
    fn new() -> Self {
        TestContext { admin: Address::new(1), user1: Address::new(11), user2: Address::new(12) }
    }

    fn contract(&self) -> SwapContract {
        let mut contract = SwapContract::new();
        assert_eq!(contract.initialize(self.admin), Ok(()));
        assert_eq!(contract.add_pool(self.admin, pool("XLM_USDC", xlm(), usdc(), 1_000_000_000, 2_000_000_000)), Ok(()));
        assert_eq!(contract.add_pool(self.admin, pool("USDC_BTC", usdc(), btc(), 4_000_000_000, 1_000_000_000)), Ok(()));
        contract
    }
}

fn xlm() -> Token {
    Token { address: None, symbol: "XLM".to_string(), decimals: 7 }
}

fn usdc() -> Token {
    Token { address: Some(Address::new(500)), symbol: "USDC".to_string(), decimals: 7 }
}

fn btc() -> Token {
    Token { address: Some(Address::new(501)), symbol: "BTC".to_string(), decimals: 8 }
}

fn pool(id: &str, a: Token, b: Token, reserve_a: i128, reserve_b: i128) -> Pool {
    Pool { id: id.to_string(), token_a: a, token_b: b, reserve_a, reserve_b, fee: 30, enabled: true }
}

fn step(pool_id: &str, token_in: Token, token_out: Token, amount_in: i128) -> SwapStep {
    SwapStep { token_in, token_out, pool_id: pool_id.to_string(), amount_in, amount_out: 0, fee: 0 }
}

fn request(user: Address, steps: Vec<SwapStep>, amount_in: i128, expected: i128, min_out: i128) -> SwapRequest {
    SwapRequest {
        user,
        route: SwapRoute {
            steps,
            total_amount_in: amount_in,
            total_amount_out: expected,
            total_fees: 0,
            expected_slippage: 0,
            expires_at: NOW + 100,
        },
        max_slippage: 500,
        min_amount_out: min_out,
        deadline: NOW + 50,
    }
}

#[test]
fn test_liquidity_pool_creation() {
    let ctx = TestContext::new();
    let mut contract = ctx.contract();
    let refused = contract.add_pool(ctx.user1, pool("X", xlm(), btc(), 1, 1));
    let listed = contract.get_pool("XLM_USDC").unwrap();
    assert!(
        refused == Err(SwapError::Unauthorized) && contract.get_pool("X") == Err(SwapError::PoolNotFound)
            && listed.reserve_a == 1_000_000_000 && listed.reserve_b == 2_000_000_000
            && listed.token_a == xlm() && listed.token_b == usdc() && listed.fee == 30
            && listed.enabled
            && SwapContract::new().add_pool(ctx.admin, pool("X", xlm(), btc(), 1, 1))
                == Err(SwapError::Unauthorized),
        "Liquidity pool creation should work correctly"
    );
}

#[test]
fn test_token_swap() {
    let ctx = TestContext::new();
    let mut contract = ctx.contract();
    // 100e6 into reserves of 1e9 and 2e9 give 100e6 * 2e9 / 1.1e9 = 181_818_181.
    let r = contract.execute_swap(
        &request(ctx.user1, vec![step("XLM_USDC", xlm(), usdc(), 100_000_000)], 100_000_000, 181_818_181, 180_000_000),
        NOW,
    );
    assert!(
        r == Ok(SwapResult { amount_out: 181_818_181, fees_paid: 300_000, actual_slippage: 0, executed_at: NOW })
            && contract.history.get(&ctx.user1.id).unwrap().len() == 1,
        "Token swap should work correctly"
    );
}

#[test]
fn test_liquidity_provision() {
    let ctx = TestContext::new();
    let mut contract = ctx.contract();
    let shallow = SwapContract::calculate_amm_output(100_000_000, &contract.get_pool("XLM_USDC").unwrap(), &xlm());
    contract.add_pool(ctx.admin, pool("XLM_USDC", xlm(), usdc(), 10_000_000_000, 20_000_000_000)).unwrap();
    let deep = SwapContract::calculate_amm_output(100_000_000, &contract.get_pool("XLM_USDC").unwrap(), &xlm());
    assert!(
        shallow == Ok(181_818_181) && deep == Ok(198_019_801),
        "Liquidity provision should work correctly"
    );
}

#[test]
fn test_liquidity_removal() {
    let ctx = TestContext::new();
    let mut contract = ctx.contract();
    let mut emptied = pool("XLM_USDC", xlm(), usdc(), 1_000_000_000, 0);
    let no_reserve = SwapContract::calculate_amm_output(100, &emptied, &xlm());
    emptied.reserve_b = 5;
    emptied.enabled = false;
    contract.add_pool(ctx.admin, emptied).unwrap();
    let disabled = contract.execute_swap_step(&step("XLM_USDC", xlm(), usdc(), 100_000_000));
    assert!(
        no_reserve == Err(SwapError::InsufficientLiquidity) && disabled == Err(SwapError::PoolNotFound),
        "Liquidity removal should work correctly"
    );
}

#[test]
fn test_price_calculation() {
    let one = pool("P", xlm(), usdc(), 1_000, 3_000);
    assert!(
        SwapContract::calculate_amm_output(1_000, &one, &xlm()) == Ok(1_500)
            && SwapContract::calculate_amm_output(3_000, &one, &usdc()) == Ok(500)
            && SwapContract::calculate_amm_output(1, &one, &xlm()) == Ok(2)
            && SwapContract::calculate_amm_output(1, &one, &usdc()) == Err(SwapError::InsufficientLiquidity)
            && SwapContract::calculate_amm_output(0, &one, &xlm()) == Err(SwapError::InsufficientLiquidity)
            && SwapContract::calculate_amm_output(i128::MAX, &one, &xlm()) == Err(SwapError::SwapFailed)
            && SwapContract::calculate_amm_output(-1_000, &one, &xlm()) == Err(SwapError::SwapFailed)
            // A token that the pool does not hold is taken for its second token.
            && SwapContract::calculate_amm_output(3_000, &one, &btc()) == Ok(500),
        "Price calculation should be accurate"
    );
}

#[test]
fn test_slippage_protection() {
    let ctx = TestContext::new();
    let mut contract = ctx.contract();
    let steps = || vec![step("XLM_USDC", xlm(), usdc(), 100_000_000)];
    let below_minimum = contract.execute_swap(&request(ctx.user1, steps(), 100_000_000, 181_818_181, 181_818_182), NOW);
    // 200e6 were expected: the slippage is 909 basis points, over the 500 allowed.
    let too_far = contract.execute_swap(&request(ctx.user1, steps(), 100_000_000, 200_000_000, 1), NOW);
    let mut greedy = request(ctx.user1, steps(), 100_000_000, 181_818_181, 1);
    greedy.max_slippage = 1001;
    let within = contract.execute_swap(&request(ctx.user1, steps(), 100_000_000, 190_000_000, 1), NOW);
    assert!(
        below_minimum == Err(SwapError::SlippageExceeded) && too_far == Err(SwapError::SlippageExceeded)
            && contract.execute_swap(&greedy, NOW) == Err(SwapError::InvalidSlippage)
            && within.unwrap().actual_slippage == 430
            && SwapContract::calculate_slippage(200_000_000, 181_818_181) == Ok(909)
            && SwapContract::calculate_slippage(0, 5) == Ok(0)
            && SwapContract::calculate_slippage(100, 100) == Ok(0)
            && SwapContract::calculate_slippage(100, 150) == Ok(5000)
            && SwapContract::calculate_slippage(3, 2) == Ok(3333)
            && SwapContract::calculate_slippage(1, i128::MAX) == Err(SwapError::SwapFailed)
            && SwapContract::calculate_slippage(1, 1_000_000_000_000) == Err(SwapError::SlippageExceeded)
            && SwapContract::calculate_slippage(-100, -100) == Ok(0)
            && SwapContract::calculate_slippage(-100, 100) == Err(SwapError::SlippageExceeded)
            && SwapContract::calculate_slippage(i128::MIN, i128::MIN + 5) == Ok(0)
            && contract.history.get(&ctx.user1.id).unwrap().len() == 1,
        "Slippage protection should work correctly"
    );
}

#[test]
fn swap_tests_test_fee_collection() {
    let ctx = TestContext::new();
    let mut contract = ctx.contract();
    let mut costly = pool("COSTLY", xlm(), usdc(), 1_000_000_000, 1_000_000_000);
    costly.fee = 250;
    contract.add_pool(ctx.admin, costly).unwrap();
    assert!(
        contract.execute_swap_step(&step("COSTLY", xlm(), usdc(), 1_000_000)).unwrap().1 == 25_000
            && contract.execute_swap_step(&step("XLM_USDC", xlm(), usdc(), 1_000_000)).unwrap().1 == 3_000
            && contract.execute_swap_step(&step("XLM_USDC", usdc(), xlm(), 3_333)).unwrap().1 == 9,
        "Fee collection should work correctly"
    );
}

#[test]
fn test_multi_hop_swaps() {
    let ctx = TestContext::new();
    let mut contract = ctx.contract();
    let steps = vec![
        step("XLM_USDC", xlm(), usdc(), 100_000_000),
        step("USDC_BTC", usdc(), btc(), 181_818_181),
    ];
    // The second hop gives 181_818_181 * 1e9 / 4_181_818_181 = 43_478_260.
    let r = contract.execute_swap(&request(ctx.user1, steps, 100_000_000, 225_296_441, 1), NOW + 50);
    let wrong_pair = contract.execute_swap(
        &request(ctx.user1, vec![step("USDC_BTC", xlm(), btc(), 100_000_000)], 100_000_000, 1, 1),
        NOW,
    );
    let missing = contract.execute_swap(
        &request(ctx.user1, vec![step("XLM_USDC", xlm(), usdc(), 100_000_000), step("NONE", usdc(), btc(), 5)], 100_000_000, 1, 1),
        NOW,
    );
    assert!(
        r == Ok(SwapResult {
            amount_out: 181_818_181 + 43_478_260,
            fees_paid: 300_000 + 545_454,
            actual_slippage: 0,
            executed_at: NOW + 50,
        }) && wrong_pair == Err(SwapError::InvalidRoute) && missing == Err(SwapError::PoolNotFound),
        "Multi-hop swaps should work correctly"
    );
}

#[test]
fn requests_are_refused_in_the_stated_order() {
    let ctx = TestContext::new();
    let mut contract = ctx.contract();
    let steps = || vec![step("XLM_USDC", xlm(), usdc(), 100_000_000)];
    let mut bare = SwapContract::new();
    assert_eq!(bare.execute_swap(&request(ctx.user1, steps(), 100_000_000, 1, 1), NOW), Err(SwapError::SwapFailed));
    assert_eq!(
        contract.execute_swap(&request(ctx.user1, vec![], 999_999, 1, 1), NOW),
        Err(SwapError::InvalidAmount)
    );
    assert_eq!(
        contract.execute_swap(&request(ctx.user1, vec![], 1_000_000, 1, 1), NOW),
        Err(SwapError::InvalidRoute)
    );
    assert_eq!(
        contract.execute_swap(&request(ctx.user1, steps(), 100_000_000, 181_818_181, 1), NOW + 51),
        Err(SwapError::SwapFailed)
    );
    let mut expired = request(ctx.user1, steps(), 100_000_000, 181_818_181, 1);
    expired.route.expires_at = NOW - 1;
    assert_eq!(contract.execute_swap(&expired, NOW), Err(SwapError::InvalidRoute));
    let mut config: Config = contract.get_config().unwrap();
    config.enabled = false;
    assert_eq!(contract.update_config(ctx.user2, config), Err(SwapError::Unauthorized));
    assert_eq!(contract.update_config(ctx.admin, config), Ok(()));
    assert_eq!(
        contract.execute_swap(&request(ctx.user1, steps(), 100_000_000, 181_818_181, 1), NOW),
        Err(SwapError::SwapFailed)
    );
    assert!(contract.history.get(&ctx.user1.id).is_none());
    assert_eq!(contract.get_admin(), Ok(ctx.admin));
    assert_eq!(bare.get_admin(), Err(SwapError::Unauthorized));
    assert_eq!(bare.get_config(), Err(SwapError::SwapFailed));
}

#[test]
fn history_keeps_the_newest_hundred() {
    let ctx = TestContext::new();
    let mut contract = ctx.contract();
    for i in 0..105u64 {
        let result = SwapResult { amount_out: i as i128, fees_paid: 0, actual_slippage: 0, executed_at: i };
        assert_eq!(contract.record_swap_history(ctx.user1, result), Ok(()));
    }
    let history = contract.history.get(&ctx.user1.id).unwrap();
    assert_eq!(history.len(), 100);
    assert_eq!(history[0].executed_at, 5);
    assert_eq!(history[99].executed_at, 104);
    assert!(contract.history.get(&ctx.user2.id).is_none());
    assert!(SwapContract::token_eq(&xlm(), &xlm()));
    assert!(!SwapContract::token_eq(&xlm(), &usdc()));
    let mut other = usdc();
    other.decimals = 6;
    assert!(!SwapContract::token_eq(&other, &usdc()));
}
