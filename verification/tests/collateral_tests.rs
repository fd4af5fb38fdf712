//! Tests of the collateral custodian.

use swave::collateral::{
    CollateralError, CollateralStatus, UltimateCollateralContract, LIQUIDATION_THRESHOLD,
    MIN_COLLATERAL_VALUE,
};
use swave::types::{Address, Transfer};

const TEST_COLLATERAL_AMOUNT: i128 = 1_500_000_000;
const NOW: u64 = 1_700_000_000;

struct TestContext {
    admin: Address,
    user1: Address,
    user2: Address,
    user3: Address,
    custody: Address,
    usdc: Address,
}

impl TestContext {
    fn new() -> Self {
        TestContext {
            admin: Address::new(1),
            user1: Address::new(11),
            user2: Address::new(12),
            user3: Address::new(13),
            custody: Address::new(200),
            usdc: Address::new(201),
        }
    }

    fn custodian(&self) -> UltimateCollateralContract {
        let mut custodian = UltimateCollateralContract::new(self.custody);
        assert_eq!(custodian.initialize(self.admin, Address::new(300), NOW), Ok(()));
        custodian
    }
}

#[test]
fn test_collateral_deposit() {
    let ctx = TestContext::new();
    let mut custodian = ctx.custodian();
    let r = custodian.lock_collateral(ctx.user1, ctx.custody, TEST_COLLATERAL_AMOUNT, NOW + 3);
    let position = custodian.positions.get(&ctx.user1.id).unwrap();
    assert!(
        r == Ok(Transfer { token: ctx.custody, from: ctx.user1, to: ctx.custody, amount: TEST_COLLATERAL_AMOUNT })
            && position.locked_amount == TEST_COLLATERAL_AMOUNT
            && position.lock_value_usd == 15_000_000_000
            && position.current_value_usd == 15_000_000_000
            && position.status == CollateralStatus::Active && position.locked_at == NOW + 3
            && position.loan_amount == 0 && position.current_ltv == 0
            && position.liquidation_threshold == 8000,
        "Collateral deposit should work correctly"
    );
}

#[test]
fn test_collateral_withdrawal() {
    let ctx = TestContext::new();
    let mut custodian = ctx.custodian();
    custodian.lock_collateral(ctx.user1, ctx.custody, TEST_COLLATERAL_AMOUNT, NOW).unwrap();
    let r = custodian.unlock_collateral(ctx.user1);
    let again = custodian.unlock_collateral(ctx.user1);
    let position = custodian.positions.get(&ctx.user1.id).unwrap();
    assert!(
        r == Ok(Transfer { token: ctx.custody, from: ctx.custody, to: ctx.user1, amount: TEST_COLLATERAL_AMOUNT })
            && again == Err(CollateralError::CollateralLocked)
            && position.status == CollateralStatus::Released,
        "Collateral withdrawal should work correctly"
    );
}

#[test]
fn test_collateral_valuation() {
    let ctx = TestContext::new();
    let custodian = ctx.custodian();
    let xlm = custodian.get_supported_asset(ctx.custody).unwrap();
    let usdc = custodian.get_supported_asset(ctx.usdc).unwrap();
    assert!(
        UltimateCollateralContract::calculate_usd_value(&xlm, 1_234_567) == Ok(12_345_670)
            && UltimateCollateralContract::calculate_usd_value(&usdc, 1_234_567) == Ok(123_456_700)
            && UltimateCollateralContract::calculate_usd_value(&xlm, 0) == Ok(0)
            && UltimateCollateralContract::calculate_usd_value(&xlm, i128::MAX)
                == Err(CollateralError::PriceFeedError),
        "Collateral valuation should be accurate"
    );
}

#[test]
fn test_liquidation_process() {
    let ctx = TestContext::new();
    let mut custodian = ctx.custodian();
    custodian.lock_collateral(ctx.user1, ctx.custody, 1_000_000_000, NOW).unwrap();
    custodian.set_loan_amount(ctx.user1, 8_000_000_000).unwrap();
    let r = custodian.liquidate(ctx.user2, ctx.user1, NOW + 9);
    let position = custodian.positions.get(&ctx.user1.id).unwrap();
    let event = &custodian.liquidations[0];
    assert!(
        r == Ok(Transfer { token: ctx.custody, from: ctx.custody, to: ctx.user2, amount: 950_000_000 })
            && position.status == CollateralStatus::Liquidated && position.locked_amount == 0
            && event.penalty_amount == 50_000_000 && event.amount_liquidated == 1_000_000_000
            && event.remaining_collateral == 0 && event.owner == ctx.user1
            && event.liquidator == ctx.user2 && event.liquidated_at == NOW + 9
            && event.liquidation_price == 100_000_000,
        "Liquidation process should work correctly"
    );
}

#[test]
fn test_multi_asset_support() {
    let ctx = TestContext::new();
    let mut custodian = ctx.custodian();
    custodian.lock_collateral(ctx.user1, ctx.custody, 5_000_000, NOW).unwrap();
    custodian.lock_collateral(ctx.user2, ctx.usdc, 5_000_000, NOW).unwrap();
    let native = custodian.positions.get(&ctx.user1.id).unwrap();
    let stable = custodian.positions.get(&ctx.user2.id).unwrap();
    assert!(
        native.asset.code == "XLM" && native.lock_value_usd == 50_000_000
            && native.asset.collateral_factor == 7500 && stable.asset.code == "USDC"
            && stable.lock_value_usd == 500_000_000 && stable.asset.collateral_factor == 9000,
        "Multi-asset collateral should be supported"
    );
}

#[test]
fn test_ltv_ratio_monitoring() {
    let ctx = TestContext::new();
    let mut custodian = ctx.custodian();
    custodian.lock_collateral(ctx.user1, ctx.custody, 90_000_000, NOW).unwrap();
    custodian.set_loan_amount(ctx.user1, 750_000_000).unwrap();
    let position = custodian.get_position(ctx.user1, NOW + 1).unwrap();
    assert!(
        position.current_value_usd == 900_000_000 && position.current_ltv == 8333
            && position.status == CollateralStatus::AtRisk
            && custodian.is_liquidation_required(ctx.user1, NOW + 1) == Ok(true),
        "LTV ratio monitoring should work correctly"
    );
}

#[test]
fn test_price_feed_integration() {
    let ctx = TestContext::new();
    let mut custodian = ctx.custodian();
    custodian.lock_collateral(ctx.user1, ctx.custody, 1_000_000_000, NOW).unwrap();
    custodian.set_loan_amount(ctx.user1, 4_000_000_000).unwrap();
    let before = custodian.get_position(ctx.user1, NOW + 1).unwrap();
    let updated = custodian.update_asset_price(ctx.admin, "XLM".to_string(), 50_000_000, NOW + 2);
    let after = custodian.get_position(ctx.user1, NOW + 3).unwrap();
    assert!(
        before.current_ltv == 4000 && before.status == CollateralStatus::Active
            && updated == Ok(()) && after.current_value_usd == 5_000_000_000
            && after.current_ltv == 8000 && after.status == CollateralStatus::AtRisk
            && after.asset.price_usd == 50_000_000 && after.asset.price_timestamp == NOW + 2
            && after.last_price_update == NOW + 3 && after.lock_value_usd == 10_000_000_000,
        "Price feed integration should work correctly"
    );
}

#[test]
fn test_collateral_locking() {
    let ctx = TestContext::new();
    let mut custodian = ctx.custodian();
    custodian.lock_collateral(ctx.user1, ctx.custody, TEST_COLLATERAL_AMOUNT, NOW).unwrap();
    custodian.lock_collateral(ctx.user2, ctx.custody, 1_000_000, NOW).unwrap();
    let stats = custodian.get_global_stats().unwrap();
    assert!(
        stats.total_positions == 2 && stats.active_positions == 2
            && stats.total_locked_usd == 15_010_000_000 && stats.total_liquidations == 0,
        "Collateral locking should work correctly"
    );
}

#[test]
fn lock_is_refused_in_the_stated_order() {
    let ctx = TestContext::new();
    let mut bare = UltimateCollateralContract::new(ctx.custody);
    assert_eq!(
        bare.lock_collateral(ctx.user1, ctx.custody, 0, NOW),
        Err(CollateralError::ContractPaused)
    );
    let mut custodian = ctx.custodian();
    assert_eq!(
        custodian.lock_collateral(ctx.user1, ctx.user3, 0, NOW),
        Err(CollateralError::InvalidAmount)
    );
    assert_eq!(
        custodian.lock_collateral(ctx.user1, ctx.custody, -1, NOW),
        Err(CollateralError::InvalidAmount)
    );
    assert_eq!(
        custodian.lock_collateral(ctx.user1, ctx.custody, i128::MAX, NOW),
        Err(CollateralError::PriceFeedError)
    );
    // 999_999 native units are worth one less than the smallest collateral.
    assert_eq!(
        custodian.lock_collateral(ctx.user1, ctx.custody, 999_999, NOW),
        Err(CollateralError::InsufficientCollateral)
    );
    assert_eq!(MIN_COLLATERAL_VALUE, 10_000_000);
    assert!(custodian.lock_collateral(ctx.user1, ctx.custody, 1_000_000, NOW).is_ok());
    assert!(custodian.lock_collateral(ctx.user2, ctx.usdc, 100_000, NOW).is_ok());
    assert_eq!(
        custodian.lock_collateral(ctx.user3, ctx.usdc, 99_999, NOW),
        Err(CollateralError::InsufficientCollateral)
    );
    assert!(custodian.positions.get(&ctx.user3.id).is_none());
    assert_eq!(custodian.emergency_pause(ctx.user1), Err(CollateralError::Unauthorized));
    assert_eq!(custodian.emergency_pause(ctx.admin), Ok(()));
    assert_eq!(
        custodian.lock_collateral(ctx.user3, ctx.custody, 1_000_000, NOW),
        Err(CollateralError::ContractPaused)
    );
    assert_eq!(custodian.unlock_collateral(ctx.user1), Err(CollateralError::ContractPaused));
    assert_eq!(custodian.liquidate(ctx.user3, ctx.user1, NOW), Err(CollateralError::ContractPaused));
    assert_eq!(custodian.set_loan_amount(ctx.user1, 5), Err(CollateralError::ContractPaused));
}

#[test]
fn healthy_position_is_not_liquidated() {
    let ctx = TestContext::new();
    let mut custodian = ctx.custodian();
    assert_eq!(custodian.liquidate(ctx.user2, ctx.user1, NOW), Err(CollateralError::CollateralNotFound));
    custodian.lock_collateral(ctx.user1, ctx.custody, 1_000_000_000, NOW).unwrap();
    // Without a loan the ratio is zero.
    assert_eq!(custodian.liquidate(ctx.user2, ctx.user1, NOW), Err(CollateralError::LiquidationNotRequired));
    custodian.set_loan_amount(ctx.user1, 7_999_999_999).unwrap();
    assert_eq!(custodian.is_liquidation_required(ctx.user1, NOW), Ok(false));
    assert_eq!(custodian.liquidate(ctx.user2, ctx.user1, NOW), Err(CollateralError::LiquidationNotRequired));
    let position = custodian.positions.get(&ctx.user1.id).unwrap();
    assert_eq!(position.status, CollateralStatus::Active);
    assert_eq!(position.locked_amount, 1_000_000_000);
    assert_eq!(position.current_ltv, 7999);
    assert!(custodian.liquidations.is_empty());
    custodian.set_loan_amount(ctx.user1, 8_000_000_000).unwrap();
    let position = custodian.positions.get(&ctx.user1.id).unwrap();
    assert_eq!(position.current_ltv, 8000);
    assert_eq!(position.status, CollateralStatus::AtRisk);
    assert_eq!(custodian.is_liquidation_required(ctx.user1, NOW), Ok(true));
    assert!(custodian.liquidate(ctx.user2, ctx.user1, NOW).is_ok());
    assert_eq!(custodian.liquidate(ctx.user2, ctx.user1, NOW), Err(CollateralError::CollateralLocked));
    assert_eq!(custodian.unlock_collateral(ctx.user1), Err(CollateralError::CollateralLocked));
    let stats = custodian.get_global_stats().unwrap();
    assert_eq!(stats.active_positions, 0);
    assert_eq!(stats.total_locked_usd, 0);
    assert_eq!(stats.total_positions, 1);
}

#[test]
fn position_at_risk_is_not_released() {
    let ctx = TestContext::new();
    let mut custodian = ctx.custodian();
    assert_eq!(custodian.unlock_collateral(ctx.user1), Err(CollateralError::CollateralNotFound));
    assert_eq!(custodian.get_position(ctx.user1, NOW), Err(CollateralError::CollateralNotFound));
    assert_eq!(custodian.is_liquidation_required(ctx.user1, NOW), Err(CollateralError::CollateralNotFound));
    custodian.lock_collateral(ctx.user1, ctx.custody, 1_000_000_000, NOW).unwrap();
    custodian.set_loan_amount(ctx.user1, 9_000_000_000).unwrap();
    assert_eq!(custodian.get_position(ctx.user1, NOW).unwrap().status, CollateralStatus::AtRisk);
    assert_eq!(custodian.unlock_collateral(ctx.user1), Err(CollateralError::CollateralLocked));
    assert_eq!(custodian.set_loan_amount(ctx.user1, 5), Err(CollateralError::CollateralLocked));
    custodian.update_asset_price(ctx.admin, "XLM".to_string(), 200_000_000, NOW).unwrap();
    let position = custodian.get_position(ctx.user1, NOW).unwrap();
    assert_eq!(position.status, CollateralStatus::Active);
    assert_eq!(position.current_ltv, 4500);
    let released = custodian.unlock_collateral(ctx.user1).unwrap();
    assert_eq!(released.amount, 1_000_000_000);
    let position = custodian.positions.get(&ctx.user1.id).unwrap();
    assert_eq!(position.loan_amount, 0);
    assert_eq!(position.current_ltv, 0);
    // A released position stays released when it is read.
    assert_eq!(custodian.get_position(ctx.user1, NOW + 5).unwrap().status, CollateralStatus::Released);
}

#[test]
fn position_that_cannot_be_valued() {
    let ctx = TestContext::new();
    let mut custodian = ctx.custodian();
    custodian.lock_collateral(ctx.user1, ctx.custody, 1_000_000_000, NOW).unwrap();
    custodian.set_loan_amount(ctx.user1, 1_000).unwrap();
    custodian.update_asset_price(ctx.admin, "XLM".to_string(), 0, NOW).unwrap();
    assert_eq!(custodian.get_position(ctx.user1, NOW), Err(CollateralError::PriceFeedError));
    assert_eq!(custodian.liquidate(ctx.user2, ctx.user1, NOW), Err(CollateralError::PriceFeedError));
    custodian.update_asset_price(ctx.admin, "XLM".to_string(), i128::MAX, NOW).unwrap();
    assert_eq!(custodian.is_liquidation_required(ctx.user1, NOW), Err(CollateralError::PriceFeedError));
    // A value of one against a loan of a million millions: the ratio is held at the top.
    custodian.update_asset_price(ctx.admin, "XLM".to_string(), 1, NOW).unwrap();
    custodian.lock_collateral(ctx.user2, ctx.usdc, 1_000_000_000, NOW).unwrap();
    let mut position = custodian.positions.get(&ctx.user2.id).unwrap().clone();
    position.asset.code = "XLM".to_string();
    position.locked_amount = 10_000_000;
    position.loan_amount = 1_000_000_000_000;
    assert_eq!(custodian.update_position_values(&mut position, NOW), Ok(()));
    assert_eq!(position.current_value_usd, 1);
    assert_eq!(position.current_ltv, u32::MAX);
    assert_eq!(position.status, CollateralStatus::AtRisk);
    position.asset.code = "BTC".to_string();
    let before = position.clone();
    assert_eq!(
        custodian.update_position_values(&mut position, NOW),
        Err(CollateralError::AssetNotSupported)
    );
    assert_eq!(position, before);
}

#[test]
fn prices_are_set_by_the_administrator_only() {
    let ctx = TestContext::new();
    let mut custodian = ctx.custodian();
    assert_eq!(
        custodian.update_asset_price(ctx.user1, "XLM".to_string(), 5, NOW),
        Err(CollateralError::Unauthorized)
    );
    assert_eq!(
        custodian.update_asset_price(ctx.admin, "BTC".to_string(), 5, NOW),
        Err(CollateralError::AssetNotSupported)
    );
    assert_eq!(custodian.update_asset_price(ctx.admin, "USDC".to_string(), 5, NOW + 1), Ok(()));
    let usdc = custodian.get_supported_asset(ctx.usdc).unwrap();
    assert_eq!(usdc.price_usd, 5);
    assert_eq!(usdc.price_timestamp, NOW + 1);
    assert_eq!(custodian.get_supported_asset(ctx.custody).unwrap().price_usd, 100_000_000);
    let bare = UltimateCollateralContract::new(ctx.custody);
    assert_eq!(bare.get_supported_asset(ctx.custody).err(), Some(CollateralError::AssetNotSupported));
    assert_eq!(bare.get_global_stats(), Err(CollateralError::CollateralNotFound));
    assert_eq!(bare.check_not_paused(), Err(CollateralError::ContractPaused));
    assert_eq!(custodian.check_not_paused(), Ok(()));
}

#[test]
fn loan_amounts_that_cannot_be_attached() {
    let ctx = TestContext::new();
    let mut custodian = ctx.custodian();
    assert_eq!(custodian.set_loan_amount(ctx.user1, 5), Err(CollateralError::CollateralNotFound));
    custodian.lock_collateral(ctx.user1, ctx.custody, 1_000_000_000, NOW).unwrap();
    assert_eq!(custodian.set_loan_amount(ctx.user1, 0), Err(CollateralError::InvalidAmount));
    assert_eq!(custodian.set_loan_amount(ctx.user1, -7), Err(CollateralError::InvalidAmount));
    assert_eq!(
        custodian.set_loan_amount(ctx.user1, i128::MAX / 10000 + 1),
        Err(CollateralError::InvalidAmount)
    );
    assert_eq!(custodian.set_loan_amount(ctx.user1, i128::MAX / 10000), Ok(()));
    assert_eq!(LIQUIDATION_THRESHOLD, 8000);
    assert_eq!(CollateralError::InsufficientCollateral.code(), 1);
    assert_eq!(CollateralError::InvalidLiquidation.code(), 13);
}

#[test]
fn penalty_rounds_toward_zero() {
    let ctx = TestContext::new();
    let mut custodian = ctx.custodian();
    custodian.lock_collateral(ctx.user1, ctx.custody, 1_000_019, NOW).unwrap();
    custodian.set_loan_amount(ctx.user1, 1_000_000_000).unwrap();
    let r = custodian.liquidate(ctx.user2, ctx.user1, NOW).unwrap();
    assert_eq!(custodian.liquidations[0].penalty_amount, 50_000);
    assert_eq!(r.amount, 950_019);
}

#[test]
fn worthless_position_secures_no_loan() {
    let ctx = TestContext::new();
    let mut custodian = ctx.custodian();
    custodian.lock_collateral(ctx.user1, ctx.custody, 1_000_000_000, NOW).unwrap();
    custodian.update_asset_price(ctx.admin, "XLM".to_string(), 0, NOW).unwrap();
    // Without a loan the position is valued at nothing and stays active.
    let position = custodian.get_position(ctx.user1, NOW + 1).unwrap();
    assert_eq!(position.current_value_usd, 0);
    assert_eq!(position.status, CollateralStatus::Active);
    assert_eq!(custodian.set_loan_amount(ctx.user1, 5), Err(CollateralError::InsufficientCollateral));
    assert_eq!(custodian.positions.get(&ctx.user1.id).unwrap().loan_amount, 0);
}

#[test]
fn owners_do_not_touch_each_other() {
    let ctx = TestContext::new();
    let mut custodian = ctx.custodian();
    custodian.lock_collateral(ctx.user1, ctx.custody, 1_000_000_000, NOW).unwrap();
    custodian.lock_collateral(ctx.user2, ctx.usdc, 2_000_000_000, NOW).unwrap();
    let first = custodian.positions.get(&ctx.user1.id).unwrap().clone();
    custodian.set_loan_amount(ctx.user2, 190_000_000_000).unwrap();
    custodian.liquidate(ctx.user3, ctx.user2, NOW + 5).unwrap();
    assert_eq!(custodian.positions.get(&ctx.user1.id).unwrap(), &first);
    assert_eq!(custodian.liquidations.len(), 1);
    assert_eq!(custodian.liquidations[0].owner, ctx.user2);
    assert_eq!(custodian.liquidations[0].asset.code, "USDC");
    assert_eq!(custodian.liquidations[0].liquidation_price, 1_000_000_000);
    custodian.lock_collateral(ctx.user3, ctx.custody, 1_000_000_000, NOW).unwrap();
    custodian.set_loan_amount(ctx.user3, 9_000_000_000).unwrap();
    custodian.liquidate(ctx.user1, ctx.user3, NOW + 6).unwrap();
    assert_eq!(custodian.liquidations.len(), 2);
    assert_eq!(custodian.liquidations[0].owner, ctx.user2);
    assert_eq!(custodian.liquidations[1].owner, ctx.user3);
}
