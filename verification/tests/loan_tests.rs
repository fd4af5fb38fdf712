//! Tests of the loan engine.

use swave::collateral::{CollateralStatus, UltimateCollateralContract};
use swave::loan::{
    ContractConfig, LoanError, LoanState, LoanType, UltimateLoan, UltimateLoanContract,
    MAX_LOAN_AMOUNT, MIN_LOAN_AMOUNT,
};
use swave::types::{Address, Transfer};

const TEST_LOAN_AMOUNT: i128 = 1_000_000_000;
const TEST_COLLATERAL_AMOUNT: i128 = 1_500_000_000;
const TEST_LOAN_DURATION: u64 = 2_592_000;
const DAY: u64 = 86400;
const NOW: u64 = 1_700_000_000;

struct TestContext {
    admin: Address,
    user1: Address,
    user2: Address,
    user3: Address,
    scorer: Address,
    custody: Address,
}

impl TestContext {
    fn new() -> Self {
        TestContext {
            admin: Address::new(1),
            user1: Address::new(11),
            user2: Address::new(12),
            user3: Address::new(13),
            scorer: Address::new(100),
            custody: Address::new(200),
        }
    }

    fn engine(&self) -> UltimateLoanContract {
        let mut engine = UltimateLoanContract::new();
        assert_eq!(engine.initialize(self.admin, self.scorer, self.custody), Ok(()));
        engine
    }

    fn custodian(&self) -> UltimateCollateralContract {
        let mut custodian = UltimateCollateralContract::new(self.custody);
        assert_eq!(custodian.initialize(self.admin, Address::new(300), NOW), Ok(()));
        custodian
    }
}

fn loan_of(engine: &UltimateLoanContract, user: Address) -> UltimateLoan {
    *engine.loans.get(&user.id).unwrap()
}

#[test]
fn test_loan_application() {
    let ctx = TestContext::new();
    let mut engine = ctx.engine();
    let state = engine.request_loan(ctx.user1, TEST_LOAN_AMOUNT, Some(85), NOW);
    let loan = loan_of(&engine, ctx.user1);
    assert!(
        state == Ok(LoanState::Active) && loan.borrower == ctx.user1
            && loan.principal == TEST_LOAN_AMOUNT,
        "Loan application should be processed successfully"
    );
}

#[test]
fn test_loan_approval() {
    let ctx = TestContext::new();
    let mut engine = ctx.engine();
    let approved = engine.request_loan(ctx.user1, TEST_LOAN_AMOUNT, Some(70), NOW);
    let secured = engine.request_loan(ctx.user2, TEST_LOAN_AMOUNT, Some(69), NOW);
    let rejected = engine.request_loan(ctx.user3, TEST_LOAN_AMOUNT, Some(49), NOW);
    assert!(
        approved == Ok(LoanState::Active) && secured == Ok(LoanState::CollateralRequired)
            && rejected == Ok(LoanState::Rejected),
        "Loan should be approved automatically based on criteria"
    );
}

#[test]
fn test_interest_calculation() {
    let ctx = TestContext::new();
    let mut engine = ctx.engine();
    engine.request_loan(ctx.user1, TEST_LOAN_AMOUNT, Some(85), NOW).unwrap();
    let mut loan = loan_of(&engine, ctx.user1);
    // 400 bps a year is 109 millionths a day; thirty days on 1e9 give 3_270_000.
    let balance = UltimateLoanContract::calculate_current_balance(&mut loan, NOW + TEST_LOAN_DURATION);
    assert!(
        balance == Ok(TEST_LOAN_AMOUNT + 3_270_000) && loan.accrued_interest == 3_270_000
            && loan.last_interest_calc == NOW + TEST_LOAN_DURATION,
        "Interest calculation should be accurate"
    );
}

#[test]
fn test_payment_processing() {
    let ctx = TestContext::new();
    let mut engine = ctx.engine();
    let mut custodian = ctx.custodian();
    engine.request_loan(ctx.user1, TEST_LOAN_AMOUNT, Some(85), NOW).unwrap();
    let paid = engine.repay_loan(&mut custodian, ctx.user1, 100_000_000, NOW + 30 * DAY);
    let loan = loan_of(&engine, ctx.user1);
    assert!(
        paid == Ok(None) && loan.accrued_interest == 0
            && loan.outstanding_balance == TEST_LOAN_AMOUNT - (100_000_000 - 3_270_000)
            && loan.payment_count == 1 && loan.total_payments == 100_000_000,
        "Payment processing should work correctly"
    );
}

#[test]
fn test_liquidation_conditions() {
    let ctx = TestContext::new();
    let mut engine = ctx.engine();
    let mut custodian = ctx.custodian();
    engine.request_loan(ctx.user1, TEST_LOAN_AMOUNT, Some(85), NOW).unwrap();
    let early = engine.liquidate(&mut custodian, ctx.user2, ctx.user1, NOW + 90 * DAY - 1);
    let due_before = engine.is_due(ctx.user1, NOW + 90 * DAY - 1);
    let due_after = engine.is_due(ctx.user1, NOW + 90 * DAY);
    let late = engine.liquidate(&mut custodian, ctx.user2, ctx.user1, NOW + 90 * DAY);
    assert!(
        early == Err(LoanError::LoanNotFound) && due_before == Ok(false) && due_after == Ok(true)
            && late == Ok(None) && loan_of(&engine, ctx.user1).state == LoanState::Liquidated
            && engine.get_global_stats().unwrap().active_loans == 0
            && engine.get_global_stats().unwrap().total_loans == 1,
        "Liquidation conditions should be checked correctly"
    );
}

#[test]
fn test_risk_adjusted_pricing() {
    let rates = [
        (100, false, 400),
        (80, false, 400),
        (79, false, 450),
        (70, false, 450),
        (69, true, 450),
        (60, true, 450),
        (59, true, 550),
        (50, true, 550),
        (49, false, 700),
        (0, false, 700),
        (0, true, 650),
        (65, false, 500),
        (85, true, 350),
    ];
    let mut all = true;
    for (score, secured, expected) in rates {
        all = all && UltimateLoanContract::calculate_risk_adjusted_rate(score, secured) == expected;
    }
    assert!(all, "Risk-adjusted pricing should work correctly");
}

#[test]
fn test_payment_schedule() {
    let ctx = TestContext::new();
    let mut engine = ctx.engine();
    engine.request_loan(ctx.user1, TEST_LOAN_AMOUNT, Some(85), NOW).unwrap();
    engine.request_loan(ctx.user2, TEST_LOAN_AMOUNT, Some(60), NOW).unwrap();
    let unsecured = loan_of(&engine, ctx.user1);
    let secured = loan_of(&engine, ctx.user2);
    assert!(
        unsecured.duration_days == 90 && unsecured.due_at == NOW + 90 * DAY
            && secured.duration_days == 120 && secured.due_at == NOW + 120 * DAY,
        "Payment schedule should be calculated correctly"
    );
}

#[test]
fn test_loan_completion() {
    let ctx = TestContext::new();
    let mut engine = ctx.engine();
    let mut custodian = ctx.custodian();
    engine.request_loan(ctx.user1, TEST_LOAN_AMOUNT, Some(60), NOW).unwrap();
    let locked = engine.provide_collateral(&mut custodian, ctx.user1, TEST_COLLATERAL_AMOUNT, NOW);
    assert_eq!(
        locked,
        Ok(Transfer { token: ctx.custody, from: ctx.user1, to: ctx.custody, amount: TEST_COLLATERAL_AMOUNT })
    );
    let first = engine.repay_loan(&mut custodian, ctx.user1, 400_000_000, NOW + 10 * DAY);
    assert_eq!(first, Ok(None));
    let owed = engine.get_loan_status(ctx.user1, NOW + 20 * DAY).unwrap();
    let rest = owed.outstanding_balance + owed.accrued_interest;
    let last = engine.repay_loan(&mut custodian, ctx.user1, rest, NOW + 20 * DAY);
    let loan = loan_of(&engine, ctx.user1);
    let position = custodian.positions.get(&ctx.user1.id).unwrap();
    assert!(
        last == Ok(Some(Transfer {
            token: ctx.custody,
            from: ctx.custody,
            to: ctx.user1,
            amount: TEST_COLLATERAL_AMOUNT,
        })) && loan.state == LoanState::Repaid && loan.outstanding_balance == 0
            && loan.accrued_interest == 0 && loan.total_payments == 400_000_000 + rest
            && position.status == CollateralStatus::Released && position.loan_amount == 0
            && engine.get_global_stats().unwrap().active_loans == 0,
        "Complete loan lifecycle should work correctly"
    );
}

#[test]
fn unsecured_loan_for_high_score() {
    let ctx = TestContext::new();
    let mut engine = ctx.engine();
    let state = engine.request_loan(ctx.user1, 1_000_000_000, Some(85), NOW);
    assert_eq!(state, Ok(LoanState::Active));
    let loan = loan_of(&engine, ctx.user1);
    assert_eq!(loan.interest_rate, 400);
    assert_eq!(loan.loan_type, LoanType::Unsecured);
    assert_eq!(loan.due_at, loan.created_at + 90 * 86400);
    assert_eq!(loan.outstanding_balance, 1_000_000_000);
    assert_eq!(loan.required_collateral, 0);
    let stats = engine.get_global_stats().unwrap();
    assert_eq!(stats.total_loans, 1);
    assert_eq!(stats.active_loans, 1);
    assert_eq!(stats.total_amount_lent, 1_000_000_000);
}

#[test]
fn secured_loan_is_activated_by_exact_collateral() {
    let ctx = TestContext::new();
    let mut engine = ctx.engine();
    let mut custodian = ctx.custodian();
    let state = engine.request_loan(ctx.user1, 500_000_000, Some(60), NOW);
    assert_eq!(state, Ok(LoanState::CollateralRequired));
    let loan = loan_of(&engine, ctx.user1);
    assert_eq!(loan.required_collateral, 750_000_000);
    assert_eq!(loan.interest_rate, 450);
    assert_eq!(loan.state, LoanState::CollateralRequired);
    assert_eq!(loan.loan_type, LoanType::Collateralized);
    // A loan that waits for collateral is not lent yet.
    assert_eq!(engine.get_global_stats().unwrap().total_loans, 0);
    let locked = engine.provide_collateral(&mut custodian, ctx.user1, 750_000_000, NOW + 5);
    assert!(locked.is_ok());
    let loan = loan_of(&engine, ctx.user1);
    assert_eq!(loan.state, LoanState::Active);
    assert_eq!(loan.collateral_locked, 750_000_000);
    assert_eq!(loan.last_interest_calc, NOW + 5);
    let stats = engine.get_global_stats().unwrap();
    assert_eq!(stats.total_loans, 1);
    assert_eq!(stats.total_amount_lent, 500_000_000);
    let position = custodian.positions.get(&ctx.user1.id).unwrap();
    assert_eq!(position.locked_amount, 750_000_000);
    assert_eq!(position.loan_amount, 500_000_000);
    assert_eq!(position.status, CollateralStatus::Active);
}

#[test]
fn collateral_below_requirement_is_refused() {
    let ctx = TestContext::new();
    let mut engine = ctx.engine();
    let mut custodian = ctx.custodian();
    engine.request_loan(ctx.user1, 500_000_000, Some(60), NOW).unwrap();
    let refused = engine.provide_collateral(&mut custodian, ctx.user1, 749_999_999, NOW);
    assert_eq!(refused, Err(LoanError::CollateralInsufficient));
    assert_eq!(loan_of(&engine, ctx.user1).state, LoanState::CollateralRequired);
    assert_eq!(loan_of(&engine, ctx.user1).collateral_locked, 0);
    assert!(custodian.positions.get(&ctx.user1.id).is_none());
}

#[test]
fn rejected_request_owes_nothing() {
    let ctx = TestContext::new();
    let mut engine = ctx.engine();
    let state = engine.request_loan(ctx.user1, TEST_LOAN_AMOUNT, Some(49), NOW);
    assert_eq!(state, Ok(LoanState::Rejected));
    let loan = loan_of(&engine, ctx.user1);
    assert_eq!(loan.outstanding_balance, 0);
    assert_eq!(loan.principal, TEST_LOAN_AMOUNT);
    assert_eq!(loan.interest_rate, 0);
    assert_eq!(loan.due_at, 0);
    assert_eq!(engine.get_global_stats().unwrap().total_loans, 0);
    // A rejected account is terminal: the borrower may ask again.
    assert_eq!(engine.request_loan(ctx.user1, TEST_LOAN_AMOUNT, Some(90), NOW), Ok(LoanState::Active));
}

#[test]
fn request_is_refused_in_the_stated_order() {
    let ctx = TestContext::new();
    let mut bare = UltimateLoanContract::new();
    assert_eq!(
        bare.request_loan(ctx.user1, MIN_LOAN_AMOUNT - 1, None, NOW),
        Err(LoanError::InvalidAmount)
    );
    assert_eq!(
        bare.request_loan(ctx.user1, MAX_LOAN_AMOUNT + 1, Some(90), NOW),
        Err(LoanError::InvalidAmount)
    );
    assert_eq!(
        bare.request_loan(ctx.user1, MIN_LOAN_AMOUNT, Some(90), NOW),
        Err(LoanError::ContractNotInitialized)
    );
    let mut engine = ctx.engine();
    assert_eq!(
        engine.request_loan(ctx.user1, MAX_LOAN_AMOUNT, None, NOW),
        Err(LoanError::CrossContractCallFailed)
    );
    assert_eq!(engine.request_loan(ctx.user1, MAX_LOAN_AMOUNT, Some(55), NOW), Ok(LoanState::CollateralRequired));
    assert_eq!(
        engine.request_loan(ctx.user1, MIN_LOAN_AMOUNT, Some(90), NOW),
        Err(LoanError::LoanAlreadyExists)
    );
    assert_eq!(loan_of(&engine, ctx.user1).principal, MAX_LOAN_AMOUNT);
    assert_eq!(engine.pause_contract(ctx.admin), Ok(()));
    assert_eq!(
        engine.request_loan(ctx.user2, 0, Some(90), NOW),
        Err(LoanError::ContractPaused)
    );
}

#[test]
fn paused_engine_refuses_every_loan_operation() {
    let ctx = TestContext::new();
    let mut engine = ctx.engine();
    let mut custodian = ctx.custodian();
    engine.request_loan(ctx.user1, TEST_LOAN_AMOUNT, Some(85), NOW).unwrap();
    engine.request_loan(ctx.user2, TEST_LOAN_AMOUNT, Some(60), NOW).unwrap();
    assert_eq!(engine.pause_contract(ctx.user1), Err(LoanError::Unauthorized));
    assert_eq!(engine.pause_contract(ctx.admin), Ok(()));
    assert_eq!(
        engine.provide_collateral(&mut custodian, ctx.user2, TEST_COLLATERAL_AMOUNT, NOW),
        Err(LoanError::ContractPaused)
    );
    assert_eq!(
        engine.repay_loan(&mut custodian, ctx.user1, 1, NOW),
        Err(LoanError::ContractPaused)
    );
    assert_eq!(
        engine.liquidate(&mut custodian, ctx.user3, ctx.user1, NOW + 91 * DAY),
        Err(LoanError::ContractPaused)
    );
    let mut config: ContractConfig = engine.config.unwrap();
    config.paused = false;
    assert_eq!(engine.update_config(ctx.user1, config), Err(LoanError::Unauthorized));
    assert_eq!(engine.update_config(ctx.admin, config), Ok(()));
    assert_eq!(engine.repay_loan(&mut custodian, ctx.user1, 1, NOW), Ok(None));
}

#[test]
fn accrual_twice_at_one_time_changes_nothing() {
    let ctx = TestContext::new();
    let mut engine = ctx.engine();
    engine.request_loan(ctx.user1, TEST_LOAN_AMOUNT, Some(72), NOW).unwrap();
    let mut loan = loan_of(&engine, ctx.user1);
    let first = UltimateLoanContract::calculate_current_balance(&mut loan, NOW + 400 * DAY + 77);
    let after_first = loan;
    let second = UltimateLoanContract::calculate_current_balance(&mut loan, NOW + 400 * DAY + 77);
    assert_eq!(first, second);
    assert_eq!(loan, after_first);
    // 450 bps a year is 123 millionths a day.
    assert_eq!(loan.accrued_interest, 1_000_000_000 * 123 * 400 / 1_000_000);
    // A clock that runs back accrues nothing and moves nothing.
    let third = UltimateLoanContract::calculate_current_balance(&mut loan, NOW);
    assert_eq!(third, first);
    assert_eq!(loan, after_first);
}

#[test]
fn part_of_a_day_accrues_nothing() {
    let ctx = TestContext::new();
    let mut engine = ctx.engine();
    engine.request_loan(ctx.user1, TEST_LOAN_AMOUNT, Some(85), NOW).unwrap();
    let mut loan = loan_of(&engine, ctx.user1);
    let balance = UltimateLoanContract::calculate_current_balance(&mut loan, NOW + DAY - 1);
    assert_eq!(balance, Ok(TEST_LOAN_AMOUNT));
    assert_eq!(loan.accrued_interest, 0);
    assert_eq!(loan.last_interest_calc, NOW + DAY - 1);
}

#[test]
fn interest_bears_no_interest() {
    let ctx = TestContext::new();
    let mut engine = ctx.engine();
    engine.request_loan(ctx.user1, TEST_LOAN_AMOUNT, Some(85), NOW).unwrap();
    let mut loan = loan_of(&engine, ctx.user1);
    UltimateLoanContract::calculate_current_balance(&mut loan, NOW + 10 * DAY).unwrap();
    assert_eq!(loan.accrued_interest, 1_090_000);
    UltimateLoanContract::calculate_current_balance(&mut loan, NOW + 20 * DAY).unwrap();
    assert_eq!(loan.accrued_interest, 2_180_000);
    assert_eq!(loan.outstanding_balance, TEST_LOAN_AMOUNT);
}

#[test]
fn accrual_that_overflows_is_refused_and_changes_nothing() {
    let ctx = TestContext::new();
    let mut engine = ctx.engine();
    engine.request_loan(ctx.user1, TEST_LOAN_AMOUNT, Some(85), NOW).unwrap();
    let mut loan = loan_of(&engine, ctx.user1);
    loan.outstanding_balance = i128::MAX / 100;
    let before = loan;
    let r = UltimateLoanContract::calculate_current_balance(&mut loan, NOW + 5 * DAY);
    assert_eq!(r, Err(LoanError::InterestCalculationError));
    assert_eq!(loan, before);
    loan.outstanding_balance = 1;
    loan.accrued_interest = i128::MAX;
    let r = UltimateLoanContract::calculate_current_balance(&mut loan, NOW);
    assert_eq!(r, Err(LoanError::InterestCalculationError));
}

#[test]
fn payment_pays_interest_first() {
    let ctx = TestContext::new();
    let mut engine = ctx.engine();
    engine.request_loan(ctx.user1, TEST_LOAN_AMOUNT, Some(85), NOW).unwrap();
    let mut loan = loan_of(&engine, ctx.user1);
    loan.accrued_interest = 5_000;
    let record = UltimateLoanContract::process_payment(&mut loan, 3_000, NOW + 1).unwrap();
    assert_eq!(record.interest_portion, 3_000);
    assert_eq!(record.principal_portion, 0);
    assert_eq!(record.remaining_balance, TEST_LOAN_AMOUNT + 2_000);
    assert_eq!(record.paid_at, NOW + 1);
    assert_eq!(record.amount, 3_000);
    assert_eq!(loan.accrued_interest, 2_000);
    assert_eq!(loan.outstanding_balance, TEST_LOAN_AMOUNT);
    let record = UltimateLoanContract::process_payment(&mut loan, 3_000, NOW + 2).unwrap();
    assert_eq!(record.interest_portion, 2_000);
    assert_eq!(record.principal_portion, 1_000);
    assert_eq!(loan.accrued_interest, 0);
    assert_eq!(loan.outstanding_balance, TEST_LOAN_AMOUNT - 1_000);
    assert_eq!(loan.payment_count, 2);
    assert_eq!(loan.total_payments, 6_000);
}

#[test]
fn payments_out_of_range_are_refused() {
    let ctx = TestContext::new();
    let mut engine = ctx.engine();
    let mut custodian = ctx.custodian();
    engine.request_loan(ctx.user1, TEST_LOAN_AMOUNT, Some(85), NOW).unwrap();
    let before = loan_of(&engine, ctx.user1);
    assert_eq!(engine.repay_loan(&mut custodian, ctx.user1, 0, NOW + 10 * DAY), Err(LoanError::PaymentFailed));
    assert_eq!(engine.repay_loan(&mut custodian, ctx.user1, -5, NOW + 10 * DAY), Err(LoanError::PaymentFailed));
    assert_eq!(
        engine.repay_loan(&mut custodian, ctx.user1, TEST_LOAN_AMOUNT + 1_090_001, NOW + 10 * DAY),
        Err(LoanError::PaymentFailed)
    );
    // A refused payment leaves the account as it was, without the accrual.
    assert_eq!(loan_of(&engine, ctx.user1), before);
    assert_eq!(engine.repay_loan(&mut custodian, ctx.user2, 5, NOW), Err(LoanError::LoanNotFound));
    assert_eq!(
        engine.repay_loan(&mut custodian, ctx.user1, TEST_LOAN_AMOUNT + 1_090_000, NOW + 10 * DAY),
        Ok(None)
    );
    assert_eq!(loan_of(&engine, ctx.user1).state, LoanState::Repaid);
    assert_eq!(engine.repay_loan(&mut custodian, ctx.user1, 5, NOW + 10 * DAY), Err(LoanError::LoanNotFound));
}

#[test]
fn payments_add_up_and_balance_falls() {
    let ctx = TestContext::new();
    let mut engine = ctx.engine();
    let mut custodian = ctx.custodian();
    engine.request_loan(ctx.user1, TEST_LOAN_AMOUNT, Some(85), NOW).unwrap();
    let payments: [i128; 4] = [100_000_000, 250_000_000, 1, 649_999_999];
    let mut sum: i128 = 0;
    let at = NOW + DAY / 2;
    let mut owed = TEST_LOAN_AMOUNT;
    for amount in payments {
        assert_eq!(engine.repay_loan(&mut custodian, ctx.user1, amount, at), Ok(None));
        sum += amount;
        let loan = loan_of(&engine, ctx.user1);
        assert_eq!(loan.total_payments, sum);
        assert_eq!(loan.outstanding_balance + loan.accrued_interest, owed - amount);
        owed -= amount;
        assert_eq!(owed == 0, loan.state == LoanState::Repaid);
    }
    assert_eq!(owed, 0);
    assert_eq!(loan_of(&engine, ctx.user1).payment_count, 4);
}

#[test]
fn due_loan_with_healthy_collateral_is_not_seized() {
    let ctx = TestContext::new();
    let mut engine = ctx.engine();
    let mut custodian = ctx.custodian();
    engine.request_loan(ctx.user1, 500_000_000, Some(60), NOW).unwrap();
    engine.provide_collateral(&mut custodian, ctx.user1, 750_000_000, NOW).unwrap();
    let r = engine.liquidate(&mut custodian, ctx.user2, ctx.user1, NOW + 120 * DAY);
    assert_eq!(r, Err(LoanError::CrossContractCallFailed));
    assert_eq!(loan_of(&engine, ctx.user1).state, LoanState::Active);
    assert_eq!(custodian.positions.get(&ctx.user1.id).unwrap().status, CollateralStatus::Active);
}

#[test]
fn due_loan_with_collateral_at_risk_is_seized() {
    let ctx = TestContext::new();
    let mut engine = ctx.engine();
    let mut custodian = ctx.custodian();
    engine.request_loan(ctx.user1, 500_000_000, Some(60), NOW).unwrap();
    engine.provide_collateral(&mut custodian, ctx.user1, 750_000_000, NOW).unwrap();
    // At 0.8 USD the collateral is worth 60_000_000 against a loan of 500_000_000.
    custodian.update_asset_price(ctx.admin, "XLM".to_string(), 800_000, NOW + 1).unwrap();
    let early = engine.liquidate(&mut custodian, ctx.user2, ctx.user1, NOW + 120 * DAY - 1);
    assert_eq!(early, Err(LoanError::LoanNotFound));
    let r = engine.liquidate(&mut custodian, ctx.user2, ctx.user1, NOW + 120 * DAY);
    assert_eq!(
        r,
        Ok(Some(Transfer { token: ctx.custody, from: ctx.custody, to: ctx.user2, amount: 712_500_000 }))
    );
    assert_eq!(loan_of(&engine, ctx.user1).state, LoanState::Liquidated);
    let position = custodian.positions.get(&ctx.user1.id).unwrap();
    assert_eq!(position.status, CollateralStatus::Liquidated);
    assert_eq!(position.locked_amount, 0);
    assert_eq!(custodian.liquidations.len(), 1);
    // A liquidated loan takes no payment and no second liquidation.
    assert_eq!(
        engine.repay_loan(&mut custodian, ctx.user1, 5, NOW + 121 * DAY),
        Err(LoanError::LoanNotFound)
    );
    assert_eq!(
        engine.liquidate(&mut custodian, ctx.user2, ctx.user1, NOW + 121 * DAY),
        Err(LoanError::LoanNotFound)
    );
}

#[test]
fn failed_lock_leaves_loan_waiting() {
    let ctx = TestContext::new();
    let mut engine = ctx.engine();
    let mut custodian = ctx.custodian();
    engine.request_loan(ctx.user1, 500_000_000, Some(60), NOW).unwrap();
    custodian.emergency_pause(ctx.admin).unwrap();
    let r = engine.provide_collateral(&mut custodian, ctx.user1, 750_000_000, NOW);
    assert_eq!(r, Err(LoanError::CrossContractCallFailed));
    assert_eq!(loan_of(&engine, ctx.user1).state, LoanState::CollateralRequired);
    let mut unset = UltimateLoanContract::new();
    unset.loans.insert(ctx.user1.id, loan_of(&engine, ctx.user1));
    let r = unset.provide_collateral(&mut ctx.custodian(), ctx.user1, 750_000_000, NOW);
    assert_eq!(r, Err(LoanError::ContractNotInitialized));
    let r = engine.provide_collateral(&mut custodian, ctx.user2, 750_000_000, NOW);
    assert_eq!(r, Err(LoanError::LoanNotFound));
}

#[test]
fn loan_status_accrues_and_keeps_the_accrual() {
    let ctx = TestContext::new();
    let mut engine = ctx.engine();
    engine.request_loan(ctx.user1, TEST_LOAN_AMOUNT, Some(85), NOW).unwrap();
    let shown = engine.get_loan_status(ctx.user1, NOW + 30 * DAY).unwrap();
    assert_eq!(shown.accrued_interest, 3_270_000);
    assert_eq!(loan_of(&engine, ctx.user1), shown);
    assert_eq!(engine.get_loan_status(ctx.user2, NOW), Err(LoanError::LoanNotFound));
    assert_eq!(engine.is_due(ctx.user2, NOW), Err(LoanError::LoanNotFound));
}

#[test]
fn stand_in_score_follows_the_sequence() {
    let ctx = TestContext::new();
    let engine = ctx.engine();
    assert_eq!(engine.get_user_credit_score(0), Ok(30));
    assert_eq!(engine.get_user_credit_score(28), Ok(30));
    assert_eq!(engine.get_user_credit_score(29), Ok(30));
    assert_eq!(engine.get_user_credit_score(30), Ok(31));
    assert_eq!(engine.get_user_credit_score(99), Ok(100));
    assert_eq!(engine.get_user_credit_score(100), Ok(30));
    assert_eq!(engine.get_user_credit_score(4_294_967_295), Ok(96));
    assert_eq!(UltimateLoanContract::new().get_user_credit_score(50), Err(LoanError::ContractNotInitialized));
}

#[test]
fn loan_amount_limits() {
    assert_eq!(UltimateLoanContract::validate_loan_amount(MIN_LOAN_AMOUNT), Ok(()));
    assert_eq!(UltimateLoanContract::validate_loan_amount(MAX_LOAN_AMOUNT), Ok(()));
    assert_eq!(UltimateLoanContract::validate_loan_amount(999_999), Err(LoanError::InvalidAmount));
    assert_eq!(
        UltimateLoanContract::validate_loan_amount(1_000_000_000_001),
        Err(LoanError::InvalidAmount)
    );
    assert_eq!(UltimateLoanContract::validate_loan_amount(-1), Err(LoanError::InvalidAmount));
}

#[test]
fn administration_of_the_engine() {
    let ctx = TestContext::new();
    let engine = ctx.engine();
    assert_eq!(engine.cleanup_expired_loans(ctx.admin, NOW), Ok(()));
    assert_eq!(engine.cleanup_expired_loans(ctx.admin, 5), Ok(()));
    assert_eq!(engine.cleanup_expired_loans(ctx.user1, NOW), Err(LoanError::Unauthorized));
    let bare = UltimateLoanContract::new();
    assert_eq!(bare.cleanup_expired_loans(ctx.admin, NOW), Err(LoanError::Unauthorized));
    assert_eq!(bare.get_global_stats(), Err(LoanError::ContractNotInitialized));
    let mut bare = bare;
    assert_eq!(bare.pause_contract(ctx.admin), Err(LoanError::Unauthorized));
    bare.admin = Some(ctx.admin);
    assert_eq!(bare.pause_contract(ctx.admin), Err(LoanError::ContractNotInitialized));
    assert_eq!(LoanError::InvalidAmount.code(), 1);
    assert_eq!(LoanError::InterestCalculationError.code(), 14);
    assert_eq!(LoanError::ContractPaused.code(), 15);
}

#[test]
fn last_payment_waits_for_the_release() {
    let ctx = TestContext::new();
    let mut engine = ctx.engine();
    let mut custodian = ctx.custodian();
    engine.request_loan(ctx.user1, 500_000_000, Some(60), NOW).unwrap();
    engine.provide_collateral(&mut custodian, ctx.user1, 750_000_000, NOW).unwrap();
    custodian.emergency_pause(ctx.admin).unwrap();
    let before = loan_of(&engine, ctx.user1);
    // A payment in part needs no release and goes through.
    assert_eq!(engine.repay_loan(&mut custodian, ctx.user1, 100_000_000, NOW), Ok(None));
    // The last payment would release the collateral, which the custodian refuses.
    let r = engine.repay_loan(&mut custodian, ctx.user1, 400_000_000, NOW);
    assert_eq!(r, Err(LoanError::CrossContractCallFailed));
    let loan = loan_of(&engine, ctx.user1);
    assert_eq!(loan.state, LoanState::Active);
    assert_eq!(loan.outstanding_balance, before.outstanding_balance - 100_000_000);
    assert_eq!(loan.payment_count, 1);
    assert_eq!(custodian.positions.get(&ctx.user1.id).unwrap().status, CollateralStatus::Active);
    engine.collateral_contract = None;
    assert_eq!(
        engine.repay_loan(&mut custodian, ctx.user1, 400_000_000, NOW),
        Err(LoanError::ContractNotInitialized)
    );
    assert_eq!(
        engine.liquidate(&mut custodian, ctx.user2, ctx.user1, NOW + 120 * DAY),
        Err(LoanError::ContractNotInitialized)
    );
}

#[test]
fn borrowers_do_not_touch_each_other() {
    let ctx = TestContext::new();
    let mut engine = ctx.engine();
    let mut custodian = ctx.custodian();
    engine.request_loan(ctx.user1, TEST_LOAN_AMOUNT, Some(85), NOW).unwrap();
    engine.request_loan(ctx.user2, 500_000_000, Some(60), NOW).unwrap();
    let first = loan_of(&engine, ctx.user1);
    engine.provide_collateral(&mut custodian, ctx.user2, 750_000_000, NOW + 1).unwrap();
    engine.repay_loan(&mut custodian, ctx.user2, 5_000, NOW + 40 * DAY).unwrap();
    engine.get_loan_status(ctx.user2, NOW + 50 * DAY).unwrap();
    engine.request_loan(ctx.user3, TEST_LOAN_AMOUNT, Some(10), NOW).unwrap();
    assert_eq!(loan_of(&engine, ctx.user1), first);
    assert!(first.is_wf());
    assert!(loan_of(&engine, ctx.user2).is_wf());
    assert!(loan_of(&engine, ctx.user3).is_wf());
    let mut broken = first;
    broken.accrued_interest = -1;
    assert!(!broken.is_wf());
    assert_eq!(
        UltimateLoanContract::process_payment(&mut broken, 5, NOW),
        Err(LoanError::PaymentFailed)
    );
}
