//! The loan engine: it routes a request by credit score into an unsecured
//! loan, a loan against collateral or a rejection, accrues simple interest
//! on the principal, applies payments to interest first, and liquidates
//! loans that are past due. Where a loan is secured it drives the
//! [collateral custodian](crate::collateral).

use vstd::prelude::*;
use std::collections::HashMap;
use crate::types::{Address, Transfer, SECONDS_PER_DAY};
use crate::math::{clamp_i128, div_toward_zero, fits_i128, saturating_add_i128};
use crate::collateral::{CustodyState, UltimateCollateralContract};

verus! {

/// Score from which a loan is granted without collateral.
pub const UNSECURED_LOAN_THRESHOLD: u32 = 70;

/// Score from which a loan is granted against collateral.
pub const COLLATERAL_REQUIRED_THRESHOLD: u32 = 50;

/// Score under which a request is rejected.
pub const REJECTION_THRESHOLD: u32 = 50;

/// Largest amount that can be borrowed.
pub const MAX_LOAN_AMOUNT: i128 = 1_000_000_000_000;

/// Smallest amount that can be borrowed.
pub const MIN_LOAN_AMOUNT: i128 = 1_000_000;

/// Interest rate before any adjustment, in basis points a year.
pub const BASE_INTEREST_RATE: u32 = 500;

/// Longest term of a loan, in days.
pub const MAX_LOAN_DURATION_DAYS: u64 = 365;

/// Shortest term of a loan, in days.
pub const MIN_LOAN_DURATION_DAYS: u64 = 30;

/// Days of the year by which the yearly rate is divided.
pub const DAYS_PER_YEAR: u64 = 365;

/// Term of an unsecured loan, in days.
pub const UNSECURED_TERM_DAYS: u64 = 90;

/// Term of a loan against collateral, in days.
pub const COLLATERALIZED_TERM_DAYS: u64 = 120;

/// Collateral that a secured loan asks for, in percent of the amount.
pub const COLLATERAL_PERCENT: i128 = 150;

/// The latest time at which a loan can be requested: its due date has to
/// fit the clock.
pub const LATEST_REQUEST_TIME: u64 = 18_446_744_073_699_183_615;

/// Why the loan engine refused an operation.
#[derive(Clone, Copy, Debug, PartialEq, Eq, Structural)]
pub enum LoanError {
    InvalidAmount,
    InsufficientCreditScore,
    CollateralRequired,
    LoanNotFound,
    LoanAlreadyExists,
    Unauthorized,
    CollateralInsufficient,
    PaymentFailed,
    LoanOverdue,
    InvalidDuration,
    ContractNotInitialized,
    CrossContractCallFailed,
    LiquidationFailed,
    InterestCalculationError,
    /// The engine is paused; no loan can be opened, activated, repaid or
    /// liquidated.
    ContractPaused,
}

impl LoanError {
    /// The number of each error.
    pub open spec fn spec_code(&self) -> u32 {
        match self {
            LoanError::InvalidAmount => 1,
            LoanError::InsufficientCreditScore => 2,
            LoanError::CollateralRequired => 3,
            LoanError::LoanNotFound => 4,
            LoanError::LoanAlreadyExists => 5,
            LoanError::Unauthorized => 6,
            LoanError::CollateralInsufficient => 7,
            LoanError::PaymentFailed => 8,
            LoanError::LoanOverdue => 9,
            LoanError::InvalidDuration => 10,
            LoanError::ContractNotInitialized => 11,
            LoanError::CrossContractCallFailed => 12,
            LoanError::LiquidationFailed => 13,
            LoanError::InterestCalculationError => 14,
            LoanError::ContractPaused => 15,
        }
    }

    /// The number under which the error is reported to the host.
    pub fn code(&self) -> (c: u32)
        ensures
            1 <= c <= 15,
            c == self.spec_code(),
    {
        match self {
            LoanError::InvalidAmount => 1,
            LoanError::InsufficientCreditScore => 2,
            LoanError::CollateralRequired => 3,
            LoanError::LoanNotFound => 4,
            LoanError::LoanAlreadyExists => 5,
            LoanError::Unauthorized => 6,
            LoanError::CollateralInsufficient => 7,
            LoanError::PaymentFailed => 8,
            LoanError::LoanOverdue => 9,
            LoanError::InvalidDuration => 10,
            LoanError::ContractNotInitialized => 11,
            LoanError::CrossContractCallFailed => 12,
            LoanError::LiquidationFailed => 13,
            LoanError::InterestCalculationError => 14,
            LoanError::ContractPaused => 15,
        }
    }
}

/// Where a loan stands in its life.
#[derive(Clone, Copy, Debug, PartialEq, Eq, Structural)]
pub enum LoanState {
    /// Requested, not yet decided.
    Pending,
    /// Granted and running.
    Active,
    /// Paid back in full.
    Repaid,
    /// Past due and liquidated.
    Liquidated,
    /// Refused for a low credit score.
    Rejected,
    /// Granted once collateral is provided.
    CollateralRequired,
}

impl LoanState {
    /// A loan is open until it is repaid, liquidated or rejected.
    pub open spec fn is_open(&self) -> bool {
        *self == LoanState::Pending || *self == LoanState::Active || *self
            == LoanState::CollateralRequired
    }

    /// Whether the loan is still open.
    pub fn open(&self) -> (b: bool)
        ensures
            b == self.is_open(),
    {
        match self {
            LoanState::Pending => true,
            LoanState::Active => true,
            LoanState::CollateralRequired => true,
            _ => false,
        }
    }
}

/// Whether a loan is secured.
#[derive(Clone, Copy, Debug, PartialEq, Eq, Structural)]
pub enum LoanType {
    /// Granted on the credit score alone.
    Unsecured,
    /// Granted against collateral.
    Collateralized,
}

/// The account of one borrower.
#[derive(Clone, Copy, Debug, PartialEq, Eq)]
pub struct UltimateLoan {
    pub borrower: Address,
    /// Amount that was borrowed.
    pub principal: i128,
    /// Principal that is still owed.
    pub outstanding_balance: i128,
    /// Yearly interest rate, in basis points.
    pub interest_rate: u32,
    pub created_at: u64,
    pub duration_days: u64,
    /// Time from which the loan can be liquidated.
    pub due_at: u64,
    pub state: LoanState,
    pub loan_type: LoanType,
    /// Credit score of the borrower when the loan was requested.
    pub credit_score: u32,
    /// Collateral that the loan asks for.
    pub required_collateral: i128,
    /// Collateral that was locked for the loan.
    pub collateral_locked: i128,
    /// Interest that is owed; it bears no interest itself.
    pub accrued_interest: i128,
    /// Time up to which interest has been accrued.
    pub last_interest_calc: u64,
    /// Number of payments that were made.
    pub payment_count: u32,
    /// Sum of the payments that were made.
    pub total_payments: i128,
}

/// What a borrower asks for.
#[derive(Debug, PartialEq, Eq)]
pub struct LoanApplication {
    pub applicant: Address,
    pub amount: i128,
    pub duration_days: u64,
    pub applied_at: u64,
    pub purpose: String,
}

/// The terms that a credit score earns.
#[derive(Clone, Copy, Debug, PartialEq, Eq)]
pub struct RiskAssessment {
    pub credit_score: u32,
    pub interest_rate: u32,
    pub max_loan_amount: i128,
    pub collateral_required: bool,
    pub collateral_ratio: u32,
    pub assessed_at: u64,
}

/// How one payment was applied.
#[derive(Clone, Copy, Debug, PartialEq, Eq)]
pub struct PaymentRecord {
    pub amount: i128,
    pub paid_at: u64,
    /// Part of the payment that reduced the principal.
    pub principal_portion: i128,
    /// Part of the payment that paid interest.
    pub interest_portion: i128,
    /// Principal and interest that are owed after the payment.
    pub remaining_balance: i128,
}

/// Settings of the loan engine.
#[derive(Clone, Copy, Debug, PartialEq, Eq)]
pub struct ContractConfig {
    pub credit_score_contract: Address,
    pub collateral_contract: Address,
    pub base_interest_rate: u32,
    pub max_ltv_ratio: u32,
    pub liquidation_threshold: u32,
    pub paused: bool,
}

/// Running totals over all loans.
#[derive(Clone, Copy, Debug, PartialEq, Eq)]
pub struct GlobalLoanStats {
    pub total_loans: u64,
    pub total_amount_lent: i128,
    pub total_amount_repaid: i128,
    pub active_loans: u64,
    pub default_rate: u32,
    pub avg_interest_rate: u32,
}

/// An amount can be borrowed if it lies between the smallest and the largest
/// loan.
pub open spec fn valid_loan_amount(amount: i128) -> bool {
    MIN_LOAN_AMOUNT <= amount <= MAX_LOAN_AMOUNT
}

/// The yearly rate in basis points for a credit score.
///
/// The base rate of 500 is lowered by 100 from a score of 80 and by 50 from
/// a score of 70, kept from 60, raised by 100 from 50 and by 200 below. A
/// secured loan pays 50 less. The rate never falls below zero.
pub open spec fn risk_adjusted_rate(credit_score: u32, has_collateral: bool) -> int {
    let by_score: int = if credit_score >= 80 {
        BASE_INTEREST_RATE - 100
    } else if credit_score >= 70 {
        BASE_INTEREST_RATE - 50
    } else if credit_score >= 60 {
        BASE_INTEREST_RATE as int
    } else if credit_score >= 50 {
        BASE_INTEREST_RATE + 100
    } else {
        BASE_INTEREST_RATE + 200
    };
    if has_collateral {
        by_score - 50
    } else {
        by_score
    }
}

/// The collateral that a secured loan of `amount` asks for: one and a half
/// times the amount.
pub open spec fn required_collateral_for(amount: i128) -> int {
    div_toward_zero(amount * COLLATERAL_PERCENT, 100)
}

/// The rate of a day, scaled by a million, for a yearly rate in basis points.
pub open spec fn daily_rate(interest_rate: u32) -> int {
    (interest_rate * 1_000_000) / (DAYS_PER_YEAR * 10000)
}

/// Simple interest on `balance` over `days` whole days at the yearly rate.
pub open spec fn interest_due(balance: int, interest_rate: u32, days: int) -> int {
    div_toward_zero(balance * daily_rate(interest_rate) * days, 1_000_000)
}

/// The account of an unsecured loan granted at time `now`.
pub open spec fn unsecured_loan(user: Address, amount: i128, credit_score: u32, now: u64) -> UltimateLoan {
    UltimateLoan {
        borrower: user,
        principal: amount,
        outstanding_balance: amount,
        interest_rate: risk_adjusted_rate(credit_score, false) as u32,
        created_at: now,
        duration_days: UNSECURED_TERM_DAYS,
        due_at: (now + UNSECURED_TERM_DAYS * SECONDS_PER_DAY) as u64,
        state: LoanState::Active,
        loan_type: LoanType::Unsecured,
        credit_score: credit_score,
        required_collateral: 0,
        collateral_locked: 0,
        accrued_interest: 0,
        last_interest_calc: now,
        payment_count: 0,
        total_payments: 0,
    }
}

/// The account of a loan that waits for its collateral, opened at time `now`.
pub open spec fn collateralized_loan(user: Address, amount: i128, credit_score: u32, now: u64) -> UltimateLoan {
    UltimateLoan {
        borrower: user,
        principal: amount,
        outstanding_balance: amount,
        interest_rate: risk_adjusted_rate(credit_score, true) as u32,
        created_at: now,
        duration_days: COLLATERALIZED_TERM_DAYS,
        due_at: (now + COLLATERALIZED_TERM_DAYS * SECONDS_PER_DAY) as u64,
        state: LoanState::CollateralRequired,
        loan_type: LoanType::Collateralized,
        credit_score: credit_score,
        required_collateral: required_collateral_for(amount) as i128,
        collateral_locked: 0,
        accrued_interest: 0,
        last_interest_calc: now,
        payment_count: 0,
        total_payments: 0,
    }
}

/// The account that records a rejected request.
pub open spec fn rejected_loan(user: Address, amount: i128, credit_score: u32, now: u64) -> UltimateLoan {
    UltimateLoan {
        borrower: user,
        principal: amount,
        outstanding_balance: 0,
        interest_rate: 0,
        created_at: now,
        duration_days: 0,
        due_at: 0,
        state: LoanState::Rejected,
        loan_type: LoanType::Unsecured,
        credit_score: credit_score,
        required_collateral: 0,
        collateral_locked: 0,
        accrued_interest: 0,
        last_interest_calc: now,
        payment_count: 0,
        total_payments: 0,
    }
}

/// The account that a request of `amount` by a borrower with this score
/// opens: unsecured from a score of 70, against collateral from 50, rejected
/// below.
pub open spec fn originated(user: Address, amount: i128, credit_score: u32, now: u64) -> UltimateLoan {
    if credit_score >= UNSECURED_LOAN_THRESHOLD {
        unsecured_loan(user, amount, credit_score, now)
    } else if credit_score >= COLLATERAL_REQUIRED_THRESHOLD {
        collateralized_loan(user, amount, credit_score, now)
    } else {
        rejected_loan(user, amount, credit_score, now)
    }
}

/// The totals before any loan was recorded.
pub open spec fn empty_stats() -> GlobalLoanStats {
    GlobalLoanStats {
        total_loans: 0,
        total_amount_lent: 0,
        total_amount_repaid: 0,
        active_loans: 0,
        default_rate: 0,
        avg_interest_rate: BASE_INTEREST_RATE,
    }
}

/// The totals after a loan of `amount` became active (`is_new_loan`) or an
/// active loan ended. Counters stop at the ends of their range.
pub open spec fn stats_after(stats: Option<GlobalLoanStats>, amount: i128, is_new_loan: bool) -> GlobalLoanStats {
    let s = match stats {
        Some(s) => s,
        None => empty_stats(),
    };
    if is_new_loan {
        GlobalLoanStats {
            total_loans: if s.total_loans == u64::MAX {
                u64::MAX
            } else {
                (s.total_loans + 1) as u64
            },
            total_amount_lent: clamp_i128(s.total_amount_lent + amount) as i128,
            active_loans: if s.active_loans == u64::MAX {
                u64::MAX
            } else {
                (s.active_loans + 1) as u64
            },
            ..s
        }
    } else {
        GlobalLoanStats {
            active_loans: if s.active_loans == 0 {
                0
            } else {
                (s.active_loans - 1) as u64
            },
            ..s
        }
    }
}

impl UltimateLoan {
    /// The ledgers of a sound account are never negative; an open loan owes
    /// principal, a repaid or rejected one owes nothing.
    pub open spec fn wf(&self) -> bool {
        &&& self.outstanding_balance >= 0
        &&& self.accrued_interest >= 0
        &&& self.state.is_open() ==> self.outstanding_balance > 0
        &&& (self.state == LoanState::Repaid || self.state == LoanState::Rejected) ==> {
            &&& self.outstanding_balance == 0
            &&& self.accrued_interest == 0
        }
    }

    /// Whether the account is sound.
    pub fn is_wf(&self) -> (b: bool)
        ensures
            b == self.wf(),
    {
        self.outstanding_balance >= 0 && self.accrued_interest >= 0 && (!self.state.open()
            || self.outstanding_balance > 0) && (!(self.state == LoanState::Repaid || self.state
            == LoanState::Rejected) || (self.outstanding_balance == 0 && self.accrued_interest
            == 0))
    }

    /// Principal and interest that are owed.
    pub open spec fn balance(&self) -> int {
        self.outstanding_balance + self.accrued_interest
    }

    /// Whole days between the last accrual and `now`.
    pub open spec fn elapsed_days(&self, now: u64) -> int {
        if now > self.last_interest_calc {
            (now - self.last_interest_calc) / (SECONDS_PER_DAY as int)
        } else {
            0
        }
    }

    /// Interest that has run up between the last accrual and `now`: simple
    /// interest on the principal that is owed, for whole days only.
    pub open spec fn interest_until(&self, now: u64) -> int {
        interest_due(self.outstanding_balance as int, self.interest_rate, self.elapsed_days(now))
    }

    /// Whether interest can be accrued up to `now` with every quantity
    /// inside `i128`.
    pub open spec fn can_accrue(&self, now: u64) -> bool {
        if now <= self.last_interest_calc {
            fits_i128(self.balance())
        } else {
            &&& fits_i128(self.outstanding_balance * daily_rate(self.interest_rate))
            &&& fits_i128(
                self.outstanding_balance * daily_rate(self.interest_rate) * self.elapsed_days(now),
            )
            &&& fits_i128(self.accrued_interest + self.interest_until(now))
            &&& fits_i128(self.balance() + self.interest_until(now))
        }
    }

    /// The account with interest accrued up to `now`. Where no time has
    /// passed it is the account itself.
    pub open spec fn accrued(&self, now: u64) -> UltimateLoan {
        if now <= self.last_interest_calc {
            *self
        } else {
            UltimateLoan {
                accrued_interest: (self.accrued_interest + self.interest_until(now)) as i128,
                last_interest_calc: now,
                ..*self
            }
        }
    }

    /// A payment is accepted if it is positive and no more than what is
    /// owed. An account with a negative ledger, or one that owes more than an
    /// `i128` holds, accepts none.
    pub open spec fn accepts_payment(&self, amount: i128) -> bool {
        &&& self.outstanding_balance >= 0
        &&& self.accrued_interest >= 0
        &&& 0 < amount <= self.balance() <= i128::MAX
    }

    /// Part of a payment that goes to interest: all of it, up to the
    /// interest that is owed.
    pub open spec fn interest_portion(&self, amount: i128) -> int {
        if self.accrued_interest <= amount {
            self.accrued_interest as int
        } else {
            amount as int
        }
    }

    /// The account after a payment was applied, interest first.
    pub open spec fn after_payment(&self, amount: i128) -> UltimateLoan {
        let interest = self.interest_portion(amount);
        UltimateLoan {
            accrued_interest: (self.accrued_interest - interest) as i128,
            outstanding_balance: (self.outstanding_balance - (amount - interest)) as i128,
            total_payments: clamp_i128(self.total_payments + amount) as i128,
            payment_count: if self.payment_count == u32::MAX {
                u32::MAX
            } else {
                (self.payment_count + 1) as u32
            },
            ..*self
        }
    }

    /// The record of a payment applied at time `now`.
    pub open spec fn payment_record(&self, amount: i128, now: u64) -> PaymentRecord {
        let interest = self.interest_portion(amount);
        PaymentRecord {
            amount: amount,
            paid_at: now,
            principal_portion: (amount - interest) as i128,
            interest_portion: interest as i128,
            remaining_balance: (self.balance() - amount) as i128,
        }
    }

    /// The account marked as repaid once no principal is owed.
    pub open spec fn settled(&self) -> UltimateLoan {
        if self.outstanding_balance <= 0 {
            UltimateLoan { state: LoanState::Repaid, ..*self }
        } else {
            *self
        }
    }

    /// Whether a repayment of `amount` at time `now` is applied to the
    /// account.
    pub open spec fn can_repay(&self, amount: i128, now: u64) -> bool {
        &&& self.state == LoanState::Active
        &&& self.can_accrue(now)
        &&& self.accrued(now).accepts_payment(amount)
    }

    /// The account after a repayment of `amount` at time `now`: interest is
    /// accrued, the payment applied, and the loan marked as repaid once no
    /// principal is owed.
    pub open spec fn repaid(&self, amount: i128, now: u64) -> UltimateLoan {
        self.accrued(now).after_payment(amount).settled()
    }

    /// Whether collateral is locked for the loan.
    pub open spec fn holds_collateral(&self) -> bool {
        self.loan_type == LoanType::Collateralized && self.collateral_locked > 0
    }

    /// Whether the loan can be liquidated at time `now`: it is active and
    /// due.
    pub open spec fn is_overdue(&self, now: u64) -> bool {
        self.state == LoanState::Active && now >= self.due_at
    }
}

/// What the loan engine holds: a mathematical picture of its state.
pub struct LoanBook {
    pub admin: Option<Address>,
    pub config: Option<ContractConfig>,
    /// Address of the credit scorer.
    pub credit_score_contract: Option<Address>,
    /// Address of the collateral custodian.
    pub collateral_contract: Option<Address>,
    pub stats: Option<GlobalLoanStats>,
    /// Accounts by the borrower's identifier: one for each borrower.
    pub loans: Map<u64, UltimateLoan>,
}

impl LoanBook {
    /// The engine is paused once its settings say so.
    pub open spec fn is_paused(&self) -> bool {
        match self.config {
            Some(c) => c.paused,
            None => false,
        }
    }

    /// Whether `user` has a loan that is neither repaid, liquidated nor
    /// rejected.
    pub open spec fn has_open_loan(&self, user: Address) -> bool {
        self.loans.contains_key(user.id) && self.loans[user.id].state.is_open()
    }

    /// Why a request of `amount` by `user` is refused, if it is.
    /// `credit_score` is what the scorer answered, if it answered.
    pub open spec fn request_rejection(&self, user: Address, amount: i128, credit_score: Option<u32>) -> Option<
        LoanError,
    > {
        if self.is_paused() {
            Some(LoanError::ContractPaused)
        } else if !valid_loan_amount(amount) {
            Some(LoanError::InvalidAmount)
        } else if self.has_open_loan(user) {
            Some(LoanError::LoanAlreadyExists)
        } else if self.credit_score_contract is None {
            Some(LoanError::ContractNotInitialized)
        } else if credit_score is None {
            Some(LoanError::CrossContractCallFailed)
        } else {
            None
        }
    }

    /// The state after a request of `amount` by `user` with this score was
    /// recorded at time `now`. Only a loan that is active at once counts in
    /// the totals.
    pub open spec fn after_request(&self, user: Address, amount: i128, credit_score: u32, now: u64) -> LoanBook {
        LoanBook {
            loans: self.loans.insert(user.id, originated(user, amount, credit_score, now)),
            stats: if credit_score >= UNSECURED_LOAN_THRESHOLD {
                Some(stats_after(self.stats, amount, true))
            } else {
                self.stats
            },
            ..*self
        }
    }

    /// Why the custodian cannot be asked to lock `amount` for a loan of
    /// `loan_amount`, if it cannot.
    pub open spec fn lock_call_rejection(&self, custody: CustodyState, amount: i128, loan_amount: i128) -> Option<
        LoanError,
    > {
        if self.collateral_contract is None {
            Some(LoanError::ContractNotInitialized)
        } else if loan_amount <= 0 || !fits_i128(loan_amount * 10000) || custody.lock_rejection(
            custody.contract_address,
            amount,
        ) is Some {
            Some(LoanError::CrossContractCallFailed)
        } else {
            None
        }
    }

    /// Why the custodian cannot be asked to release the collateral of
    /// `user`, if it cannot.
    pub open spec fn unlock_call_rejection(&self, custody: CustodyState, user: Address) -> Option<LoanError> {
        if self.collateral_contract is None {
            Some(LoanError::ContractNotInitialized)
        } else if custody.unlock_rejection(user) is Some {
            Some(LoanError::CrossContractCallFailed)
        } else {
            None
        }
    }

    /// Why the custodian cannot be asked to seize the collateral of `user`
    /// at time `now`, if it cannot.
    pub open spec fn seize_call_rejection(&self, custody: CustodyState, user: Address, now: u64) -> Option<
        LoanError,
    > {
        if self.collateral_contract is None {
            Some(LoanError::ContractNotInitialized)
        } else if custody.liquidation_rejection(user, now) is Some {
            Some(LoanError::CrossContractCallFailed)
        } else {
            None
        }
    }

    /// Why providing `collateral_amount` for the loan of `user` is refused,
    /// if it is.
    pub open spec fn activation_rejection(&self, custody: CustodyState, user: Address, collateral_amount: i128) -> Option<
        LoanError,
    > {
        if self.is_paused() {
            Some(LoanError::ContractPaused)
        } else if !self.loans.contains_key(user.id) {
            Some(LoanError::LoanNotFound)
        } else if self.loans[user.id].state != LoanState::CollateralRequired {
            Some(LoanError::LoanNotFound)
        } else if collateral_amount < self.loans[user.id].required_collateral {
            Some(LoanError::CollateralInsufficient)
        } else {
            self.lock_call_rejection(custody, collateral_amount, self.loans[user.id].outstanding_balance)
        }
    }

    /// The state after the loan of `user` was activated at time `now`.
    pub open spec fn after_activation(&self, user: Address, collateral_amount: i128, now: u64) -> LoanBook {
        let loan = self.loans[user.id];
        LoanBook {
            loans: self.loans.insert(
                user.id,
                UltimateLoan {
                    state: LoanState::Active,
                    collateral_locked: collateral_amount,
                    last_interest_calc: now,
                    ..loan
                },
            ),
            stats: Some(stats_after(self.stats, loan.principal, true)),
            ..*self
        }
    }

    /// Whether a repayment of `amount` at time `now` pays the loan of `user`
    /// off and frees its collateral.
    pub open spec fn repayment_releases(&self, user: Address, amount: i128, now: u64) -> bool {
        let after = self.loans[user.id].repaid(amount, now);
        after.state == LoanState::Repaid && after.holds_collateral()
    }

    /// Why a repayment of `amount` by `user` at time `now` is refused, if it
    /// is.
    pub open spec fn repayment_rejection(&self, custody: CustodyState, user: Address, amount: i128, now: u64) -> Option<
        LoanError,
    > {
        if self.is_paused() {
            Some(LoanError::ContractPaused)
        } else if !self.loans.contains_key(user.id) {
            Some(LoanError::LoanNotFound)
        } else if self.loans[user.id].state != LoanState::Active {
            Some(LoanError::LoanNotFound)
        } else if !self.loans[user.id].can_accrue(now) {
            Some(LoanError::InterestCalculationError)
        } else if !self.loans[user.id].accrued(now).accepts_payment(amount) {
            Some(LoanError::PaymentFailed)
        } else if self.repayment_releases(user, amount, now) {
            self.unlock_call_rejection(custody, user)
        } else {
            None
        }
    }

    /// The state after a repayment of `amount` by `user` at time `now`. A
    /// loan that is paid off leaves the count of active loans.
    pub open spec fn after_repayment(&self, user: Address, amount: i128, now: u64) -> LoanBook {
        let after = self.loans[user.id].repaid(amount, now);
        LoanBook {
            loans: self.loans.insert(user.id, after),
            stats: if after.state == LoanState::Repaid {
                Some(stats_after(self.stats, 0, false))
            } else {
                self.stats
            },
            ..*self
        }
    }

    /// Why liquidating the loan of `borrower` at time `now` is refused, if
    /// it is.
    pub open spec fn liquidation_rejection(&self, custody: CustodyState, borrower: Address, now: u64) -> Option<
        LoanError,
    > {
        if self.is_paused() {
            Some(LoanError::ContractPaused)
        } else if !self.loans.contains_key(borrower.id) {
            Some(LoanError::LoanNotFound)
        } else if !self.loans[borrower.id].is_overdue(now) {
            Some(LoanError::LoanNotFound)
        } else if self.loans[borrower.id].holds_collateral() {
            self.seize_call_rejection(custody, borrower, now)
        } else {
            None
        }
    }

    /// The state after the loan of `borrower` was liquidated: the loan
    /// leaves the count of active loans.
    pub open spec fn after_liquidation(&self, borrower: Address) -> LoanBook {
        LoanBook {
            loans: self.loans.insert(
                borrower.id,
                UltimateLoan { state: LoanState::Liquidated, ..self.loans[borrower.id] },
            ),
            stats: Some(stats_after(self.stats, 0, false)),
            ..*self
        }
    }

    /// What reading the loan of `user` at time `now` shows: an active loan
    /// with its interest accrued where that can be computed, any other as it
    /// is kept.
    pub open spec fn status_of(&self, user: Address, now: u64) -> UltimateLoan {
        let loan = self.loans[user.id];
        if loan.state == LoanState::Active && loan.can_accrue(now) {
            loan.accrued(now)
        } else {
            loan
        }
    }
}

/// The loan engine.
pub struct UltimateLoanContract {
    pub admin: Option<Address>,
    pub config: Option<ContractConfig>,
    /// Address of the credit scorer.
    pub credit_score_contract: Option<Address>,
    /// Address of the collateral custodian.
    pub collateral_contract: Option<Address>,
    pub stats: Option<GlobalLoanStats>,
    /// Accounts by the borrower's identifier: one for each borrower.
    pub loans: HashMap<u64, UltimateLoan>,
}

impl View for UltimateLoanContract {
    type V = LoanBook;

    open spec fn view(&self) -> LoanBook {
        LoanBook {
            admin: self.admin,
            config: self.config,
            credit_score_contract: self.credit_score_contract,
            collateral_contract: self.collateral_contract,
            stats: self.stats,
            loans: self.loans@,
        }
    }
}

impl UltimateLoanContract {
    /// An engine that holds no loan and has not been set up.
    pub fn new() -> (c: Self)
        ensures
            c@ == (LoanBook {
                admin: None,
                config: None,
                credit_score_contract: None,
                collateral_contract: None,
                stats: None,
                loans: Map::empty(),
            }),
            c@.sound(),
    {
        UltimateLoanContract {
            admin: None,
            config: None,
            credit_score_contract: None,
            collateral_contract: None,
            stats: None,
            loans: HashMap::new(),
        }
    }

    /// Sets the engine up: `admin` governs it, the two collaborators are
    /// recorded, the default settings apply and the totals start at zero.
    /// Loans are kept.
    pub fn initialize(&mut self, admin: Address, credit_score_contract: Address, collateral_contract: Address) -> (r:
        Result<(), LoanError>)
        ensures
            r is Ok,
            final(self)@ == (LoanBook {
                admin: Some(admin),
                config: Some(
                    ContractConfig {
                        credit_score_contract: credit_score_contract,
                        collateral_contract: collateral_contract,
                        base_interest_rate: BASE_INTEREST_RATE,
                        max_ltv_ratio: 7500,
                        liquidation_threshold: 8000,
                        paused: false,
                    },
                ),
                credit_score_contract: Some(credit_score_contract),
                collateral_contract: Some(collateral_contract),
                stats: Some(empty_stats()),
                ..old(self)@
            }),
    {
        self.admin = Some(admin);
        self.config = Some(
            ContractConfig {
                credit_score_contract,
                collateral_contract,
                base_interest_rate: BASE_INTEREST_RATE,
                max_ltv_ratio: 7500,
                liquidation_threshold: 8000,
                paused: false,
            },
        );
        self.credit_score_contract = Some(credit_score_contract);
        self.collateral_contract = Some(collateral_contract);
        self.stats = Some(
            GlobalLoanStats {
                total_loans: 0,
                total_amount_lent: 0,
                total_amount_repaid: 0,
                active_loans: 0,
                default_rate: 0,
                avg_interest_rate: BASE_INTEREST_RATE,
            },
        );
        Ok(())
    }

    /// Whether the engine is paused.
    pub fn is_paused(&self) -> (b: bool)
        ensures
            b == self@.is_paused(),
    {
        match self.config {
            Some(c) => c.paused,
            None => false,
        }
    }

    /// Whether `caller` is the administrator.
    fn is_admin(&self, caller: Address) -> (b: bool)
        ensures
            b == (self@.admin == Some(caller)),
    {
        match self.admin {
            Some(a) => a == caller,
            None => false,
        }
    }

    /// Accepts an amount between the smallest and the largest loan.
    pub fn validate_loan_amount(amount: i128) -> (r: Result<(), LoanError>)
        ensures
            r is Ok <==> valid_loan_amount(amount),
            r is Err ==> r == Err::<(), LoanError>(LoanError::InvalidAmount),
    {
        if amount < MIN_LOAN_AMOUNT || amount > MAX_LOAN_AMOUNT {
            return Err(LoanError::InvalidAmount);
        }
        Ok(())
    }

    /// The yearly rate in basis points for a credit score, as
    /// [`risk_adjusted_rate`] states.
    pub fn calculate_risk_adjusted_rate(credit_score: u32, has_collateral: bool) -> (rate: u32)
        ensures
            rate == risk_adjusted_rate(credit_score, has_collateral),
    {
        let mut rate: u32 = BASE_INTEREST_RATE;
        if credit_score >= 80 {
            rate = rate.saturating_sub(100);
        } else if credit_score >= 70 {
            rate = rate.saturating_sub(50);
        } else if credit_score >= 60 {
        } else if credit_score >= 50 {
            rate = rate.saturating_add(100);
        } else {
            rate = rate.saturating_add(200);
        }
        if has_collateral {
            rate = rate.saturating_sub(50);
        }
        rate
    }

    /// The score that the engine assumes for a borrower while no scorer
    /// answers: it follows the ledger's sequence number through 1 to 100 and
    /// is never under 30. Fails while no scorer is recorded.
    pub fn get_user_credit_score(&self, sequence: u32) -> (r: Result<u32, LoanError>)
        ensures
            self@.credit_score_contract is None ==> r == Err::<u32, LoanError>(
                LoanError::ContractNotInitialized,
            ),
            self@.credit_score_contract is Some ==> r == Ok::<u32, LoanError>(
                if sequence % 100 + 1 < 30 {
                    30u32
                } else {
                    (sequence % 100 + 1) as u32
                },
            ),
    {
        if self.credit_score_contract.is_none() {
            return Err(LoanError::ContractNotInitialized);
        }
        let mock_score: u32 = (sequence % 100) + 1;
        if mock_score < 30 {
            Ok(30)
        } else {
            Ok(mock_score)
        }
    }

    /// Records in the totals that a loan of `amount` became active
    /// (`is_new_loan`) or that an active loan ended.
    pub fn update_global_stats(&mut self, amount: i128, is_new_loan: bool)
        ensures
            final(self)@ == (LoanBook {
                stats: Some(stats_after(old(self)@.stats, amount, is_new_loan)),
                ..old(self)@
            }),
    {
        let mut stats = match self.stats {
            Some(s) => s,
            None => GlobalLoanStats {
                total_loans: 0,
                total_amount_lent: 0,
                total_amount_repaid: 0,
                active_loans: 0,
                default_rate: 0,
                avg_interest_rate: BASE_INTEREST_RATE,
            },
        };
        if is_new_loan {
            stats.total_loans = stats.total_loans.saturating_add(1);
            stats.total_amount_lent = saturating_add_i128(stats.total_amount_lent, amount);
            stats.active_loans = stats.active_loans.saturating_add(1);
        } else {
            stats.active_loans = stats.active_loans.saturating_sub(1);
        }
        self.stats = Some(stats);
    }

    /// Opens an unsecured loan for `user`, active at once, and counts it in
    /// the totals.
    fn approve_unsecured_loan(&mut self, user: Address, amount: i128, credit_score: u32, now: u64) -> (r:
        Result<LoanState, LoanError>)
        requires
            now <= LATEST_REQUEST_TIME,
        ensures
            r == Ok::<LoanState, LoanError>(LoanState::Active),
            final(self)@ == (LoanBook {
                loans: old(self)@.loans.insert(user.id, unsecured_loan(user, amount, credit_score, now)),
                stats: Some(stats_after(old(self)@.stats, amount, true)),
                ..old(self)@
            }),
    {
        let duration_days: u64 = UNSECURED_TERM_DAYS;
        let interest_rate: u32 = Self::calculate_risk_adjusted_rate(credit_score, false);
        let loan = UltimateLoan {
            borrower: user,
            principal: amount,
            outstanding_balance: amount,
            interest_rate,
            created_at: now,
            duration_days,
            due_at: now + (duration_days * SECONDS_PER_DAY),
            state: LoanState::Active,
            loan_type: LoanType::Unsecured,
            credit_score,
            required_collateral: 0,
            collateral_locked: 0,
            accrued_interest: 0,
            last_interest_calc: now,
            payment_count: 0,
            total_payments: 0,
        };
        self.loans.insert(user.id, loan);
        self.update_global_stats(amount, true);
        Ok(LoanState::Active)
    }

    /// Opens a loan for `user` that waits for collateral of one and a half
    /// times the amount.
    fn require_collateral_loan(&mut self, user: Address, amount: i128, credit_score: u32, now: u64) -> (r:
        Result<LoanState, LoanError>)
        requires
            now <= LATEST_REQUEST_TIME,
            valid_loan_amount(amount),
        ensures
            r == Ok::<LoanState, LoanError>(LoanState::CollateralRequired),
            final(self)@ == (LoanBook {
                loans: old(self)@.loans.insert(
                    user.id,
                    collateralized_loan(user, amount, credit_score, now),
                ),
                ..old(self)@
            }),
    {
        let duration_days: u64 = COLLATERALIZED_TERM_DAYS;
        let required_collateral: i128 = (amount * COLLATERAL_PERCENT) / 100;
        let interest_rate: u32 = Self::calculate_risk_adjusted_rate(credit_score, true);
        let loan = UltimateLoan {
            borrower: user,
            principal: amount,
            outstanding_balance: amount,
            interest_rate,
            created_at: now,
            duration_days,
            due_at: now + (duration_days * SECONDS_PER_DAY),
            state: LoanState::CollateralRequired,
            loan_type: LoanType::Collateralized,
            credit_score,
            required_collateral,
            collateral_locked: 0,
            accrued_interest: 0,
            last_interest_calc: now,
            payment_count: 0,
            total_payments: 0,
        };
        self.loans.insert(user.id, loan);
        Ok(LoanState::CollateralRequired)
    }

    /// Records that the request of `user` was rejected.
    fn reject_loan(&mut self, user: Address, amount: i128, credit_score: u32, now: u64) -> (r: Result<
        LoanState,
        LoanError,
    >)
        ensures
            r == Ok::<LoanState, LoanError>(LoanState::Rejected),
            final(self)@ == (LoanBook {
                loans: old(self)@.loans.insert(user.id, rejected_loan(user, amount, credit_score, now)),
                ..old(self)@
            }),
    {
        let loan = UltimateLoan {
            borrower: user,
            principal: amount,
            outstanding_balance: 0,
            interest_rate: 0,
            created_at: now,
            duration_days: 0,
            due_at: 0,
            state: LoanState::Rejected,
            loan_type: LoanType::Unsecured,
            credit_score,
            required_collateral: 0,
            collateral_locked: 0,
            accrued_interest: 0,
            last_interest_calc: now,
            payment_count: 0,
            total_payments: 0,
        };
        self.loans.insert(user.id, loan);
        Ok(LoanState::Rejected)
    }

    /// Decides on a request of `amount` by `user`. `credit_score` is what
    /// the credit scorer answered for `user`, or nothing if it failed.
    ///
    /// The request is refused while the engine is paused, for an amount out
    /// of range, while `user` has an open loan, while no scorer is recorded,
    /// and when the scorer failed. Else the account that [`originated`]
    /// describes replaces any earlier one of `user`, and its state is
    /// returned: active from a score of 70, waiting for collateral from 50,
    /// rejected below. On an error nothing changes.
    ///
    /// The engine keeps the books only: paying the amount out to the
    /// borrower of a loan that has become active is the host's part.
    pub fn request_loan(&mut self, user: Address, amount: i128, credit_score: Option<u32>, now: u64) -> (r:
        Result<LoanState, LoanError>)
        requires
            now <= LATEST_REQUEST_TIME,
        ensures
            r is Err <==> old(self)@.request_rejection(user, amount, credit_score) is Some,
            r matches Err(e) ==> {
                &&& Some(e) == old(self)@.request_rejection(user, amount, credit_score)
                &&& final(self)@ == old(self)@
            },
            r matches Ok(state) ==> {
                &&& credit_score matches Some(score)
                &&& state == originated(user, amount, score, now).state
                &&& final(self)@ == old(self)@.after_request(user, amount, score, now)
            },
            old(self)@.sound() ==> final(self)@.sound(),
    {
        if self.is_paused() {
            return Err(LoanError::ContractPaused);
        }
        match Self::validate_loan_amount(amount) {
            Ok(()) => {},
            Err(e) => {
                return Err(e);
            },
        }
        match self.loans.get(&user.id) {
            Some(existing_loan) => {
                if existing_loan.state.open() {
                    return Err(LoanError::LoanAlreadyExists);
                }
            },
            None => {},
        }
        if self.credit_score_contract.is_none() {
            return Err(LoanError::ContractNotInitialized);
        }
        let score: u32 = match credit_score {
            Some(s) => s,
            None => {
                return Err(LoanError::CrossContractCallFailed);
            },
        };
        proof {
            if old(self)@.sound() {
                lemma_request_keeps_book_sound(old(self)@, user, amount, score, now);
            }
        }
        if score >= UNSECURED_LOAN_THRESHOLD {
            self.approve_unsecured_loan(user, amount, score, now)
        } else if score >= COLLATERAL_REQUIRED_THRESHOLD {
            self.require_collateral_loan(user, amount, score, now)
        } else {
            self.reject_loan(user, amount, score, now)
        }
    }

    /// Accrues interest on `loan` up to `now` and returns what is owed.
    ///
    /// Interest is simple interest on the principal that is owed, for the
    /// whole days since the last accrual. Where no time has passed the loan
    /// is left as it is. Where a quantity leaves `i128` the accrual fails
    /// with `InterestCalculationError` and the loan is left as it is.
    pub fn calculate_current_balance(loan: &mut UltimateLoan, now: u64) -> (r: Result<i128, LoanError>)
        ensures
            r is Ok <==> old(loan).can_accrue(now),
            r matches Ok(balance) ==> {
                &&& *final(loan) == old(loan).accrued(now)
                &&& balance == final(loan).balance()
            },
            r matches Err(e) ==> {
                &&& e == LoanError::InterestCalculationError
                &&& *final(loan) == *old(loan)
            },
            final(loan).last_interest_calc >= old(loan).last_interest_calc,
    {
        let time_elapsed: u64 = now.saturating_sub(loan.last_interest_calc);
        if time_elapsed == 0 {
            return match loan.outstanding_balance.checked_add(loan.accrued_interest) {
                Some(balance) => Ok(balance),
                None => Err(LoanError::InterestCalculationError),
            };
        }
        let days_elapsed: u64 = time_elapsed / SECONDS_PER_DAY;
        let daily_rate: i128 = (loan.interest_rate as i128) * 1_000_000 / (DAYS_PER_YEAR as i128
            * 10000);
        let per_day: i128 = match loan.outstanding_balance.checked_mul(daily_rate) {
            Some(x) => x,
            None => {
                return Err(LoanError::InterestCalculationError);
            },
        };
        let scaled: i128 = match per_day.checked_mul(days_elapsed as i128) {
            Some(x) => x,
            None => {
                return Err(LoanError::InterestCalculationError);
            },
        };
        let interest: i128 = scaled / 1_000_000;
        let accrued_interest: i128 = match loan.accrued_interest.checked_add(interest) {
            Some(x) => x,
            None => {
                return Err(LoanError::InterestCalculationError);
            },
        };
        let balance: i128 = match loan.outstanding_balance.checked_add(accrued_interest) {
            Some(x) => x,
            None => {
                return Err(LoanError::InterestCalculationError);
            },
        };
        loan.accrued_interest = accrued_interest;
        loan.last_interest_calc = now;
        Ok(balance)
    }

    /// Applies a payment to `loan`: to the interest that is owed first, the
    /// rest to the principal.
    ///
    /// The payment has to be positive and no more than what is owed; else it
    /// fails with `PaymentFailed` and the loan is left as it is. On success
    /// the record says how the payment was split.
    pub fn process_payment(loan: &mut UltimateLoan, payment_amount: i128, now: u64) -> (r: Result<
        PaymentRecord,
        LoanError,
    >)
        ensures
            r is Ok <==> old(loan).accepts_payment(payment_amount),
            r matches Ok(record) ==> {
                &&& *final(loan) == old(loan).after_payment(payment_amount)
                &&& record == old(loan).payment_record(payment_amount, now)
            },
            r matches Err(e) ==> {
                &&& e == LoanError::PaymentFailed
                &&& *final(loan) == *old(loan)
            },
    {
        if loan.outstanding_balance < 0 || loan.accrued_interest < 0 || payment_amount <= 0 {
            return Err(LoanError::PaymentFailed);
        }
        let owed: i128 = match loan.outstanding_balance.checked_add(loan.accrued_interest) {
            Some(x) => x,
            None => {
                return Err(LoanError::PaymentFailed);
            },
        };
        if payment_amount > owed {
            return Err(LoanError::PaymentFailed);
        }
        let interest_portion: i128 = if loan.accrued_interest <= payment_amount {
            loan.accrued_interest
        } else {
            payment_amount
        };
        let principal_portion: i128 = payment_amount - interest_portion;
        loan.accrued_interest = loan.accrued_interest - interest_portion;
        loan.outstanding_balance = loan.outstanding_balance - principal_portion;
        loan.total_payments = saturating_add_i128(loan.total_payments, payment_amount);
        loan.payment_count = loan.payment_count.saturating_add(1);
        Ok(
            PaymentRecord {
                amount: payment_amount,
                paid_at: now,
                principal_portion,
                interest_portion,
                remaining_balance: loan.outstanding_balance + loan.accrued_interest,
            },
        )
    }

    /// Asks the custodian to lock `amount` of the native asset for `user`
    /// and to attach a loan of `loan_amount` to the position.
    fn call_collateral_contract_lock(
        &self,
        custodian: &mut UltimateCollateralContract,
        user: Address,
        amount: i128,
        loan_amount: i128,
        now: u64,
    ) -> (r: Result<Transfer, LoanError>)
        ensures
            r is Err <==> self@.lock_call_rejection(old(custodian)@, amount, loan_amount) is Some,
            r matches Err(e) ==> {
                &&& Some(e) == self@.lock_call_rejection(old(custodian)@, amount, loan_amount)
                &&& final(custodian)@ == old(custodian)@
            },
            r matches Ok(t) ==> {
                let native = old(custodian)@.contract_address;
                &&& t == old(custodian)@.lock_transfer(user, native, amount)
                &&& final(custodian)@ == old(custodian)@.after_lock(user, native, amount, now).after_attach(
                    user,
                    loan_amount,
                )
            },
    {
        if self.collateral_contract.is_none() {
            return Err(LoanError::ContractNotInitialized);
        }
        if loan_amount <= 0 || loan_amount > i128::MAX / 10000 {
            return Err(LoanError::CrossContractCallFailed);
        }
        let native = custodian.contract_address;
        let transfer = match custodian.lock_collateral(user, native, amount, now) {
            Ok(t) => t,
            Err(_) => {
                return Err(LoanError::CrossContractCallFailed);
            },
        };
        match custodian.set_loan_amount(user, loan_amount) {
            Ok(()) => Ok(transfer),
            Err(_) => {
                proof {
                    assert(false);
                }
                Err(LoanError::CrossContractCallFailed)
            },
        }
    }

    /// Asks the custodian to release the collateral of `user`.
    fn call_collateral_contract_unlock(&self, custodian: &mut UltimateCollateralContract, user: Address) -> (r:
        Result<Transfer, LoanError>)
        ensures
            r is Err <==> self@.unlock_call_rejection(old(custodian)@, user) is Some,
            r matches Err(e) ==> {
                &&& Some(e) == self@.unlock_call_rejection(old(custodian)@, user)
                &&& final(custodian)@ == old(custodian)@
            },
            r matches Ok(t) ==> {
                &&& t == old(custodian)@.unlock_transfer(user)
                &&& final(custodian)@ == old(custodian)@.after_unlock(user)
            },
    {
        if self.collateral_contract.is_none() {
            return Err(LoanError::ContractNotInitialized);
        }
        match custodian.unlock_collateral(user) {
            Ok(t) => Ok(t),
            Err(_) => Err(LoanError::CrossContractCallFailed),
        }
    }

    /// Asks the custodian to seize the collateral of `user` for `caller`.
    fn call_collateral_contract_liquidate(
        &self,
        custodian: &mut UltimateCollateralContract,
        caller: Address,
        user: Address,
        now: u64,
    ) -> (r: Result<Transfer, LoanError>)
        ensures
            r is Err <==> self@.seize_call_rejection(old(custodian)@, user, now) is Some,
            r matches Err(e) ==> {
                &&& Some(e) == self@.seize_call_rejection(old(custodian)@, user, now)
                &&& final(custodian)@ == old(custodian)@
            },
            r matches Ok(t) ==> {
                &&& t == old(custodian)@.liquidation_transfer(caller, user, now)
                &&& final(custodian)@ == old(custodian)@.after_liquidation(caller, user, now)
            },
    {
        if self.collateral_contract.is_none() {
            return Err(LoanError::ContractNotInitialized);
        }
        match custodian.liquidate(caller, user, now) {
            Ok(t) => Ok(t),
            Err(_) => Err(LoanError::CrossContractCallFailed),
        }
    }

    /// Provides `collateral_amount` for the loan of `user` and activates it.
    ///
    /// The loan has to wait for collateral, and the amount has to cover what
    /// the loan asks for. The custodian locks the amount in the native asset
    /// and attaches the loan to the position; only then the loan becomes
    /// active, with interest running from `now`, and counts in the totals.
    /// The result is the movement of the collateral into custody. On an
    /// error neither the engine nor the custodian changes.
    pub fn provide_collateral(
        &mut self,
        custodian: &mut UltimateCollateralContract,
        user: Address,
        collateral_amount: i128,
        now: u64,
    ) -> (r: Result<Transfer, LoanError>)
        ensures
            r is Err <==> old(self)@.activation_rejection(old(custodian)@, user, collateral_amount)
                is Some,
            r matches Err(e) ==> {
                &&& Some(e) == old(self)@.activation_rejection(old(custodian)@, user, collateral_amount)
                &&& final(self)@ == old(self)@
                &&& final(custodian)@ == old(custodian)@
            },
            r matches Ok(t) ==> {
                let native = old(custodian)@.contract_address;
                &&& t == old(custodian)@.lock_transfer(user, native, collateral_amount)
                &&& final(self)@ == old(self)@.after_activation(user, collateral_amount, now)
                &&& final(custodian)@ == old(custodian)@.after_lock(
                    user,
                    native,
                    collateral_amount,
                    now,
                ).after_attach(user, old(self)@.loans[user.id].outstanding_balance)
            },
            old(self)@.sound() ==> final(self)@.sound(),
            old(custodian)@.sound() ==> final(custodian)@.sound(),
    {
        if self.is_paused() {
            return Err(LoanError::ContractPaused);
        }
        let mut loan = match self.loans.get(&user.id) {
            Some(l) => *l,
            None => {
                return Err(LoanError::LoanNotFound);
            },
        };
        if loan.state != LoanState::CollateralRequired {
            return Err(LoanError::LoanNotFound);
        }
        if collateral_amount < loan.required_collateral {
            return Err(LoanError::CollateralInsufficient);
        }
        let transfer = match self.call_collateral_contract_lock(
            custodian,
            user,
            collateral_amount,
            loan.outstanding_balance,
            now,
        ) {
            Ok(t) => t,
            Err(e) => {
                return Err(e);
            },
        };
        loan.state = LoanState::Active;
        loan.collateral_locked = collateral_amount;
        loan.last_interest_calc = now;
        self.loans.insert(user.id, loan);
        self.update_global_stats(loan.principal, true);
        proof {
            if old(self)@.sound() {
                lemma_operations_keep_book_sound(old(self)@, user, collateral_amount, now);
            }
        }
        Ok(transfer)
    }

    /// Applies a payment of `amount` to the loan of `user`.
    ///
    /// The loan has to be active. Interest is accrued up to `now`; the
    /// payment has to be positive and no more than what is then owed. It
    /// pays interest first, then principal. Once no principal is owed the
    /// loan is repaid: it leaves the count of active loans, and where
    /// collateral is locked for it the custodian releases it; the result is
    /// then the movement of the collateral back to `user`. On an error
    /// neither the engine nor the custodian changes.
    pub fn repay_loan(
        &mut self,
        custodian: &mut UltimateCollateralContract,
        user: Address,
        amount: i128,
        now: u64,
    ) -> (r: Result<Option<Transfer>, LoanError>)
        ensures
            r is Err <==> old(self)@.repayment_rejection(old(custodian)@, user, amount, now)
                is Some,
            r matches Err(e) ==> {
                &&& Some(e) == old(self)@.repayment_rejection(old(custodian)@, user, amount, now)
                &&& final(self)@ == old(self)@
                &&& final(custodian)@ == old(custodian)@
            },
            r matches Ok(release) ==> {
                &&& old(self)@.loans[user.id].can_repay(amount, now)
                &&& final(self)@ == old(self)@.after_repayment(user, amount, now)
                &&& if old(self)@.repayment_releases(user, amount, now) {
                    &&& release == Some(old(custodian)@.unlock_transfer(user))
                    &&& final(custodian)@ == old(custodian)@.after_unlock(user)
                } else {
                    &&& release is None
                    &&& final(custodian)@ == old(custodian)@
                }
            },
            old(self)@.sound() ==> final(self)@.sound(),
            old(custodian)@.sound() ==> final(custodian)@.sound(),
    {
        if self.is_paused() {
            return Err(LoanError::ContractPaused);
        }
        let mut loan = match self.loans.get(&user.id) {
            Some(l) => *l,
            None => {
                return Err(LoanError::LoanNotFound);
            },
        };
        if loan.state != LoanState::Active {
            return Err(LoanError::LoanNotFound);
        }
        match Self::calculate_current_balance(&mut loan, now) {
            Ok(_) => {},
            Err(e) => {
                return Err(e);
            },
        }
        match Self::process_payment(&mut loan, amount, now) {
            Ok(_) => {},
            Err(e) => {
                return Err(e);
            },
        }
        let mut release: Option<Transfer> = None;
        if loan.outstanding_balance <= 0 {
            loan.state = LoanState::Repaid;
            if loan.loan_type == LoanType::Collateralized && loan.collateral_locked > 0 {
                match self.call_collateral_contract_unlock(custodian, user) {
                    Ok(t) => {
                        release = Some(t);
                    },
                    Err(e) => {
                        return Err(e);
                    },
                }
            }
            self.update_global_stats(0, false);
        }
        self.loans.insert(user.id, loan);
        proof {
            if old(self)@.sound() {
                lemma_operations_keep_book_sound(old(self)@, user, amount, now);
            }
        }
        Ok(release)
    }

    /// The loan of `user` as it stands at time `now`.
    ///
    /// Interest on an active loan is accrued up to `now`, and the accrued
    /// account is also what the engine keeps from then on. Where the interest
    /// cannot be computed the loan is shown as it is kept.
    pub fn get_loan_status(&mut self, user: Address, now: u64) -> (r: Result<UltimateLoan, LoanError>)
        ensures
            !old(self)@.loans.contains_key(user.id) ==> {
                &&& r == Err::<UltimateLoan, LoanError>(LoanError::LoanNotFound)
                &&& final(self)@ == old(self)@
            },
            old(self)@.loans.contains_key(user.id) ==> {
                &&& r == Ok::<UltimateLoan, LoanError>(old(self)@.status_of(user, now))
                &&& final(self)@ == (LoanBook {
                    loans: old(self)@.loans.insert(user.id, old(self)@.status_of(user, now)),
                    ..old(self)@
                })
            },
            old(self)@.sound() ==> final(self)@.sound(),
    {
        let mut loan = match self.loans.get(&user.id) {
            Some(l) => *l,
            None => {
                return Err(LoanError::LoanNotFound);
            },
        };
        if loan.state == LoanState::Active {
            let _ = Self::calculate_current_balance(&mut loan, now);
        }
        self.loans.insert(user.id, loan);
        proof {
            if old(self)@.sound() {
                lemma_operations_keep_book_sound(old(self)@, user, 0, now);
                assert forall|id: u64| #[trigger] self@.loans.contains_key(id) implies self@.loans[id].wf()
                    && self@.loans[id].borrower.id == id by {
                    if id != user.id {
                        assert(old(self)@.loans.contains_key(id));
                    }
                }
            }
        }
        Ok(loan)
    }

    /// Whether the loan of `user` can be liquidated at time `now`: it is
    /// active and its due date has come.
    pub fn is_due(&self, user: Address, now: u64) -> (r: Result<bool, LoanError>)
        ensures
            !self@.loans.contains_key(user.id) ==> r == Err::<bool, LoanError>(
                LoanError::LoanNotFound,
            ),
            self@.loans.contains_key(user.id) ==> r == Ok::<bool, LoanError>(
                self@.loans[user.id].is_overdue(now),
            ),
    {
        let loan = match self.loans.get(&user.id) {
            Some(l) => *l,
            None => {
                return Err(LoanError::LoanNotFound);
            },
        };
        if loan.state != LoanState::Active {
            return Ok(false);
        }
        Ok(now >= loan.due_at)
    }

    /// Liquidates the loan of `borrower` on behalf of `caller`.
    ///
    /// The loan has to be active and due. Where collateral is locked for it
    /// the custodian seizes it for `caller`; the result is then the movement
    /// of the seized collateral. The loan is left liquidated and leaves the
    /// count of active loans. On an error neither the engine nor the
    /// custodian changes.
    pub fn liquidate(
        &mut self,
        custodian: &mut UltimateCollateralContract,
        caller: Address,
        borrower: Address,
        now: u64,
    ) -> (r: Result<Option<Transfer>, LoanError>)
        ensures
            r is Err <==> old(self)@.liquidation_rejection(old(custodian)@, borrower, now) is Some,
            r matches Err(e) ==> {
                &&& Some(e) == old(self)@.liquidation_rejection(old(custodian)@, borrower, now)
                &&& final(self)@ == old(self)@
                &&& final(custodian)@ == old(custodian)@
            },
            r matches Ok(seized) ==> {
                &&& old(self)@.loans.contains_key(borrower.id)
                &&& old(self)@.loans[borrower.id].state == LoanState::Active
                &&& now >= old(self)@.loans[borrower.id].due_at
                &&& final(self)@ == old(self)@.after_liquidation(borrower)
                &&& if old(self)@.loans[borrower.id].holds_collateral() {
                    &&& seized == Some(old(custodian)@.liquidation_transfer(caller, borrower, now))
                    &&& final(custodian)@ == old(custodian)@.after_liquidation(caller, borrower, now)
                } else {
                    &&& seized is None
                    &&& final(custodian)@ == old(custodian)@
                }
            },
            old(self)@.sound() ==> final(self)@.sound(),
            old(custodian)@.sound() ==> final(custodian)@.sound(),
    {
        if self.is_paused() {
            return Err(LoanError::ContractPaused);
        }
        let mut loan = match self.loans.get(&borrower.id) {
            Some(l) => *l,
            None => {
                return Err(LoanError::LoanNotFound);
            },
        };
        if loan.state != LoanState::Active || now < loan.due_at {
            return Err(LoanError::LoanNotFound);
        }
        let mut seized: Option<Transfer> = None;
        if loan.loan_type == LoanType::Collateralized && loan.collateral_locked > 0 {
            match self.call_collateral_contract_liquidate(custodian, caller, borrower, now) {
                Ok(t) => {
                    seized = Some(t);
                },
                Err(e) => {
                    return Err(e);
                },
            }
        }
        loan.state = LoanState::Liquidated;
        self.loans.insert(borrower.id, loan);
        self.update_global_stats(0, false);
        proof {
            if old(self)@.sound() {
                lemma_operations_keep_book_sound(old(self)@, borrower, 0, now);
            }
        }
        Ok(seized)
    }

    /// The running totals, once the engine has been set up or a loan was
    /// recorded.
    pub fn get_global_stats(&self) -> (r: Result<GlobalLoanStats, LoanError>)
        ensures
            match self@.stats {
                Some(s) => r == Ok::<GlobalLoanStats, LoanError>(s),
                None => r == Err::<GlobalLoanStats, LoanError>(LoanError::ContractNotInitialized),
            },
    {
        match self.stats {
            Some(s) => Ok(s),
            None => Err(LoanError::ContractNotInitialized),
        }
    }

    /// Replaces the settings. Only the administrator may do so.
    pub fn update_config(&mut self, caller: Address, config: ContractConfig) -> (r: Result<(), LoanError>)
        ensures
            r is Ok <==> old(self)@.admin == Some(caller),
            r is Err ==> r == Err::<(), LoanError>(LoanError::Unauthorized) && final(self)@ == old(
                self,
            )@,
            r is Ok ==> final(self)@ == (LoanBook { config: Some(config), ..old(self)@ }),
    {
        if !self.is_admin(caller) {
            return Err(LoanError::Unauthorized);
        }
        self.config = Some(config);
        Ok(())
    }

    /// Pauses the engine. Only the administrator may do so, and only once
    /// the engine has been set up.
    pub fn pause_contract(&mut self, caller: Address) -> (r: Result<(), LoanError>)
        ensures
            r is Ok <==> old(self)@.admin == Some(caller) && old(self)@.config is Some,
            old(self)@.admin != Some(caller) ==> r == Err::<(), LoanError>(LoanError::Unauthorized),
            old(self)@.admin == Some(caller) && old(self)@.config is None ==> r == Err::<
                (),
                LoanError,
            >(LoanError::ContractNotInitialized),
            r is Err ==> final(self)@ == old(self)@,
            r is Ok ==> final(self)@ == (LoanBook {
                config: Some(ContractConfig { paused: true, ..old(self)@.config->Some_0 }),
                ..old(self)@
            }),
    {
        if !self.is_admin(caller) {
            return Err(LoanError::Unauthorized);
        }
        let mut config = match self.config {
            Some(c) => c,
            None => {
                return Err(LoanError::ContractNotInitialized);
            },
        };
        config.paused = true;
        self.config = Some(config);
        Ok(())
    }

    /// Checks that `caller` may clear out loans that ended more than a year
    /// before `now`. Terminal loans are kept for the record, so nothing is
    /// removed.
    pub fn cleanup_expired_loans(&self, caller: Address, now: u64) -> (r: Result<(), LoanError>)
        ensures
            r is Ok <==> self@.admin == Some(caller),
            r is Err ==> r == Err::<(), LoanError>(LoanError::Unauthorized),
    {
        if !self.is_admin(caller) {
            return Err(LoanError::Unauthorized);
        }
        let _expiry_threshold: u64 = now.saturating_sub(365 * 86400);
        Ok(())
    }
}

/// One repayment: an amount and the time at which it is made.
pub struct Repayment {
    pub amount: i128,
    pub at: u64,
}

/// The account after the repayments were made one after the other, or
/// nothing where one of them is refused.
pub open spec fn repaid_in_turn(loan: UltimateLoan, payments: Seq<Repayment>) -> Option<UltimateLoan>
    decreases payments.len(),
{
    if payments.len() == 0 {
        Some(loan)
    } else if loan.can_repay(payments[0].amount, payments[0].at) {
        repaid_in_turn(loan.repaid(payments[0].amount, payments[0].at), payments.drop_first())
    } else {
        None
    }
}

/// The sum of the amounts of the repayments.
pub open spec fn total_of(payments: Seq<Repayment>) -> int
    decreases payments.len(),
{
    if payments.len() == 0 {
        0
    } else {
        payments[0].amount + total_of(payments.drop_first())
    }
}

impl LoanBook {
    /// Every account in the book is sound and is kept under its borrower.
    pub open spec fn sound(&self) -> bool {
        forall|id: u64| #[trigger]
            self.loans.contains_key(id) ==> self.loans[id].wf() && self.loans[id].borrower.id == id
    }
}

/// Interest on a principal that is not negative is not negative.
pub proof fn lemma_interest_not_negative(balance: int, interest_rate: u32, days: int)
    requires
        balance >= 0,
        days >= 0,
    ensures
        interest_due(balance, interest_rate, days) >= 0,
{
    let daily = daily_rate(interest_rate);
    assert(daily >= 0) by (nonlinear_arith)
        requires
            daily == (interest_rate * 1_000_000) / 3_650_000,
            interest_rate >= 0,
    ;
    assert(balance * daily * days >= 0) by (nonlinear_arith)
        requires
            balance >= 0,
            daily >= 0,
            days >= 0,
    ;
}

/// A score of 70 or more opens an active, unsecured loan. A score from 50
/// to 69 opens a loan that waits for collateral of one and a half times the
/// amount. A lower score leaves a rejected account that owes nothing.
pub proof fn lemma_routing_by_score(user: Address, amount: i128, credit_score: u32, now: u64)
    requires
        valid_loan_amount(amount),
    ensures
        credit_score >= 70 ==> {
            &&& originated(user, amount, credit_score, now).state == LoanState::Active
            &&& originated(user, amount, credit_score, now).loan_type == LoanType::Unsecured
        },
        50 <= credit_score < 70 ==> {
            &&& originated(user, amount, credit_score, now).state == LoanState::CollateralRequired
            &&& originated(user, amount, credit_score, now).required_collateral == amount * 3 / 2
        },
        credit_score < 50 ==> {
            &&& originated(user, amount, credit_score, now).state == LoanState::Rejected
            &&& originated(user, amount, credit_score, now).outstanding_balance == 0
        },
        originated(user, amount, credit_score, now).wf(),
        originated(user, amount, credit_score, now).borrower == user,
{
    assert(amount * 150 / 100 == amount * 3 / 2) by (nonlinear_arith)
        requires
            amount >= 0,
    ;
}

/// A request that is accepted leaves, under the borrower, the account that
/// the score calls for; every other account is kept.
pub proof fn lemma_request_keeps_book_sound(
    book: LoanBook,
    user: Address,
    amount: i128,
    credit_score: u32,
    now: u64,
)
    requires
        book.sound(),
        book.request_rejection(user, amount, Some(credit_score)) is None,
    ensures
        book.after_request(user, amount, credit_score, now).sound(),
        book.after_request(user, amount, credit_score, now).loans[user.id] == originated(
            user,
            amount,
            credit_score,
            now,
        ),
        !book.has_open_loan(user),
{
    lemma_routing_by_score(user, amount, credit_score, now);
    let after = book.after_request(user, amount, credit_score, now);
    assert forall|id: u64| #[trigger] after.loans.contains_key(id) implies after.loans[id].wf()
        && after.loans[id].borrower.id == id by {
        if id != user.id {
            assert(book.loans.contains_key(id));
        }
    }
}

/// Accruing interest is idempotent: a second accrual at the same time
/// succeeds and changes neither the interest that is owed nor the time of
/// the last accrual.
pub proof fn lemma_accrual_idempotent(loan: UltimateLoan, now: u64)
    requires
        loan.can_accrue(now),
    ensures
        loan.accrued(now).can_accrue(now),
        loan.accrued(now).accrued(now) == loan.accrued(now),
        loan.accrued(now).accrued_interest == loan.accrued(now).accrued(now).accrued_interest,
        loan.accrued(now).last_interest_calc == loan.accrued(now).accrued(
            now,
        ).last_interest_calc,
{
}

/// Accruing interest keeps a sound account sound, never lowers what is
/// owed, and never moves the time of the last accrual back.
pub proof fn lemma_accrual_keeps_account_sound(loan: UltimateLoan, now: u64)
    requires
        loan.wf(),
        loan.can_accrue(now),
    ensures
        loan.accrued(now).wf(),
        loan.accrued(now).balance() >= loan.balance(),
        loan.accrued(now).outstanding_balance == loan.outstanding_balance,
        loan.accrued(now).last_interest_calc >= loan.last_interest_calc,
        loan.elapsed_days(now) == 0 ==> loan.accrued(now).balance() == loan.balance(),
{
    if now > loan.last_interest_calc {
        let days = loan.elapsed_days(now);
        assert(days >= 0) by (nonlinear_arith)
            requires
                days == (now - loan.last_interest_calc) / 86400,
                now > loan.last_interest_calc,
        ;
        lemma_interest_not_negative(loan.outstanding_balance as int, loan.interest_rate, days);
        let daily = daily_rate(loan.interest_rate);
        if days == 0 {
            assert(loan.outstanding_balance * daily * 0 == 0);
        }
        if loan.outstanding_balance == 0 {
            assert(0 * daily * days == 0) by (nonlinear_arith);
        }
    }
}

/// A payment that is accepted lowers what is owed by exactly its amount,
/// pays interest before principal, and leaves no ledger negative.
pub proof fn lemma_payment_lowers_balance(loan: UltimateLoan, amount: i128)
    requires
        loan.accepts_payment(amount),
    ensures
        loan.after_payment(amount).balance() == loan.balance() - amount,
        loan.after_payment(amount).outstanding_balance >= 0,
        loan.after_payment(amount).accrued_interest >= 0,
        loan.after_payment(amount).outstanding_balance < loan.outstanding_balance
            ==> loan.after_payment(amount).accrued_interest == 0,
        loan.total_payments + amount <= i128::MAX ==> loan.after_payment(amount).total_payments
            == loan.total_payments + amount,
{
}

/// A repayment of a sound, active loan leaves a sound account; what is owed
/// afterwards is what was owed with interest less the payment, and so is
/// lower; it reaches zero exactly when the loan becomes repaid. Where no
/// whole day has passed since the last accrual, what is owed falls below
/// what the account showed before.
pub proof fn lemma_repayment_lowers_balance(loan: UltimateLoan, amount: i128, now: u64)
    requires
        loan.wf(),
        loan.can_repay(amount, now),
    ensures
        loan.repaid(amount, now).wf(),
        loan.repaid(amount, now).balance() == loan.accrued(now).balance() - amount,
        loan.repaid(amount, now).balance() < loan.accrued(now).balance(),
        loan.repaid(amount, now).balance() == 0 <==> loan.repaid(amount, now).state
            == LoanState::Repaid,
        loan.repaid(amount, now).state == LoanState::Repaid || loan.repaid(amount, now).state
            == LoanState::Active,
        loan.elapsed_days(now) == 0 ==> loan.repaid(amount, now).balance() < loan.balance(),
        loan.repaid(amount, now).last_interest_calc >= loan.last_interest_calc,
        loan.repaid(amount, now).borrower == loan.borrower,
{
    lemma_accrual_keeps_account_sound(loan, now);
    lemma_payment_lowers_balance(loan.accrued(now), amount);
}

/// Over any run of repayments that are all accepted, the payments recorded
/// on the account grow by the sum of the amounts, as long as that sum can be
/// held.
pub proof fn lemma_payments_add_up(loan: UltimateLoan, payments: Seq<Repayment>)
    requires
        repaid_in_turn(loan, payments) is Some,
        loan.total_payments + total_of(payments) <= i128::MAX,
    ensures
        repaid_in_turn(loan, payments)->Some_0.total_payments == loan.total_payments + total_of(
            payments,
        ),
        total_of(payments) >= 0,
    decreases payments.len(),
{
    if payments.len() > 0 {
        let first = payments[0];
        let next = loan.repaid(first.amount, first.at);
        lemma_total_not_negative(next, payments.drop_first());
        lemma_payment_lowers_balance(loan.accrued(first.at), first.amount);
        lemma_payments_add_up(next, payments.drop_first());
    }
}

/// The amounts of repayments that are all accepted are positive, so their
/// sum is not negative.
pub proof fn lemma_total_not_negative(loan: UltimateLoan, payments: Seq<Repayment>)
    requires
        repaid_in_turn(loan, payments) is Some,
    ensures
        total_of(payments) >= 0,
    decreases payments.len(),
{
    if payments.len() > 0 {
        lemma_total_not_negative(
            loan.repaid(payments[0].amount, payments[0].at),
            payments.drop_first(),
        );
    }
}

/// Over any run of repayments of a sound loan that are all accepted, the
/// account stays sound and owes nothing exactly when it has become repaid.
pub proof fn lemma_repayments_keep_account_sound(loan: UltimateLoan, payments: Seq<Repayment>)
    requires
        loan.wf(),
        loan.state == LoanState::Active,
        repaid_in_turn(loan, payments) is Some,
    ensures
        repaid_in_turn(loan, payments)->Some_0.wf(),
        repaid_in_turn(loan, payments)->Some_0.balance() == 0 <==> repaid_in_turn(
            loan,
            payments,
        )->Some_0.state == LoanState::Repaid,
    decreases payments.len(),
{
    if payments.len() > 0 {
        let first = payments[0];
        let next = loan.repaid(first.amount, first.at);
        lemma_repayment_lowers_balance(loan, first.amount, first.at);
        if next.state == LoanState::Active {
            lemma_repayments_keep_account_sound(next, payments.drop_first());
        } else {
            assert(payments.drop_first().len() > 0 ==> !next.can_repay(
                payments.drop_first()[0].amount,
                payments.drop_first()[0].at,
            ));
        }
    }
}

/// Activating, repaying, liquidating and reading a loan keep a sound book
/// sound.
pub proof fn lemma_operations_keep_book_sound(
    book: LoanBook,
    user: Address,
    amount: i128,
    now: u64,
)
    requires
        book.sound(),
        book.loans.contains_key(user.id),
    ensures
        book.loans[user.id].state == LoanState::CollateralRequired ==> book.after_activation(
            user,
            amount,
            now,
        ).sound(),
        book.loans[user.id].can_repay(amount, now) ==> book.after_repayment(user, amount, now).sound(),
        book.after_liquidation(user).sound(),
        book.status_of(user, now).wf(),
        book.status_of(user, now).borrower == book.loans[user.id].borrower,
{
    let loan = book.loans[user.id];
    assert(loan.wf() && loan.borrower.id == user.id);
    if loan.state == LoanState::CollateralRequired {
        let after = book.after_activation(user, amount, now);
        assert forall|id: u64| #[trigger] after.loans.contains_key(id) implies after.loans[id].wf()
            && after.loans[id].borrower.id == id by {
            if id != user.id {
                assert(book.loans.contains_key(id));
            }
        }
    }
    if loan.can_repay(amount, now) {
        lemma_repayment_lowers_balance(loan, amount, now);
        let after = book.after_repayment(user, amount, now);
        assert forall|id: u64| #[trigger] after.loans.contains_key(id) implies after.loans[id].wf()
            && after.loans[id].borrower.id == id by {
            if id != user.id {
                assert(book.loans.contains_key(id));
            }
        }
    }
    let after = book.after_liquidation(user);
    assert forall|id: u64| #[trigger] after.loans.contains_key(id) implies after.loans[id].wf()
        && after.loans[id].borrower.id == id by {
        if id != user.id {
            assert(book.loans.contains_key(id));
        }
    }
    if loan.state == LoanState::Active && loan.can_accrue(now) {
        lemma_accrual_keeps_account_sound(loan, now);
    }
}

/// A loan is liquidated only while it is active and from its due date on.
pub proof fn lemma_liquidation_gate(book: LoanBook, custody: CustodyState, borrower: Address, now: u64)
    requires
        book.liquidation_rejection(custody, borrower, now) is None,
    ensures
        book.loans.contains_key(borrower.id),
        book.loans[borrower.id].state == LoanState::Active,
        now >= book.loans[borrower.id].due_at,
        book.loans[borrower.id].holds_collateral() ==> custody.liquidation_rejection(borrower, now)
            is None,
{
}

/// What the engine does for one borrower leaves the account of every other
/// borrower as it was.
pub proof fn lemma_other_borrowers_untouched(
    book: LoanBook,
    user: Address,
    other: Address,
    amount: i128,
    credit_score: u32,
    now: u64,
)
    requires
        other.id != user.id,
    ensures
        book.after_request(user, amount, credit_score, now).loans.contains_key(other.id)
            == book.loans.contains_key(other.id),
        book.after_request(user, amount, credit_score, now).loans[other.id] == book.loans[other.id],
        book.after_activation(user, amount, now).loans[other.id] == book.loans[other.id],
        book.after_repayment(user, amount, now).loans[other.id] == book.loans[other.id],
        book.after_liquidation(user).loans[other.id] == book.loans[other.id],
{
}

/// A loan that was repaid, liquidated or rejected stays as it is: it takes
/// no collateral, no payment and no liquidation, and interest no longer runs.
pub proof fn lemma_terminal_loans_stay(
    book: LoanBook,
    custody: CustodyState,
    user: Address,
    amount: i128,
    now: u64,
)
    requires
        book.loans.contains_key(user.id),
        !book.loans[user.id].state.is_open(),
        !book.is_paused(),
    ensures
        book.activation_rejection(custody, user, amount) == Some(LoanError::LoanNotFound),
        book.repayment_rejection(custody, user, amount, now) == Some(LoanError::LoanNotFound),
        book.liquidation_rejection(custody, user, now) == Some(LoanError::LoanNotFound),
        book.status_of(user, now) == book.loans[user.id],
        !book.has_open_loan(user),
{
}

/// Whether a loan may pass from the state `from` to the state `to`: a loan
/// that waits for collateral becomes active, and an active loan is repaid or
/// liquidated.
pub open spec fn legal_transition(from: LoanState, to: LoanState) -> bool {
    ||| from == LoanState::CollateralRequired && to == LoanState::Active
    ||| from == LoanState::Active && to == LoanState::Repaid
    ||| from == LoanState::Active && to == LoanState::Liquidated
}

/// Every operation that is accepted leaves the loan in its state or takes
/// it along a legal transition; a request opens an account in one of the
/// three states in which a loan can start.
pub proof fn lemma_transitions_are_legal(
    book: LoanBook,
    custody: CustodyState,
    user: Address,
    amount: i128,
    credit_score: u32,
    now: u64,
)
    ensures
        book.activation_rejection(custody, user, amount) is None ==> legal_transition(
            book.loans[user.id].state,
            book.after_activation(user, amount, now).loans[user.id].state,
        ),
        book.repayment_rejection(custody, user, amount, now) is None ==> {
            let after = book.after_repayment(user, amount, now).loans[user.id].state;
            after == book.loans[user.id].state || legal_transition(book.loans[user.id].state, after)
        },
        book.liquidation_rejection(custody, user, now) is None ==> legal_transition(
            book.loans[user.id].state,
            book.after_liquidation(user).loans[user.id].state,
        ),
        book.loans.contains_key(user.id) ==> book.status_of(user, now).state
            == book.loans[user.id].state,
        ({
            let opened = originated(user, amount, credit_score, now).state;
            opened == LoanState::Active || opened == LoanState::CollateralRequired || opened
                == LoanState::Rejected
        }),
{
}

} // verus!
