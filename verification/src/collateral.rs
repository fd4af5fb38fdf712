//! The collateral custodian: it locks an asset for an owner, values it in
//! USD, watches the loan-to-value ratio of the position and liquidates the
//! position once the ratio reaches the liquidation threshold.

use vstd::prelude::*;
use vstd::hash_map::StringHashMap;
use std::collections::HashMap;
use crate::types::{Address, Transfer};
use crate::math::{clamp_i128, div_toward_zero, fits_i128, saturating_add_i128, saturating_sub_i128};

verus! {

/// Highest loan-to-value ratio at which a loan is granted, in basis points.
pub const MAX_LTV_RATIO: u32 = 7500;

/// Loan-to-value ratio from which a position is liquidated, in basis points.
pub const LIQUIDATION_THRESHOLD: u32 = 8000;

/// Share of a liquidated amount that is withheld, in basis points.
pub const LIQUIDATION_PENALTY: u32 = 500;

/// Smallest USD value that is accepted as collateral.
pub const MIN_COLLATERAL_VALUE: i128 = 10_000_000;

/// Prices are fixed-point numbers with seven decimals.
pub const PRICE_SCALE: i128 = 10_000_000;

/// Code of the native asset.
pub const XLM_ASSET_CODE: &'static str = "XLM";

/// Code of the dollar stable coin.
pub const USDC_ASSET_CODE: &'static str = "USDC";

/// Why the custodian refused an operation.
#[derive(Clone, Copy, Debug, PartialEq, Eq, Structural)]
pub enum CollateralError {
    InsufficientCollateral,
    AssetNotSupported,
    CollateralNotFound,
    Unauthorized,
    LiquidationNotRequired,
    InsufficientBalance,
    TransferFailed,
    InvalidAmount,
    ContractPaused,
    PriceFeedError,
    LTVExceeded,
    CollateralLocked,
    InvalidLiquidation,
}

impl CollateralError {
    /// The number under which the error is reported to the host.
    pub fn code(&self) -> (c: u32)
        ensures
            1 <= c <= 13,
            c == self.spec_code(),
    {
        match self {
            CollateralError::InsufficientCollateral => 1,
            CollateralError::AssetNotSupported => 2,
            CollateralError::CollateralNotFound => 3,
            CollateralError::Unauthorized => 4,
            CollateralError::LiquidationNotRequired => 5,
            CollateralError::InsufficientBalance => 6,
            CollateralError::TransferFailed => 7,
            CollateralError::InvalidAmount => 8,
            CollateralError::ContractPaused => 9,
            CollateralError::PriceFeedError => 10,
            CollateralError::LTVExceeded => 11,
            CollateralError::CollateralLocked => 12,
            CollateralError::InvalidLiquidation => 13,
        }
    }

    /// The number of each error.
    pub open spec fn spec_code(&self) -> u32 {
        match self {
            CollateralError::InsufficientCollateral => 1,
            CollateralError::AssetNotSupported => 2,
            CollateralError::CollateralNotFound => 3,
            CollateralError::Unauthorized => 4,
            CollateralError::LiquidationNotRequired => 5,
            CollateralError::InsufficientBalance => 6,
            CollateralError::TransferFailed => 7,
            CollateralError::InvalidAmount => 8,
            CollateralError::ContractPaused => 9,
            CollateralError::PriceFeedError => 10,
            CollateralError::LTVExceeded => 11,
            CollateralError::CollateralLocked => 12,
            CollateralError::InvalidLiquidation => 13,
        }
    }
}

/// Where a position stands in its life.
#[derive(Clone, Copy, Debug, PartialEq, Eq, Structural)]
pub enum CollateralStatus {
    /// Locked and healthy.
    Active,
    /// Locked, with a loan-to-value ratio at or over the threshold.
    AtRisk,
    /// In the course of being liquidated.
    Liquidating,
    /// Seized; nothing is locked any more.
    Liquidated,
    /// Handed back to its owner.
    Released,
}

impl CollateralStatus {
    /// A liquidated or released position never changes again.
    pub open spec fn is_terminal(&self) -> bool {
        *self == CollateralStatus::Liquidated || *self == CollateralStatus::Released
    }

    /// Whether the position has reached the end of its life.
    pub fn terminal(&self) -> (t: bool)
        ensures
            t == self.is_terminal(),
    {
        match self {
            CollateralStatus::Liquidated => true,
            CollateralStatus::Released => true,
            _ => false,
        }
    }
}

/// An asset that may serve as collateral, with its current price.
#[derive(Debug, PartialEq, Eq)]
pub struct CollateralAsset {
    /// Asset code, such as `XLM`.
    pub code: String,
    /// Token contract of the asset; none for the native asset.
    pub contract: Option<Address>,
    /// Issuer of the asset; none for the native asset.
    pub issuer: Option<Address>,
    /// Price of one unit in USD, with seven decimals.
    pub price_usd: i128,
    /// When the price was set.
    pub price_timestamp: u64,
    /// Whether the asset is accepted as collateral.
    pub is_supported: bool,
    /// Share of the asset's value that counts as collateral, in basis points.
    pub collateral_factor: u32,
}

impl Clone for CollateralAsset {
    fn clone(&self) -> (r: Self)
        ensures
            r == *self,
    {
        CollateralAsset {
            code: self.code.clone(),
            contract: self.contract,
            issuer: self.issuer,
            price_usd: self.price_usd,
            price_timestamp: self.price_timestamp,
            is_supported: self.is_supported,
            collateral_factor: self.collateral_factor,
        }
    }
}

/// The collateral that one owner has locked.
#[derive(Debug, PartialEq, Eq)]
pub struct CollateralPosition {
    pub owner: Address,
    /// The locked asset, as it was priced when the position was last valued.
    pub asset: CollateralAsset,
    pub locked_amount: i128,
    /// USD value when the collateral was locked.
    pub lock_value_usd: i128,
    /// USD value when the position was last valued.
    pub current_value_usd: i128,
    pub locked_at: u64,
    /// Amount of the loan that the collateral secures; zero where it secures none.
    pub loan_amount: i128,
    /// Loan-to-value ratio when the position was last valued, in basis points.
    pub current_ltv: u32,
    /// Ratio from which the position is liquidated, in basis points.
    pub liquidation_threshold: u32,
    pub status: CollateralStatus,
    pub last_price_update: u64,
}

impl Clone for CollateralPosition {
    fn clone(&self) -> (r: Self)
        ensures
            r == *self,
    {
        CollateralPosition {
            owner: self.owner,
            asset: self.asset.clone(),
            locked_amount: self.locked_amount,
            lock_value_usd: self.lock_value_usd,
            current_value_usd: self.current_value_usd,
            locked_at: self.locked_at,
            loan_amount: self.loan_amount,
            current_ltv: self.current_ltv,
            liquidation_threshold: self.liquidation_threshold,
            status: self.status,
            last_price_update: self.last_price_update,
        }
    }
}

/// The record of one liquidation.
#[derive(Debug, PartialEq, Eq)]
pub struct LiquidationEvent {
    pub owner: Address,
    pub liquidator: Address,
    /// The asset as it was priced at the liquidation.
    pub asset: CollateralAsset,
    pub amount_liquidated: i128,
    pub liquidation_price: i128,
    /// Part of the amount that was withheld.
    pub penalty_amount: i128,
    pub liquidated_at: u64,
    /// What stays locked afterwards; zero, as a liquidation takes everything.
    pub remaining_collateral: i128,
}

impl Clone for LiquidationEvent {
    fn clone(&self) -> (r: Self)
        ensures
            r == *self,
    {
        LiquidationEvent {
            owner: self.owner,
            liquidator: self.liquidator,
            asset: self.asset.clone(),
            amount_liquidated: self.amount_liquidated,
            liquidation_price: self.liquidation_price,
            penalty_amount: self.penalty_amount,
            liquidated_at: self.liquidated_at,
            remaining_collateral: self.remaining_collateral,
        }
    }
}

/// Settings of the custodian.
#[derive(Clone, Copy, Debug, PartialEq, Eq)]
pub struct ContractConfig {
    pub loan_contract: Address,
    pub max_ltv_ratio: u32,
    pub liquidation_threshold: u32,
    pub liquidation_penalty: u32,
    pub paused: bool,
    pub emergency_admin: Address,
}

/// Running totals over all positions.
#[derive(Clone, Copy, Debug, PartialEq, Eq)]
pub struct GlobalCollateralStats {
    /// USD value of everything that is locked.
    pub total_locked_usd: i128,
    pub total_positions: u64,
    pub active_positions: u64,
    pub total_liquidations: u64,
    pub avg_ltv_ratio: u32,
}

/// USD value of `amount` units at `price`, rounded toward zero.
pub open spec fn usd_value(amount: int, price: int) -> int {
    div_toward_zero(amount * price, PRICE_SCALE as int)
}

/// Loan-to-value ratio in basis points of a loan of `loan_amount` against
/// collateral worth `value`, held at the largest `u32` where it exceeds it.
pub open spec fn ltv_bps(loan_amount: int, value: int) -> int
    recommends
        loan_amount > 0,
        value > 0,
{
    let exact = div_toward_zero(loan_amount * 10000, value);
    if exact > u32::MAX {
        u32::MAX as int
    } else {
        exact
    }
}

/// The part of a liquidated amount that is withheld.
pub open spec fn liquidation_penalty(amount: int) -> int {
    div_toward_zero(amount * (LIQUIDATION_PENALTY as int), 10000)
}

/// The totals before anything was recorded.
pub open spec fn empty_stats() -> GlobalCollateralStats {
    GlobalCollateralStats {
        total_locked_usd: 0,
        total_positions: 0,
        active_positions: 0,
        total_liquidations: 0,
        avg_ltv_ratio: 0,
    }
}

/// The totals after a position worth `usd_value` was opened (`is_new`) or
/// closed. Counters stop at the ends of their range.
pub open spec fn stats_after(
    stats: Option<GlobalCollateralStats>,
    usd_value: i128,
    is_new: bool,
) -> GlobalCollateralStats {
    let s = match stats {
        Some(s) => s,
        None => empty_stats(),
    };
    if is_new {
        GlobalCollateralStats {
            total_locked_usd: clamp_i128(s.total_locked_usd + usd_value) as i128,
            total_positions: if s.total_positions == u64::MAX {
                u64::MAX
            } else {
                (s.total_positions + 1) as u64
            },
            active_positions: if s.active_positions == u64::MAX {
                u64::MAX
            } else {
                (s.active_positions + 1) as u64
            },
            ..s
        }
    } else {
        GlobalCollateralStats {
            total_locked_usd: clamp_i128(s.total_locked_usd - usd_value) as i128,
            active_positions: if s.active_positions == 0 {
                0
            } else {
                (s.active_positions - 1) as u64
            },
            ..s
        }
    }
}

/// Whether a position in `asset` can be valued: every intermediate quantity
/// fits an `i128`, and the ratio of an outstanding loan is taken against a
/// positive value.
pub open spec fn can_revalue(position: CollateralPosition, asset: CollateralAsset) -> bool {
    &&& fits_i128(position.locked_amount * asset.price_usd)
    &&& position.loan_amount > 0 ==> {
        &&& usd_value(position.locked_amount as int, asset.price_usd as int) > 0
        &&& fits_i128(position.loan_amount * 10000)
    }
}

/// The position valued at the price of `asset` at time `now`.
///
/// The ratio is that of the loan to the new value, and zero where no loan is
/// attached. The position is at risk exactly when the ratio has reached its
/// threshold.
pub open spec fn revalued(position: CollateralPosition, asset: CollateralAsset, now: u64) -> CollateralPosition {
    let value = usd_value(position.locked_amount as int, asset.price_usd as int);
    let ltv = if position.loan_amount > 0 {
        ltv_bps(position.loan_amount as int, value)
    } else {
        0
    };
    CollateralPosition {
        asset: asset,
        current_value_usd: value as i128,
        current_ltv: ltv as u32,
        status: if ltv >= position.liquidation_threshold {
            CollateralStatus::AtRisk
        } else {
            CollateralStatus::Active
        },
        last_price_update: now,
        ..position
    }
}

/// The position with a loan of `loan_amount` attached: its ratio is that of
/// the loan to the value it was last given, and it is at risk exactly when
/// the ratio has reached its threshold.
pub open spec fn attached(position: CollateralPosition, loan_amount: i128) -> CollateralPosition {
    let ltv = ltv_bps(loan_amount as int, position.current_value_usd as int);
    CollateralPosition {
        loan_amount: loan_amount,
        current_ltv: ltv as u32,
        status: if ltv >= position.liquidation_threshold {
            CollateralStatus::AtRisk
        } else {
            CollateralStatus::Active
        },
        ..position
    }
}

impl CollateralPosition {
    /// The ratio of a position is that of its loan to its value, and zero
    /// where it secures no loan. Until it is liquidated or released, the
    /// position is at risk exactly when the ratio has reached its threshold.
    pub open spec fn consistent(&self) -> bool {
        &&& self.loan_amount > 0 ==> {
            &&& self.current_value_usd > 0
            &&& self.current_ltv == ltv_bps(self.loan_amount as int, self.current_value_usd as int)
        }
        &&& self.loan_amount <= 0 ==> self.current_ltv == 0
        &&& !self.status.is_terminal() ==> {
            &&& self.status == CollateralStatus::AtRisk || self.status == CollateralStatus::Active
            &&& self.status == CollateralStatus::AtRisk <==> self.current_ltv
                >= self.liquidation_threshold
        }
    }
}

/// Whether every position of `positions` is consistent.
pub open spec fn positions_consistent(positions: Map<u64, CollateralPosition>) -> bool {
    forall|id: u64| #[trigger] positions.contains_key(id) ==> positions[id].consistent()
}

/// What the custodian holds: a mathematical picture of its state.
pub struct CustodyState {
    /// The custodian's own address; tokens in custody belong to it.
    pub contract_address: Address,
    pub admin: Option<Address>,
    pub config: Option<ContractConfig>,
    pub stats: Option<GlobalCollateralStats>,
    /// Assets by code.
    pub assets: Map<Seq<char>, CollateralAsset>,
    /// Positions by the owner's identifier.
    pub positions: Map<u64, CollateralPosition>,
    /// Every liquidation so far, oldest first.
    pub liquidations: Seq<LiquidationEvent>,
}

impl CustodyState {
    /// Mutating operations are refused while the custodian is paused, and
    /// before it has been set up.
    pub open spec fn is_paused(&self) -> bool {
        match self.config {
            Some(c) => c.paused,
            None => true,
        }
    }

    /// Code of the asset that a token address stands for: the custodian's own
    /// address stands for the native asset, every other one for the stable
    /// coin.
    pub open spec fn asset_code_of(&self, token_address: Address) -> Seq<char> {
        if token_address == self.contract_address {
            XLM_ASSET_CODE@
        } else {
            USDC_ASSET_CODE@
        }
    }

    /// Whether the asset with this code is known and accepted.
    pub open spec fn supports(&self, code: Seq<char>) -> bool {
        self.assets.contains_key(code) && self.assets[code].is_supported
    }

    /// The token contract through which a position's asset moves.
    pub open spec fn token_of(&self, position: CollateralPosition) -> Address {
        match position.asset.contract {
            Some(c) => c,
            None => self.contract_address,
        }
    }

    /// What valuing `position` at time `now` gives: the position unchanged
    /// where it is terminal, else the position at the current price of its
    /// asset, or the reason why it cannot be valued.
    pub open spec fn refresh(&self, position: CollateralPosition, now: u64) -> Result<
        CollateralPosition,
        CollateralError,
    > {
        if position.status.is_terminal() {
            Ok(position)
        } else if !self.supports(position.asset.code@) {
            Err(CollateralError::AssetNotSupported)
        } else if !can_revalue(position, self.assets[position.asset.code@]) {
            Err(CollateralError::PriceFeedError)
        } else {
            Ok(revalued(position, self.assets[position.asset.code@], now))
        }
    }

    /// Why locking `amount` of the token is refused, if it is.
    pub open spec fn lock_rejection(&self, token_address: Address, amount: i128) -> Option<
        CollateralError,
    > {
        let code = self.asset_code_of(token_address);
        if self.is_paused() {
            Some(CollateralError::ContractPaused)
        } else if amount <= 0 {
            Some(CollateralError::InvalidAmount)
        } else if !self.supports(code) {
            Some(CollateralError::AssetNotSupported)
        } else if !fits_i128(amount * self.assets[code].price_usd) {
            Some(CollateralError::PriceFeedError)
        } else if usd_value(amount as int, self.assets[code].price_usd as int)
            < MIN_COLLATERAL_VALUE {
            Some(CollateralError::InsufficientCollateral)
        } else {
            None
        }
    }

    /// The position that a lock of `amount` at time `now` creates.
    pub open spec fn locked_position(
        &self,
        user: Address,
        token_address: Address,
        amount: i128,
        now: u64,
    ) -> CollateralPosition {
        let asset = self.assets[self.asset_code_of(token_address)];
        let value = usd_value(amount as int, asset.price_usd as int) as i128;
        CollateralPosition {
            owner: user,
            asset: asset,
            locked_amount: amount,
            lock_value_usd: value,
            current_value_usd: value,
            locked_at: now,
            loan_amount: 0,
            current_ltv: 0,
            liquidation_threshold: LIQUIDATION_THRESHOLD,
            status: CollateralStatus::Active,
            last_price_update: now,
        }
    }

    /// Why releasing the position of `user` is refused, if it is.
    pub open spec fn unlock_rejection(&self, user: Address) -> Option<CollateralError> {
        if self.is_paused() {
            Some(CollateralError::ContractPaused)
        } else if !self.positions.contains_key(user.id) {
            Some(CollateralError::CollateralNotFound)
        } else if self.positions[user.id].status != CollateralStatus::Active {
            Some(CollateralError::CollateralLocked)
        } else {
            None
        }
    }

    /// Why liquidating the position of `user` at time `now` is refused, if it
    /// is. A position is liquidated only when its ratio, taken at the
    /// current price, has reached its threshold.
    pub open spec fn liquidation_rejection(&self, user: Address, now: u64) -> Option<
        CollateralError,
    > {
        if self.is_paused() {
            Some(CollateralError::ContractPaused)
        } else if !self.positions.contains_key(user.id) {
            Some(CollateralError::CollateralNotFound)
        } else if self.positions[user.id].status.is_terminal() {
            Some(CollateralError::CollateralLocked)
        } else {
            match self.refresh(self.positions[user.id], now) {
                Err(e) => Some(e),
                Ok(p) => if p.current_ltv < p.liquidation_threshold {
                    Some(CollateralError::LiquidationNotRequired)
                } else {
                    None
                },
            }
        }
    }

    /// Why attaching a loan to the position of `owner` is refused, if it is.
    pub open spec fn attach_rejection(&self, owner: Address, loan_amount: i128) -> Option<
        CollateralError,
    > {
        if self.is_paused() {
            Some(CollateralError::ContractPaused)
        } else if loan_amount <= 0 || !fits_i128(loan_amount * 10000) {
            Some(CollateralError::InvalidAmount)
        } else if !self.positions.contains_key(owner.id) {
            Some(CollateralError::CollateralNotFound)
        } else if self.positions[owner.id].status != CollateralStatus::Active {
            Some(CollateralError::CollateralLocked)
        } else if self.positions[owner.id].current_value_usd <= 0 {
            Some(CollateralError::InsufficientCollateral)
        } else {
            None
        }
    }

    /// Every position shows the ratio of its loan to its value and is at
    /// risk exactly when that ratio has reached its threshold.
    pub open spec fn sound(&self) -> bool {
        positions_consistent(self.positions)
    }

    /// The movement of tokens into custody that a lock relies on.
    pub open spec fn lock_transfer(&self, user: Address, token_address: Address, amount: i128) -> Transfer {
        Transfer { token: token_address, from: user, to: self.contract_address, amount: amount }
    }

    /// The state after `user` has locked `amount` of the token at time
    /// `now`: the new position replaces any earlier one of `user`, and the
    /// totals count it.
    pub open spec fn after_lock(&self, user: Address, token_address: Address, amount: i128, now: u64) -> CustodyState {
        let position = self.locked_position(user, token_address, amount, now);
        CustodyState {
            positions: self.positions.insert(user.id, position),
            stats: Some(stats_after(self.stats, position.lock_value_usd, true)),
            ..*self
        }
    }

    /// The state after a loan of `loan_amount` was attached to the position
    /// of `owner`.
    pub open spec fn after_attach(&self, owner: Address, loan_amount: i128) -> CustodyState {
        CustodyState {
            positions: self.positions.insert(owner.id, attached(self.positions[owner.id], loan_amount)),
            ..*self
        }
    }

    /// The movement of the whole locked amount back to `user`.
    pub open spec fn unlock_transfer(&self, user: Address) -> Transfer {
        Transfer {
            token: self.token_of(self.positions[user.id]),
            from: self.contract_address,
            to: user,
            amount: self.positions[user.id].locked_amount,
        }
    }

    /// The state after the position of `user` was released: it secures no
    /// loan any more, and the totals count it as closed.
    pub open spec fn after_unlock(&self, user: Address) -> CustodyState {
        let before = self.positions[user.id];
        CustodyState {
            positions: self.positions.insert(
                user.id,
                CollateralPosition {
                    status: CollateralStatus::Released,
                    loan_amount: 0,
                    current_ltv: 0,
                    ..before
                },
            ),
            stats: Some(stats_after(self.stats, before.current_value_usd, false)),
            ..*self
        }
    }

    /// The position of `user` valued at time `now`, where that succeeds.
    pub open spec fn valued(&self, user: Address, now: u64) -> CollateralPosition {
        self.refresh(self.positions[user.id], now)->Ok_0
    }

    /// The movement to the liquidator: the locked amount less the penalty.
    pub open spec fn liquidation_transfer(&self, caller: Address, user: Address, now: u64) -> Transfer {
        let valued = self.valued(user, now);
        Transfer {
            token: self.token_of(valued),
            from: self.contract_address,
            to: caller,
            amount: (valued.locked_amount - liquidation_penalty(valued.locked_amount as int)) as i128,
        }
    }

    /// The state after the position of `user` was liquidated by `caller` at
    /// time `now`: the position is valued, emptied and marked liquidated, the
    /// liquidation is added to the record, and the totals count the position
    /// as closed.
    pub open spec fn after_liquidation(&self, caller: Address, user: Address, now: u64) -> CustodyState {
        let valued = self.valued(user, now);
        CustodyState {
            positions: self.positions.insert(
                user.id,
                CollateralPosition { status: CollateralStatus::Liquidated, locked_amount: 0, ..valued },
            ),
            liquidations: self.liquidations.push(liquidation_record(valued, caller, now)),
            stats: Some(stats_after(self.stats, valued.current_value_usd, false)),
            ..*self
        }
    }
}

/// Whether `asset` is a freshly listed asset: native, accepted, and priced
/// at `price` as of `now`.
pub open spec fn is_initial_listing(
    asset: CollateralAsset,
    code: Seq<char>,
    price: i128,
    factor: u32,
    now: u64,
) -> bool {
    &&& asset.code@ == code
    &&& asset.contract is None
    &&& asset.issuer is None
    &&& asset.price_usd == price
    &&& asset.price_timestamp == now
    &&& asset.is_supported
    &&& asset.collateral_factor == factor
}

/// Whether `after` is `before` with the two known assets listed anew: the
/// native asset at 10 USD and a factor of 75 %, the stable coin at 100 USD
/// and a factor of 90 %, both dated `now`. Every other listing is kept.
pub open spec fn lists_initial_assets(
    before: Map<Seq<char>, CollateralAsset>,
    after: Map<Seq<char>, CollateralAsset>,
    now: u64,
) -> bool {
    &&& after.dom() == before.dom().insert(XLM_ASSET_CODE@).insert(USDC_ASSET_CODE@)
    &&& is_initial_listing(after[XLM_ASSET_CODE@], XLM_ASSET_CODE@, 100_000_000, 7500, now)
    &&& is_initial_listing(after[USDC_ASSET_CODE@], USDC_ASSET_CODE@, 1_000_000_000, 9000, now)
    &&& forall|code: Seq<char>|
        before.contains_key(code) && code != XLM_ASSET_CODE@ && code != USDC_ASSET_CODE@
            ==> after[code] == before[code]
}

/// The record of liquidating `position` (already valued) by `liquidator`.
pub open spec fn liquidation_record(
    position: CollateralPosition,
    liquidator: Address,
    now: u64,
) -> LiquidationEvent {
    LiquidationEvent {
        owner: position.owner,
        liquidator: liquidator,
        asset: position.asset,
        amount_liquidated: position.locked_amount,
        liquidation_price: position.asset.price_usd,
        penalty_amount: liquidation_penalty(position.locked_amount as int) as i128,
        liquidated_at: now,
        remaining_collateral: 0,
    }
}

/// The collateral custodian.
pub struct UltimateCollateralContract {
    /// The custodian's own address; tokens in custody belong to it.
    pub contract_address: Address,
    pub admin: Option<Address>,
    pub config: Option<ContractConfig>,
    pub stats: Option<GlobalCollateralStats>,
    /// Assets by code.
    pub assets: StringHashMap<CollateralAsset>,
    /// Positions by the owner's identifier.
    pub positions: HashMap<u64, CollateralPosition>,
    /// Every liquidation so far, oldest first.
    pub liquidations: Vec<LiquidationEvent>,
}

impl View for UltimateCollateralContract {
    type V = CustodyState;

    open spec fn view(&self) -> CustodyState {
        CustodyState {
            contract_address: self.contract_address,
            admin: self.admin,
            config: self.config,
            stats: self.stats,
            assets: self.assets@,
            positions: self.positions@,
            liquidations: self.liquidations@,
        }
    }
}

impl UltimateCollateralContract {
    /// A custodian at `contract_address` that holds nothing and has not been
    /// set up.
    pub fn new(contract_address: Address) -> (c: Self)
        ensures
            c@ == (CustodyState {
                contract_address: contract_address,
                admin: None,
                config: None,
                stats: None,
                assets: Map::empty(),
                positions: Map::empty(),
                liquidations: Seq::empty(),
            }),
            c@.sound(),
    {
        UltimateCollateralContract {
            contract_address,
            admin: None,
            config: None,
            stats: None,
            assets: StringHashMap::new(),
            positions: HashMap::new(),
            liquidations: Vec::new(),
        }
    }

    /// Sets the custodian up: `admin` governs it, the default settings apply,
    /// the two known assets are listed at their starting prices and the
    /// totals start at zero. Positions and liquidations are kept.
    pub fn initialize(&mut self, admin: Address, loan_contract: Address, now: u64) -> (r: Result<
        (),
        CollateralError,
    >)
        ensures
            r is Ok,
            final(self)@ == (CustodyState {
                admin: Some(admin),
                config: Some(
                    ContractConfig {
                        loan_contract: loan_contract,
                        max_ltv_ratio: MAX_LTV_RATIO,
                        liquidation_threshold: LIQUIDATION_THRESHOLD,
                        liquidation_penalty: LIQUIDATION_PENALTY,
                        paused: false,
                        emergency_admin: admin,
                    },
                ),
                stats: Some(empty_stats()),
                assets: final(self)@.assets,
                ..old(self)@
            }),
            lists_initial_assets(old(self)@.assets, final(self)@.assets, now),
    {
        self.admin = Some(admin);
        self.config = Some(
            ContractConfig {
                loan_contract,
                max_ltv_ratio: MAX_LTV_RATIO,
                liquidation_threshold: LIQUIDATION_THRESHOLD,
                liquidation_penalty: LIQUIDATION_PENALTY,
                paused: false,
                emergency_admin: admin,
            },
        );
        self.init_supported_assets(now);
        self.stats = Some(
            GlobalCollateralStats {
                total_locked_usd: 0,
                total_positions: 0,
                active_positions: 0,
                total_liquidations: 0,
                avg_ltv_ratio: 0,
            },
        );
        Ok(())
    }

    /// Lists the two known assets at their starting prices, dated `now`.
    pub fn init_supported_assets(&mut self, now: u64)
        ensures
            final(self)@ == (CustodyState { assets: final(self)@.assets, ..old(self)@ }),
            lists_initial_assets(old(self)@.assets, final(self)@.assets, now),
    {
        proof {
            reveal_strlit("XLM");
            reveal_strlit("USDC");
        }
        let xlm_asset = CollateralAsset {
            code: XLM_ASSET_CODE.to_owned(),
            contract: None,
            issuer: None,
            price_usd: 100_000_000,
            price_timestamp: now,
            is_supported: true,
            collateral_factor: 7500,
        };
        let usdc_asset = CollateralAsset {
            code: USDC_ASSET_CODE.to_owned(),
            contract: None,
            issuer: None,
            price_usd: 1_000_000_000,
            price_timestamp: now,
            is_supported: true,
            collateral_factor: 9000,
        };
        self.assets.insert(XLM_ASSET_CODE.to_owned(), xlm_asset);
        self.assets.insert(USDC_ASSET_CODE.to_owned(), usdc_asset);
        proof {
            assert(XLM_ASSET_CODE@.len() == 3);
            assert(USDC_ASSET_CODE@.len() == 4);
            assert(self@.assets.dom() =~= old(self)@.assets.dom().insert(XLM_ASSET_CODE@).insert(
                USDC_ASSET_CODE@,
            ));
        }
    }

    /// Succeeds unless the custodian is paused or has not been set up.
    pub fn check_not_paused(&self) -> (r: Result<(), CollateralError>)
        ensures
            r is Ok <==> !self@.is_paused(),
            r is Err ==> r == Err::<(), CollateralError>(CollateralError::ContractPaused),
    {
        match self.config {
            Some(c) => {
                if c.paused {
                    Err(CollateralError::ContractPaused)
                } else {
                    Ok(())
                }
            },
            None => Err(CollateralError::ContractPaused),
        }
    }

    /// USD value of `amount` units of `asset`, or `PriceFeedError` where the
    /// product of amount and price does not fit an `i128`.
    pub fn calculate_usd_value(asset: &CollateralAsset, amount: i128) -> (r: Result<
        i128,
        CollateralError,
    >)
        ensures
            r is Ok <==> fits_i128(amount * asset.price_usd),
            r matches Ok(v) ==> v == usd_value(amount as int, asset.price_usd as int),
            r matches Err(e) ==> e == CollateralError::PriceFeedError,
    {
        match amount.checked_mul(asset.price_usd) {
            Some(product) => {
                Ok(product / PRICE_SCALE)
            },
            None => Err(CollateralError::PriceFeedError),
        }
    }

    /// The asset that `token_address` stands for, if it is known and accepted.
    pub fn get_supported_asset(&self, token_address: Address) -> (r: Result<
        CollateralAsset,
        CollateralError,
    >)
        ensures
            r is Ok <==> self@.supports(self@.asset_code_of(token_address)),
            r matches Ok(a) ==> a == self@.assets[self@.asset_code_of(token_address)],
            r matches Err(e) ==> e == CollateralError::AssetNotSupported,
    {
        let code: &str = if token_address == self.contract_address {
            XLM_ASSET_CODE
        } else {
            USDC_ASSET_CODE
        };
        self.asset_by_code(code)
    }

    /// The asset listed under `code`, if it is known and accepted.
    fn asset_by_code(&self, code: &str) -> (r: Result<CollateralAsset, CollateralError>)
        ensures
            r is Ok <==> self@.supports(code@),
            r matches Ok(a) ==> a == self@.assets[code@],
            r matches Err(e) ==> e == CollateralError::AssetNotSupported,
    {
        match self.assets.get(code) {
            Some(asset) => {
                if asset.is_supported {
                    Ok(asset.clone())
                } else {
                    Err(CollateralError::AssetNotSupported)
                }
            },
            None => Err(CollateralError::AssetNotSupported),
        }
    }

    /// The ratio of a loan to the value that secures it, in basis points, as
    /// [`ltv_bps`] states.
    fn loan_to_value(loan_amount: i128, value: i128) -> (ltv: u32)
        requires
            loan_amount > 0,
            value > 0,
            fits_i128(loan_amount * 10000),
        ensures
            ltv == ltv_bps(loan_amount as int, value as int),
    {
        let scaled: i128 = loan_amount * 10000;
        let exact: i128 = scaled / value;
        assert(exact >= 0) by (nonlinear_arith)
            requires
                scaled >= 0,
                value > 0,
                exact == scaled as int / value as int,
        ;
        if exact > u32::MAX as i128 {
            u32::MAX
        } else {
            exact as u32
        }
    }

    /// Values `position` at the current price of its asset, as
    /// [`CustodyState::refresh`] states. On an error the position is left as
    /// it was.
    pub fn update_position_values(&self, position: &mut CollateralPosition, now: u64) -> (r: Result<
        (),
        CollateralError,
    >)
        ensures
            match self@.refresh(*old(position), now) {
                Ok(p) => r is Ok && *final(position) == p,
                Err(e) => r == Err::<(), CollateralError>(e) && *final(position) == *old(position),
            },
    {
        if position.status.terminal() {
            return Ok(());
        }
        let asset = match self.asset_by_code(position.asset.code.as_str()) {
            Ok(a) => a,
            Err(e) => {
                return Err(e);
            },
        };
        let value: i128 = match Self::calculate_usd_value(&asset, position.locked_amount) {
            Ok(v) => v,
            Err(e) => {
                return Err(e);
            },
        };
        let mut ltv: u32 = 0;
        if position.loan_amount > 0 {
            if value <= 0 {
                return Err(CollateralError::PriceFeedError);
            }
            if position.loan_amount > i128::MAX / 10000 {
                return Err(CollateralError::PriceFeedError);
            }
            ltv = Self::loan_to_value(position.loan_amount, value);
        }
        position.current_value_usd = value;
        position.asset = asset;
        position.current_ltv = ltv;
        position.status = if ltv >= position.liquidation_threshold {
            CollateralStatus::AtRisk
        } else {
            CollateralStatus::Active
        };
        position.last_price_update = now;
        Ok(())
    }

    /// Records in the totals that a position worth `usd_value` was opened
    /// (`is_new_position`) or closed.
    pub fn update_global_stats(&mut self, usd_value: i128, is_new_position: bool)
        ensures
            final(self)@ == (CustodyState {
                stats: Some(stats_after(old(self)@.stats, usd_value, is_new_position)),
                ..old(self)@
            }),
    {
        let mut stats = match self.stats {
            Some(s) => s,
            None => GlobalCollateralStats {
                total_locked_usd: 0,
                total_positions: 0,
                active_positions: 0,
                total_liquidations: 0,
                avg_ltv_ratio: 0,
            },
        };
        if is_new_position {
            stats.total_locked_usd = saturating_add_i128(stats.total_locked_usd, usd_value);
            stats.total_positions = stats.total_positions.saturating_add(1);
            stats.active_positions = stats.active_positions.saturating_add(1);
        } else {
            stats.total_locked_usd = saturating_sub_i128(stats.total_locked_usd, usd_value);
            stats.active_positions = stats.active_positions.saturating_sub(1);
        }
        self.stats = Some(stats);
    }

    /// Locks `amount` of the token for `user`.
    ///
    /// The amount must be positive, the asset accepted, and the USD value at
    /// least [`MIN_COLLATERAL_VALUE`]. On success the position of `user` is
    /// the new, active one, the totals count it, and the result is the
    /// movement of the tokens into custody. On an error nothing changes.
    pub fn lock_collateral(&mut self, user: Address, token_address: Address, amount: i128, now: u64) -> (r:
        Result<Transfer, CollateralError>)
        ensures
            r is Err <==> old(self)@.lock_rejection(token_address, amount) is Some,
            r matches Err(e) ==> {
                &&& Some(e) == old(self)@.lock_rejection(token_address, amount)
                &&& final(self)@ == old(self)@
            },
            r matches Ok(t) ==> {
                &&& t == old(self)@.lock_transfer(user, token_address, amount)
                &&& final(self)@ == old(self)@.after_lock(user, token_address, amount, now)
            },
            old(self)@.sound() ==> final(self)@.sound(),
    {
        match self.check_not_paused() {
            Ok(()) => {},
            Err(e) => {
                return Err(e);
            },
        }
        if amount <= 0 {
            return Err(CollateralError::InvalidAmount);
        }
        let asset = match self.get_supported_asset(token_address) {
            Ok(a) => a,
            Err(e) => {
                return Err(e);
            },
        };
        let usd_value: i128 = match Self::calculate_usd_value(&asset, amount) {
            Ok(v) => v,
            Err(e) => {
                return Err(e);
            },
        };
        if usd_value < MIN_COLLATERAL_VALUE {
            return Err(CollateralError::InsufficientCollateral);
        }
        let position = CollateralPosition {
            owner: user,
            asset: asset,
            locked_amount: amount,
            lock_value_usd: usd_value,
            current_value_usd: usd_value,
            locked_at: now,
            loan_amount: 0,
            current_ltv: 0,
            liquidation_threshold: LIQUIDATION_THRESHOLD,
            status: CollateralStatus::Active,
            last_price_update: now,
        };
        self.positions.insert(user.id, position);
        self.update_global_stats(usd_value, true);
        proof {
            lemma_insert_keeps_consistent(
                old(self)@.positions,
                user.id,
                old(self)@.locked_position(user, token_address, amount, now),
            );
        }
        Ok(Transfer { token: token_address, from: user, to: self.contract_address, amount })
    }

    /// Attaches a loan of `loan_amount` to the active position of `owner`.
    /// The position's ratio is taken against the loan at once, at the value
    /// that the position was last given; a position that is worth nothing
    /// secures no loan.
    pub fn set_loan_amount(&mut self, owner: Address, loan_amount: i128) -> (r: Result<
        (),
        CollateralError,
    >)
        ensures
            r is Err <==> old(self)@.attach_rejection(owner, loan_amount) is Some,
            r matches Err(e) ==> {
                &&& Some(e) == old(self)@.attach_rejection(owner, loan_amount)
                &&& final(self)@ == old(self)@
            },
            r is Ok ==> final(self)@ == old(self)@.after_attach(owner, loan_amount),
            old(self)@.sound() ==> final(self)@.sound(),
    {
        match self.check_not_paused() {
            Ok(()) => {},
            Err(e) => {
                return Err(e);
            },
        }
        if loan_amount <= 0 || loan_amount > i128::MAX / 10000 {
            return Err(CollateralError::InvalidAmount);
        }
        let mut position = match self.positions.get(&owner.id) {
            Some(p) => p.clone(),
            None => {
                return Err(CollateralError::CollateralNotFound);
            },
        };
        if position.status != CollateralStatus::Active {
            return Err(CollateralError::CollateralLocked);
        }
        if position.current_value_usd <= 0 {
            return Err(CollateralError::InsufficientCollateral);
        }
        let ltv: u32 = Self::loan_to_value(loan_amount, position.current_value_usd);
        position.loan_amount = loan_amount;
        position.current_ltv = ltv;
        position.status = if ltv >= position.liquidation_threshold {
            CollateralStatus::AtRisk
        } else {
            CollateralStatus::Active
        };
        self.positions.insert(owner.id, position);
        proof {
            lemma_insert_keeps_consistent(
                old(self)@.positions,
                owner.id,
                attached(old(self)@.positions[owner.id], loan_amount),
            );
        }
        Ok(())
    }

    /// Hands the collateral of `user` back.
    ///
    /// Only an active position can be released. On success the position is
    /// released and secures no loan any more, the totals count it as closed,
    /// and the result is the movement of the whole locked amount to `user`.
    /// On an error nothing changes.
    pub fn unlock_collateral(&mut self, user: Address) -> (r: Result<Transfer, CollateralError>)
        ensures
            r is Err <==> old(self)@.unlock_rejection(user) is Some,
            r matches Err(e) ==> {
                &&& Some(e) == old(self)@.unlock_rejection(user)
                &&& final(self)@ == old(self)@
            },
            r matches Ok(t) ==> {
                &&& t == old(self)@.unlock_transfer(user)
                &&& final(self)@ == old(self)@.after_unlock(user)
            },
            old(self)@.sound() ==> final(self)@.sound(),
    {
        match self.check_not_paused() {
            Ok(()) => {},
            Err(e) => {
                return Err(e);
            },
        }
        let mut position = match self.positions.get(&user.id) {
            Some(p) => p.clone(),
            None => {
                return Err(CollateralError::CollateralNotFound);
            },
        };
        if position.status != CollateralStatus::Active {
            return Err(CollateralError::CollateralLocked);
        }
        let token = match position.asset.contract {
            Some(c) => c,
            None => self.contract_address,
        };
        let transfer = Transfer {
            token,
            from: self.contract_address,
            to: user,
            amount: position.locked_amount,
        };
        let value: i128 = position.current_value_usd;
        position.status = CollateralStatus::Released;
        position.loan_amount = 0;
        position.current_ltv = 0;
        self.positions.insert(user.id, position);
        self.update_global_stats(value, false);
        proof {
            lemma_insert_keeps_consistent(
                old(self)@.positions,
                user.id,
                old(self)@.after_unlock(user).positions[user.id],
            );
        }
        Ok(transfer)
    }

    /// Liquidates the position of `user` in favour of `caller`.
    ///
    /// The position is valued first; it is liquidated only if its ratio has
    /// reached its threshold. On success a share of [`LIQUIDATION_PENALTY`]
    /// basis points of the locked amount is withheld, the rest is the
    /// movement to `caller` that is returned, the liquidation is added to the
    /// record, and the position is left liquidated with nothing locked. On an
    /// error nothing changes.
    pub fn liquidate(&mut self, caller: Address, user: Address, now: u64) -> (r: Result<
        Transfer,
        CollateralError,
    >)
        ensures
            r is Err <==> old(self)@.liquidation_rejection(user, now) is Some,
            r matches Err(e) ==> {
                &&& Some(e) == old(self)@.liquidation_rejection(user, now)
                &&& final(self)@ == old(self)@
            },
            r matches Ok(t) ==> {
                &&& old(self)@.valued(user, now).current_ltv >= old(self)@.valued(
                    user,
                    now,
                ).liquidation_threshold
                &&& t == old(self)@.liquidation_transfer(caller, user, now)
                &&& final(self)@ == old(self)@.after_liquidation(caller, user, now)
            },
            old(self)@.sound() ==> final(self)@.sound(),
    {
        match self.check_not_paused() {
            Ok(()) => {},
            Err(e) => {
                return Err(e);
            },
        }
        let mut position = match self.positions.get(&user.id) {
            Some(p) => p.clone(),
            None => {
                return Err(CollateralError::CollateralNotFound);
            },
        };
        if position.status.terminal() {
            return Err(CollateralError::CollateralLocked);
        }
        match self.update_position_values(&mut position, now) {
            Ok(()) => {},
            Err(e) => {
                return Err(e);
            },
        }
        if position.current_ltv < position.liquidation_threshold {
            return Err(CollateralError::LiquidationNotRequired);
        }
        let liquidation_amount: i128 = position.locked_amount;
        // A twentieth of the amount is the penalty of 500 basis points.
        let penalty_amount: i128 = liquidation_amount / 20;
        proof {
            lemma_penalty_is_a_twentieth(liquidation_amount as int);
        }
        let net_liquidation: i128 = liquidation_amount - penalty_amount;
        let event = LiquidationEvent {
            owner: position.owner,
            liquidator: caller,
            asset: position.asset.clone(),
            amount_liquidated: liquidation_amount,
            liquidation_price: position.asset.price_usd,
            penalty_amount,
            liquidated_at: now,
            remaining_collateral: 0,
        };
        let token = match position.asset.contract {
            Some(c) => c,
            None => self.contract_address,
        };
        let transfer = Transfer {
            token,
            from: self.contract_address,
            to: caller,
            amount: net_liquidation,
        };
        let value: i128 = position.current_value_usd;
        position.status = CollateralStatus::Liquidated;
        position.locked_amount = 0;
        self.liquidations.push(event);
        self.positions.insert(user.id, position);
        self.update_global_stats(value, false);
        proof {
            let before = old(self)@.positions[user.id];
            lemma_valued_is_consistent(before, old(self)@.assets[before.asset.code@], now);
            lemma_insert_keeps_consistent(
                old(self)@.positions,
                user.id,
                old(self)@.after_liquidation(caller, user, now).positions[user.id],
            );
        }
        Ok(transfer)
    }

    /// The position of `user`, valued at the current price. The valued
    /// position is also what the custodian keeps from then on. On an error
    /// nothing changes.
    pub fn get_position(&mut self, user: Address, now: u64) -> (r: Result<
        CollateralPosition,
        CollateralError,
    >)
        ensures
            !old(self)@.positions.contains_key(user.id) ==> r == Err::<CollateralPosition, CollateralError>(
                CollateralError::CollateralNotFound,
            ),
            old(self)@.positions.contains_key(user.id) ==> r == old(self)@.refresh(
                old(self)@.positions[user.id],
                now,
            ),
            r is Err ==> final(self)@ == old(self)@,
            r matches Ok(p) ==> final(self)@ == (CustodyState {
                positions: old(self)@.positions.insert(user.id, p),
                ..old(self)@
            }),
            old(self)@.sound() ==> final(self)@.sound(),
    {
        let mut position = match self.positions.get(&user.id) {
            Some(p) => p.clone(),
            None => {
                return Err(CollateralError::CollateralNotFound);
            },
        };
        match self.update_position_values(&mut position, now) {
            Ok(()) => {},
            Err(e) => {
                return Err(e);
            },
        }
        self.positions.insert(user.id, position.clone());
        proof {
            let before = old(self)@.positions[user.id];
            if old(self)@.sound() {
                assert(old(self)@.positions.contains_key(user.id));
                if !before.status.is_terminal() {
                    lemma_valued_is_consistent(before, old(self)@.assets[before.asset.code@], now);
                }
                lemma_insert_keeps_consistent(old(self)@.positions, user.id, position);
            }
        }
        Ok(position)
    }

    /// Whether the position of `user`, valued at the current price, has
    /// reached its liquidation threshold. Nothing is changed.
    pub fn is_liquidation_required(&self, user: Address, now: u64) -> (r: Result<
        bool,
        CollateralError,
    >)
        ensures
            !self@.positions.contains_key(user.id) ==> r == Err::<bool, CollateralError>(
                CollateralError::CollateralNotFound,
            ),
            self@.positions.contains_key(user.id) ==> match self@.refresh(
                self@.positions[user.id],
                now,
            ) {
                Ok(p) => r == Ok::<bool, CollateralError>(p.current_ltv >= p.liquidation_threshold),
                Err(e) => r == Err::<bool, CollateralError>(e),
            },
    {
        let mut position = match self.positions.get(&user.id) {
            Some(p) => p.clone(),
            None => {
                return Err(CollateralError::CollateralNotFound);
            },
        };
        match self.update_position_values(&mut position, now) {
            Ok(()) => {},
            Err(e) => {
                return Err(e);
            },
        }
        Ok(position.current_ltv >= position.liquidation_threshold)
    }

    /// Sets the price of the asset listed under `asset_code`. Only the
    /// administrator may do so, and only for a listed asset.
    pub fn update_asset_price(&mut self, caller: Address, asset_code: String, new_price: i128, now: u64) -> (r:
        Result<(), CollateralError>)
        ensures
            r is Ok <==> old(self)@.admin == Some(caller) && old(self)@.assets.contains_key(
                asset_code@,
            ),
            old(self)@.admin != Some(caller) ==> r == Err::<(), CollateralError>(
                CollateralError::Unauthorized,
            ),
            old(self)@.admin == Some(caller) && !old(self)@.assets.contains_key(asset_code@) ==> r
                == Err::<(), CollateralError>(CollateralError::AssetNotSupported),
            r is Err ==> final(self)@ == old(self)@,
            r is Ok ==> final(self)@ == (CustodyState {
                assets: old(self)@.assets.insert(
                    asset_code@,
                    CollateralAsset {
                        price_usd: new_price,
                        price_timestamp: now,
                        ..old(self)@.assets[asset_code@]
                    },
                ),
                ..old(self)@
            }),
    {
        if !self.is_admin(caller) {
            return Err(CollateralError::Unauthorized);
        }
        let mut asset = match self.assets.get(asset_code.as_str()) {
            Some(a) => a.clone(),
            None => {
                return Err(CollateralError::AssetNotSupported);
            },
        };
        asset.price_usd = new_price;
        asset.price_timestamp = now;
        self.assets.insert(asset_code, asset);
        Ok(())
    }

    /// Whether `caller` is the administrator.
    fn is_admin(&self, caller: Address) -> (b: bool)
        ensures
            b == (self@.admin == Some(caller)),
    {
        match self.admin {
            Some(a) => a == caller,
            None => false,
        }
    }

    /// The running totals, once the custodian has been set up or a position
    /// was recorded.
    pub fn get_global_stats(&self) -> (r: Result<GlobalCollateralStats, CollateralError>)
        ensures
            match self@.stats {
                Some(s) => r == Ok::<GlobalCollateralStats, CollateralError>(s),
                None => r == Err::<GlobalCollateralStats, CollateralError>(
                    CollateralError::CollateralNotFound,
                ),
            },
    {
        match self.stats {
            Some(s) => Ok(s),
            None => Err(CollateralError::CollateralNotFound),
        }
    }

    /// Pauses the custodian. Only the administrator may do so.
    pub fn emergency_pause(&mut self, caller: Address) -> (r: Result<(), CollateralError>)
        ensures
            r is Ok <==> old(self)@.admin == Some(caller) && old(self)@.config is Some,
            old(self)@.admin != Some(caller) ==> r == Err::<(), CollateralError>(
                CollateralError::Unauthorized,
            ),
            old(self)@.admin == Some(caller) && old(self)@.config is None ==> r == Err::<
                (),
                CollateralError,
            >(CollateralError::ContractPaused),
            r is Err ==> final(self)@ == old(self)@,
            r is Ok ==> final(self)@ == (CustodyState {
                config: Some(ContractConfig { paused: true, ..old(self)@.config->Some_0 }),
                ..old(self)@
            }),
    {
        if !self.is_admin(caller) {
            return Err(CollateralError::Unauthorized);
        }
        let mut config = match self.config {
            Some(c) => c,
            None => {
                return Err(CollateralError::ContractPaused);
            },
        };
        config.paused = true;
        self.config = Some(config);
        Ok(())
    }
}

/// Withholding 500 basis points of an amount is withholding a twentieth.
pub proof fn lemma_penalty_is_a_twentieth(amount: int)
    ensures
        liquidation_penalty(amount) == div_toward_zero(amount, 20),
{
    if amount >= 0 {
        assert((amount * 500) / 10000 == amount / 20) by (nonlinear_arith)
            requires
                amount >= 0,
        ;
    } else {
        let m = -amount;
        assert(-(amount * 500) == m * 500) by (nonlinear_arith)
            requires
                m == -amount,
        ;
        assert((m * 500) / 10000 == m / 20) by (nonlinear_arith)
            requires
                m >= 0,
        ;
        assert(amount * 500 < 0) by (nonlinear_arith)
            requires
                amount < 0,
        ;
    }
}

/// Putting a consistent position among consistent positions leaves them
/// consistent.
pub proof fn lemma_insert_keeps_consistent(
    positions: Map<u64, CollateralPosition>,
    id: u64,
    position: CollateralPosition,
)
    requires
        position.consistent(),
    ensures
        positions_consistent(positions) ==> positions_consistent(positions.insert(id, position)),
{
    if positions_consistent(positions) {
        let after = positions.insert(id, position);
        assert forall|other: u64| #[trigger] after.contains_key(other) implies after[other].consistent() by {
            if other != id {
                assert(positions.contains_key(other));
            }
        }
    }
}

/// A position that was valued is consistent, and so is one that was
/// released or liquidated after it was valued.
pub proof fn lemma_valued_is_consistent(position: CollateralPosition, asset: CollateralAsset, now: u64)
    requires
        can_revalue(position, asset),
    ensures
        revalued(position, asset, now).consistent(),
        (CollateralPosition {
            status: CollateralStatus::Liquidated,
            locked_amount: 0,
            ..revalued(position, asset, now)
        }).consistent(),
{
    lemma_valued_position(position, asset, now);
}

/// A position that was valued shows the ratio of its loan to its value, or
/// zero where no loan is attached, and is at risk exactly when that ratio
/// has reached its threshold.
pub proof fn lemma_valued_position(position: CollateralPosition, asset: CollateralAsset, now: u64)
    requires
        can_revalue(position, asset),
    ensures
        revalued(position, asset, now).current_value_usd == usd_value(
            position.locked_amount as int,
            asset.price_usd as int,
        ),
        position.loan_amount > 0 ==> revalued(position, asset, now).current_ltv == ltv_bps(
            position.loan_amount as int,
            revalued(position, asset, now).current_value_usd as int,
        ),
        position.loan_amount <= 0 ==> revalued(position, asset, now).current_ltv == 0,
        revalued(position, asset, now).status == CollateralStatus::AtRisk <==> revalued(
            position,
            asset,
            now,
        ).current_ltv >= position.liquidation_threshold,
        revalued(position, asset, now).status == CollateralStatus::AtRisk || revalued(
            position,
            asset,
            now,
        ).status == CollateralStatus::Active,
{
    let product = position.locked_amount * asset.price_usd;
    let value = usd_value(position.locked_amount as int, asset.price_usd as int);
    assert(fits_i128(value)) by {
        if product >= 0 {
            crate::math::lemma_div_toward_zero_bounds(product, PRICE_SCALE as int);
        } else {
            crate::math::lemma_div_toward_zero_bounds(-product, PRICE_SCALE as int);
        }
    }
    if position.loan_amount > 0 {
        crate::math::lemma_div_toward_zero_bounds(position.loan_amount * 10000, value);
    }
}

/// A position is liquidated only when its ratio, taken at the current
/// price, has reached its threshold; and a liquidation empties it for good.
pub proof fn lemma_liquidation_gate(state: CustodyState, caller: Address, user: Address, now: u64)
    requires
        state.liquidation_rejection(user, now) is None,
    ensures
        state.valued(user, now).current_ltv >= state.valued(user, now).liquidation_threshold,
        state.after_liquidation(caller, user, now).positions[user.id].status
            == CollateralStatus::Liquidated,
        state.after_liquidation(caller, user, now).positions[user.id].locked_amount == 0,
        state.after_liquidation(caller, user, now).liquidations.len() == state.liquidations.len()
            + 1,
        state.after_liquidation(caller, user, now).liquidation_rejection(user, now) == Some(
            CollateralError::CollateralLocked,
        ),
{
}

/// The penalty and the payout of a liquidation share the locked amount
/// between them, and neither is negative.
pub proof fn lemma_penalty_and_payout(amount: int)
    requires
        amount >= 0,
    ensures
        0 <= liquidation_penalty(amount) <= amount,
        liquidation_penalty(amount) + (amount - liquidation_penalty(amount)) == amount,
        liquidation_penalty(amount) * 20 <= amount,
{
    lemma_penalty_is_a_twentieth(amount);
    crate::math::lemma_div_toward_zero_bounds(amount, 20);
}

/// What the custodian does for one owner leaves the position of every other
/// owner as it was, and the record of liquidations only ever grows.
pub proof fn lemma_other_owners_untouched(
    state: CustodyState,
    user: Address,
    other: Address,
    caller: Address,
    token_address: Address,
    amount: i128,
    now: u64,
)
    requires
        other.id != user.id,
    ensures
        state.after_lock(user, token_address, amount, now).positions.contains_key(other.id)
            == state.positions.contains_key(other.id),
        state.after_lock(user, token_address, amount, now).positions[other.id]
            == state.positions[other.id],
        state.after_attach(user, amount).positions[other.id] == state.positions[other.id],
        state.after_unlock(user).positions[other.id] == state.positions[other.id],
        state.after_liquidation(caller, user, now).positions[other.id] == state.positions[other.id],
        state.after_lock(user, token_address, amount, now).liquidations == state.liquidations,
        state.after_attach(user, amount).liquidations == state.liquidations,
        state.after_unlock(user).liquidations == state.liquidations,
        state.after_liquidation(caller, user, now).liquidations.subrange(
            0,
            state.liquidations.len() as int,
        ) == state.liquidations,
{
    assert(state.liquidations.push(
        liquidation_record(state.valued(user, now), caller, now),
    ).subrange(0, state.liquidations.len() as int) =~= state.liquidations);
}

/// A position that was released or liquidated stays as it is: it is not
/// valued again, not released, not liquidated, and takes no loan.
pub proof fn lemma_terminal_positions_stay(state: CustodyState, user: Address, amount: i128, now: u64)
    requires
        state.positions.contains_key(user.id),
        state.positions[user.id].status.is_terminal(),
        !state.is_paused(),
    ensures
        state.refresh(state.positions[user.id], now) == Ok::<
            CollateralPosition,
            CollateralError,
        >(state.positions[user.id]),
        state.unlock_rejection(user) == Some(CollateralError::CollateralLocked),
        state.liquidation_rejection(user, now) == Some(CollateralError::CollateralLocked),
        amount > 0 && fits_i128(amount * 10000) ==> state.attach_rejection(user, amount) == Some(
            CollateralError::CollateralLocked,
        ),
{
}

} // verus!
