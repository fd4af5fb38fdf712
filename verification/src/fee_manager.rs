//! The fee manager: it sets the fee of a swap or a loan by the user's
//! volume tier, and splits collected fees between the protocol, the
//! liquidity providers and the stakers.

use vstd::prelude::*;
use std::collections::HashMap;
use crate::types::Address;
use crate::math::{clamp_i128, div_toward_zero, fits_i128, saturating_add_i128};

verus! {

/// Fee of a swap before any discount, in basis points.
pub const BASE_SWAP_FEE: u32 = 30;

/// Fee of a loan before any discount, in basis points.
pub const BASE_LOAN_FEE: u32 = 100;

/// Fee of a liquidation, in basis points.
pub const LIQUIDATION_FEE: u32 = 500;

/// Share of the fees that goes to the protocol, in basis points.
pub const PROTOCOL_FEE_SHARE: u32 = 2000;

/// Share of the fees that goes to the liquidity providers, in basis points.
pub const LP_FEE_SHARE: u32 = 8000;

/// Volume from which a user is in the silver tier.
pub const TIER_1_THRESHOLD: i128 = 100_000_000_000;

/// Volume from which a user is in the gold tier.
pub const TIER_2_THRESHOLD: i128 = 1_000_000_000_000;

/// Volume from which a user is in the platinum tier.
pub const TIER_3_THRESHOLD: i128 = 10_000_000_000_000;

/// Why the fee manager refused an operation.
#[derive(Clone, Copy, Debug, PartialEq, Eq, Structural)]
pub enum FeeManagerError {
    InvalidFeeRate,
    UnauthorizedAccess,
    InsufficientBalance,
    DistributionFailed,
    InvalidTier,
    FeeCalculationError,
    RevenueTrackingError,
    GovernanceError,
}

/// The tier of a user, by volume.
#[derive(Clone, Copy, Debug, PartialEq, Eq, Structural)]
pub enum FeeTier {
    /// No discount.
    Standard,
    /// A tenth off.
    Silver,
    /// A quarter off.
    Gold,
    /// Half off.
    Platinum,
}

/// A fee rate for each tier that has one.
#[derive(Clone, Copy, Debug, PartialEq, Eq)]
pub struct TierFees {
    pub standard: Option<u32>,
    pub silver: Option<u32>,
    pub gold: Option<u32>,
    pub platinum: Option<u32>,
}

impl TierFees {
    /// The rate of a tier, if it has one.
    pub open spec fn rate(&self, tier: FeeTier) -> Option<u32> {
        match tier {
            FeeTier::Standard => self.standard,
            FeeTier::Silver => self.silver,
            FeeTier::Gold => self.gold,
            FeeTier::Platinum => self.platinum,
        }
    }

    /// The rate of a tier, if it has one.
    pub fn get(&self, tier: FeeTier) -> (r: Option<u32>)
        ensures
            r == self.rate(tier),
    {
        match tier {
            FeeTier::Standard => self.standard,
            FeeTier::Silver => self.silver,
            FeeTier::Gold => self.gold,
            FeeTier::Platinum => self.platinum,
        }
    }
}

/// The fees that apply.
#[derive(Clone, Copy, Debug, PartialEq, Eq)]
pub struct FeeStructure {
    /// Swap fees by tier, in basis points.
    pub swap_fees: TierFees,
    /// Loan fees by tier, in basis points.
    pub loan_fees: TierFees,
    pub liquidation_fee: u32,
    /// Share of the protocol, in basis points.
    pub protocol_share: u32,
    /// Share of the liquidity providers, in basis points.
    pub lp_share: u32,
    pub last_updated: u64,
}

/// How collected fees were split.
#[derive(Clone, Copy, Debug, PartialEq, Eq)]
pub struct RevenueDistribution {
    pub total_revenue: i128,
    pub protocol_share: i128,
    pub lp_share: i128,
    pub staker_share: i128,
    pub governance_share: i128,
    pub distributed_at: u64,
}

/// What the fee manager knows of a user.
#[derive(Clone, Copy, Debug, PartialEq, Eq)]
pub struct UserFeeProfile {
    pub user: Address,
    pub tier: FeeTier,
    /// Volume that counts for the tier.
    pub total_volume: i128,
    pub total_fees_paid: i128,
    pub last_tier_update: u64,
    /// Basis points taken off the user's fee rates.
    pub credit_score_bonus: u32,
}

/// The tier for a volume: platinum from ten million millions, gold from a
/// million millions, silver from a hundred thousand millions.
pub open spec fn fee_tier_for(volume: i128) -> FeeTier {
    if volume >= TIER_3_THRESHOLD {
        FeeTier::Platinum
    } else if volume >= TIER_2_THRESHOLD {
        FeeTier::Gold
    } else if volume >= TIER_1_THRESHOLD {
        FeeTier::Silver
    } else {
        FeeTier::Standard
    }
}

/// The fees that apply from the start: a tenth, a quarter and half off the
/// base fees for the three higher tiers.
pub open spec fn default_fee_structure(now: u64) -> FeeStructure {
    FeeStructure {
        swap_fees: TierFees {
            standard: Some(30u32),
            silver: Some(27u32),
            gold: Some(22u32),
            platinum: Some(15u32),
        },
        loan_fees: TierFees {
            standard: Some(100u32),
            silver: Some(90u32),
            gold: Some(75u32),
            platinum: Some(50u32),
        },
        liquidation_fee: LIQUIDATION_FEE,
        protocol_share: PROTOCOL_FEE_SHARE,
        lp_share: LP_FEE_SHARE,
        last_updated: now,
    }
}

/// The profile of a user of whom nothing is known yet.
pub open spec fn new_profile(user: Address, now: u64) -> UserFeeProfile {
    UserFeeProfile {
        user: user,
        tier: FeeTier::Standard,
        total_volume: 0,
        total_fees_paid: 0,
        last_tier_update: now,
        credit_score_bonus: 0,
    }
}

/// The rate that a profile pays: the rate of its tier, or `base` where the
/// tier has none, less the profile's bonus, and never below zero.
pub open spec fn adjusted_rate(fees: TierFees, base: u32, profile: UserFeeProfile) -> int {
    let rate = match fees.rate(profile.tier) {
        Some(r) => r,
        None => base,
    };
    if rate >= profile.credit_score_bonus {
        rate - profile.credit_score_bonus
    } else {
        0
    }
}

/// The fee on `amount` at `rate` basis points, rounded toward zero.
pub open spec fn fee_on(amount: i128, rate: int) -> int {
    div_toward_zero(amount * rate, 10000)
}

/// Whether `total_fees` can be split at the shares of `fees` with every
/// quantity inside `i128`.
pub open spec fn can_split(fees: FeeStructure, total_fees: i128) -> bool {
    &&& fits_i128(total_fees * fees.protocol_share)
    &&& fits_i128(total_fees * fees.lp_share)
    &&& fits_i128(total_fees - fee_on(total_fees, fees.protocol_share as int))
    &&& fits_i128(
        total_fees - fee_on(total_fees, fees.protocol_share as int) - fee_on(
            total_fees,
            fees.lp_share as int,
        ),
    )
}

/// The split of `total_fees` at time `now`: the protocol and the liquidity
/// providers take their shares, the stakers what is left.
pub open spec fn distribution_of(fees: FeeStructure, total_fees: i128, now: u64) -> RevenueDistribution {
    let protocol = fee_on(total_fees, fees.protocol_share as int);
    let lp = fee_on(total_fees, fees.lp_share as int);
    RevenueDistribution {
        total_revenue: total_fees,
        protocol_share: protocol as i128,
        lp_share: lp as i128,
        staker_share: (total_fees - protocol - lp) as i128,
        governance_share: 0,
        distributed_at: now,
    }
}

/// The profile after `volume` was traded and `fees_paid` paid at time
/// `now`. Sums stop at the ends of their range; the tier follows the volume.
pub open spec fn profile_after(profile: UserFeeProfile, volume: i128, fees_paid: i128, now: u64) -> UserFeeProfile {
    let total = clamp_i128(profile.total_volume + volume) as i128;
    UserFeeProfile {
        total_volume: total,
        total_fees_paid: clamp_i128(profile.total_fees_paid + fees_paid) as i128,
        tier: fee_tier_for(total),
        last_tier_update: now,
        ..profile
    }
}

/// What the fee manager holds: a mathematical picture of its state.
pub struct FeeBook {
    pub admin: Option<Address>,
    pub treasury: Option<Address>,
    pub governance: Option<Address>,
    pub fee_structure: Option<FeeStructure>,
    /// Profiles by the user's identifier.
    pub profiles: Map<u64, UserFeeProfile>,
    /// Splits by the time at which they were made.
    pub revenue: Map<u64, RevenueDistribution>,
}

impl FeeBook {
    /// The profile of `user`: the one that is kept, or a fresh one.
    pub open spec fn profile_of(&self, user: Address, now: u64) -> UserFeeProfile {
        if self.profiles.contains_key(user.id) {
            self.profiles[user.id]
        } else {
            new_profile(user, now)
        }
    }
}

/// The fee manager.
pub struct UltimateFeeManagerContract {
    pub admin: Option<Address>,
    pub treasury: Option<Address>,
    pub governance: Option<Address>,
    pub fee_structure: Option<FeeStructure>,
    /// Profiles by the user's identifier.
    pub profiles: HashMap<u64, UserFeeProfile>,
    /// Splits by the time at which they were made.
    pub revenue: HashMap<u64, RevenueDistribution>,
}

impl View for UltimateFeeManagerContract {
    type V = FeeBook;

    open spec fn view(&self) -> FeeBook {
        FeeBook {
            admin: self.admin,
            treasury: self.treasury,
            governance: self.governance,
            fee_structure: self.fee_structure,
            profiles: self.profiles@,
            revenue: self.revenue@,
        }
    }
}

impl UltimateFeeManagerContract {
    /// A fee manager that has not been set up.
    pub fn new() -> (c: Self)
        ensures
            c@ == (FeeBook {
                admin: None,
                treasury: None,
                governance: None,
                fee_structure: None,
                profiles: Map::empty(),
                revenue: Map::empty(),
            }),
    {
        UltimateFeeManagerContract {
            admin: None,
            treasury: None,
            governance: None,
            fee_structure: None,
            profiles: HashMap::new(),
            revenue: HashMap::new(),
        }
    }

    /// Sets the fee manager up with the three parties and the default fees.
    pub fn initialize(&mut self, admin: Address, treasury: Address, governance: Address, now: u64) -> (r:
        Result<(), FeeManagerError>)
        ensures
            r is Ok,
            final(self)@ == (FeeBook {
                admin: Some(admin),
                treasury: Some(treasury),
                governance: Some(governance),
                fee_structure: Some(default_fee_structure(now)),
                ..old(self)@
            }),
    {
        self.admin = Some(admin);
        self.treasury = Some(treasury);
        self.governance = Some(governance);
        let fee_structure = match Self::create_default_fee_structure(now) {
            Ok(f) => f,
            Err(e) => {
                return Err(e);
            },
        };
        self.fee_structure = Some(fee_structure);
        Ok(())
    }

    /// The fees that apply from the start, dated `now`.
    pub fn create_default_fee_structure(now: u64) -> (r: Result<FeeStructure, FeeManagerError>)
        ensures
            r == Ok::<FeeStructure, FeeManagerError>(default_fee_structure(now)),
    {
        let swap_fees = TierFees {
            standard: Some(BASE_SWAP_FEE),
            silver: Some((BASE_SWAP_FEE * 90) / 100),
            gold: Some((BASE_SWAP_FEE * 75) / 100),
            platinum: Some((BASE_SWAP_FEE * 50) / 100),
        };
        let loan_fees = TierFees {
            standard: Some(BASE_LOAN_FEE),
            silver: Some((BASE_LOAN_FEE * 90) / 100),
            gold: Some((BASE_LOAN_FEE * 75) / 100),
            platinum: Some((BASE_LOAN_FEE * 50) / 100),
        };
        Ok(
            FeeStructure {
                swap_fees,
                loan_fees,
                liquidation_fee: LIQUIDATION_FEE,
                protocol_share: PROTOCOL_FEE_SHARE,
                lp_share: LP_FEE_SHARE,
                last_updated: now,
            },
        )
    }

    /// The tier for a volume, as [`fee_tier_for`] states.
    pub fn calculate_fee_tier(volume: i128) -> (tier: FeeTier)
        ensures
            tier == fee_tier_for(volume),
    {
        if volume >= TIER_3_THRESHOLD {
            FeeTier::Platinum
        } else if volume >= TIER_2_THRESHOLD {
            FeeTier::Gold
        } else if volume >= TIER_1_THRESHOLD {
            FeeTier::Silver
        } else {
            FeeTier::Standard
        }
    }

    /// The profile of `user`: the one that is kept, or a fresh one dated
    /// `now`.
    pub fn get_user_profile(&self, user: Address, now: u64) -> (r: Result<UserFeeProfile, FeeManagerError>)
        ensures
            r == Ok::<UserFeeProfile, FeeManagerError>(self@.profile_of(user, now)),
    {
        match self.profiles.get(&user.id) {
            Some(profile) => Ok(*profile),
            None => Ok(
                UserFeeProfile {
                    user,
                    tier: FeeTier::Standard,
                    total_volume: 0,
                    total_fees_paid: 0,
                    last_tier_update: now,
                    credit_score_bonus: 0,
                },
            ),
        }
    }

    /// The fee on `amount` at the rate that `profile` pays under `fees`.
    fn fee_for(fees: &TierFees, base: u32, profile: &UserFeeProfile, amount: i128) -> (r: Result<
        i128,
        FeeManagerError,
    >)
        ensures
            r is Ok <==> fits_i128(amount * adjusted_rate(*fees, base, *profile)),
            r matches Ok(fee) ==> fee == fee_on(amount, adjusted_rate(*fees, base, *profile)),
            r matches Err(e) ==> e == FeeManagerError::FeeCalculationError,
    {
        let base_fee_rate: u32 = match fees.get(profile.tier) {
            Some(rate) => rate,
            None => base,
        };
        let adjusted_rate: u32 = base_fee_rate.saturating_sub(profile.credit_score_bonus);
        match amount.checked_mul(adjusted_rate as i128) {
            Some(product) => Ok(product / 10000),
            None => Err(FeeManagerError::FeeCalculationError),
        }
    }

    /// The fee of a swap of `amount` by `user`.
    ///
    /// The rate is that of the user's tier, less the user's bonus. Fails
    /// with `FeeCalculationError` while no fees are set, or where the fee
    /// cannot be computed inside `i128`.
    pub fn calculate_swap_fee(&self, user: Address, amount: i128, now: u64) -> (r: Result<
        i128,
        FeeManagerError,
    >)
        ensures
            r is Ok <==> self@.fee_structure is Some && fits_i128(
                amount * adjusted_rate(
                    self@.fee_structure->Some_0.swap_fees,
                    BASE_SWAP_FEE,
                    self@.profile_of(user, now),
                ),
            ),
            r matches Ok(fee) ==> fee == fee_on(
                amount,
                adjusted_rate(
                    self@.fee_structure->Some_0.swap_fees,
                    BASE_SWAP_FEE,
                    self@.profile_of(user, now),
                ),
            ),
            r matches Err(e) ==> e == FeeManagerError::FeeCalculationError,
    {
        let profile = match self.get_user_profile(user, now) {
            Ok(p) => p,
            Err(e) => {
                return Err(e);
            },
        };
        let fee_structure = match self.fee_structure {
            Some(f) => f,
            None => {
                return Err(FeeManagerError::FeeCalculationError);
            },
        };
        Self::fee_for(&fee_structure.swap_fees, BASE_SWAP_FEE, &profile, amount)
    }

    /// The fee of a loan of `amount` to `user`.
    ///
    /// The rate is that of the user's tier, less the user's bonus. Fails
    /// with `FeeCalculationError` while no fees are set, or where the fee
    /// cannot be computed inside `i128`.
    pub fn calculate_loan_fee(&self, user: Address, amount: i128, now: u64) -> (r: Result<
        i128,
        FeeManagerError,
    >)
        ensures
            r is Ok <==> self@.fee_structure is Some && fits_i128(
                amount * adjusted_rate(
                    self@.fee_structure->Some_0.loan_fees,
                    BASE_LOAN_FEE,
                    self@.profile_of(user, now),
                ),
            ),
            r matches Ok(fee) ==> fee == fee_on(
                amount,
                adjusted_rate(
                    self@.fee_structure->Some_0.loan_fees,
                    BASE_LOAN_FEE,
                    self@.profile_of(user, now),
                ),
            ),
            r matches Err(e) ==> e == FeeManagerError::FeeCalculationError,
    {
        let profile = match self.get_user_profile(user, now) {
            Ok(p) => p,
            Err(e) => {
                return Err(e);
            },
        };
        let fee_structure = match self.fee_structure {
            Some(f) => f,
            None => {
                return Err(FeeManagerError::FeeCalculationError);
            },
        };
        Self::fee_for(&fee_structure.loan_fees, BASE_LOAN_FEE, &profile, amount)
    }

    /// Splits `total_fees` and records the split under the time `now`.
    ///
    /// Fails with `DistributionFailed` while no fees are set, or where the
    /// split cannot be computed inside `i128`; nothing changes then.
    pub fn collect_and_distribute_fees(&mut self, total_fees: i128, now: u64) -> (r: Result<
        RevenueDistribution,
        FeeManagerError,
    >)
        ensures
            r is Ok <==> old(self)@.fee_structure is Some && can_split(
                old(self)@.fee_structure->Some_0,
                total_fees,
            ),
            r matches Ok(d) ==> {
                &&& d == distribution_of(old(self)@.fee_structure->Some_0, total_fees, now)
                &&& final(self)@ == (FeeBook {
                    revenue: old(self)@.revenue.insert(now, d),
                    ..old(self)@
                })
            },
            r matches Err(e) ==> e == FeeManagerError::DistributionFailed && final(self)@ == old(
                self,
            )@,
    {
        let fee_structure = match self.fee_structure {
            Some(f) => f,
            None => {
                return Err(FeeManagerError::DistributionFailed);
            },
        };
        let protocol_amount: i128 = match total_fees.checked_mul(fee_structure.protocol_share as i128) {
            Some(p) => p / 10000,
            None => {
                return Err(FeeManagerError::DistributionFailed);
            },
        };
        let lp_amount: i128 = match total_fees.checked_mul(fee_structure.lp_share as i128) {
            Some(p) => p / 10000,
            None => {
                return Err(FeeManagerError::DistributionFailed);
            },
        };
        let after_protocol: i128 = match total_fees.checked_sub(protocol_amount) {
            Some(x) => x,
            None => {
                return Err(FeeManagerError::DistributionFailed);
            },
        };
        let staker_amount: i128 = match after_protocol.checked_sub(lp_amount) {
            Some(x) => x,
            None => {
                return Err(FeeManagerError::DistributionFailed);
            },
        };
        let distribution = RevenueDistribution {
            total_revenue: total_fees,
            protocol_share: protocol_amount,
            lp_share: lp_amount,
            staker_share: staker_amount,
            governance_share: 0,
            distributed_at: now,
        };
        self.revenue.insert(now, distribution);
        Ok(distribution)
    }

    /// Adds `volume` and `fees_paid` to what is known of `user` and sets the
    /// user's tier by the new volume.
    pub fn update_user_volume(&mut self, user: Address, volume: i128, fees_paid: i128, now: u64) -> (r:
        Result<(), FeeManagerError>)
        ensures
            r is Ok,
            final(self)@ == (FeeBook {
                profiles: old(self)@.profiles.insert(
                    user.id,
                    profile_after(old(self)@.profile_of(user, now), volume, fees_paid, now),
                ),
                ..old(self)@
            }),
    {
        let mut profile = match self.get_user_profile(user, now) {
            Ok(p) => p,
            Err(e) => {
                return Err(e);
            },
        };
        profile.total_volume = saturating_add_i128(profile.total_volume, volume);
        profile.total_fees_paid = saturating_add_i128(profile.total_fees_paid, fees_paid);
        profile.tier = Self::calculate_fee_tier(profile.total_volume);
        profile.last_tier_update = now;
        self.profiles.insert(user.id, profile);
        Ok(())
    }

    /// Replaces the fees. Only the governance may do so.
    pub fn update_fee_structure(&mut self, caller: Address, new_structure: FeeStructure) -> (r: Result<
        (),
        FeeManagerError,
    >)
        ensures
            r is Ok <==> old(self)@.governance == Some(caller),
            r is Err ==> r == Err::<(), FeeManagerError>(FeeManagerError::UnauthorizedAccess)
                && final(self)@ == old(self)@,
            r is Ok ==> final(self)@ == (FeeBook {
                fee_structure: Some(new_structure),
                ..old(self)@
            }),
    {
        let authorized = match self.governance {
            Some(g) => g == caller,
            None => false,
        };
        if !authorized {
            return Err(FeeManagerError::UnauthorizedAccess);
        }
        self.fee_structure = Some(new_structure);
        Ok(())
    }

    /// The tier of `user`.
    pub fn get_user_tier(&self, user: Address, now: u64) -> (r: Result<FeeTier, FeeManagerError>)
        ensures
            r == Ok::<FeeTier, FeeManagerError>(self@.profile_of(user, now).tier),
    {
        match self.get_user_profile(user, now) {
            Ok(profile) => Ok(profile.tier),
            Err(e) => Err(e),
        }
    }

    /// The fees that apply, once they are set.
    pub fn get_fee_structure(&self) -> (r: Result<FeeStructure, FeeManagerError>)
        ensures
            match self@.fee_structure {
                Some(f) => r == Ok::<FeeStructure, FeeManagerError>(f),
                None => r == Err::<FeeStructure, FeeManagerError>(
                    FeeManagerError::FeeCalculationError,
                ),
            },
    {
        match self.fee_structure {
            Some(f) => Ok(f),
            None => Err(FeeManagerError::FeeCalculationError),
        }
    }
}

/// A higher volume never gives a lower tier, and the fees that apply from
/// the start never rise with the tier.
pub proof fn lemma_tiers_follow_volume(low: i128, high: i128, now: u64)
    requires
        low <= high,
    ensures
        tier_rank(fee_tier_for(low)) <= tier_rank(fee_tier_for(high)),
        default_fee_structure(now).swap_fees.rate(fee_tier_for(high))->Some_0
            <= default_fee_structure(now).swap_fees.rate(fee_tier_for(low))->Some_0,
        default_fee_structure(now).loan_fees.rate(fee_tier_for(high))->Some_0
            <= default_fee_structure(now).loan_fees.rate(fee_tier_for(low))->Some_0,
{
}

/// The place of a tier, from standard upwards.
pub open spec fn tier_rank(tier: FeeTier) -> int {
    match tier {
        FeeTier::Standard => 0,
        FeeTier::Silver => 1,
        FeeTier::Gold => 2,
        FeeTier::Platinum => 3,
    }
}

/// A split hands out exactly what was collected.
pub proof fn lemma_split_is_complete(fees: FeeStructure, total_fees: i128, now: u64)
    requires
        can_split(fees, total_fees),
    ensures
        distribution_of(fees, total_fees, now).protocol_share + distribution_of(
            fees,
            total_fees,
            now,
        ).lp_share + distribution_of(fees, total_fees, now).staker_share == total_fees,
{
    let p = total_fees * fees.protocol_share;
    let l = total_fees * fees.lp_share;
    lemma_quotient_fits(p);
    lemma_quotient_fits(l);
}

/// A ten-thousandth of a value that fits an `i128` fits it too.
pub proof fn lemma_quotient_fits(v: int)
    requires
        fits_i128(v),
    ensures
        fits_i128(div_toward_zero(v, 10000)),
{
    if v >= 0 {
        crate::math::lemma_div_toward_zero_bounds(v, 10000);
    } else {
        crate::math::lemma_div_toward_zero_bounds(-v, 10000);
    }
}

} // verus!
