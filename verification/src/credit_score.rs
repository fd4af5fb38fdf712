//! The credit scorer: it rates a wallet from 0 to 100 by its age, its
//! transactions, the assets it holds, its swap volume and its behaviour,
//! twenty points each. What it knows of a wallet it derives from the
//! ledger's sequence number.

use vstd::prelude::*;
use std::collections::HashMap;
use crate::types::{Address, SECONDS_PER_DAY};

verus! {

/// Age in days from which a wallet has the full age score.
pub const WALLET_AGE_THRESHOLD_DAYS: u64 = 90;

/// Number of transactions from which a wallet has the full score.
pub const TX_COUNT_THRESHOLD: u64 = 10;

/// Number of assets from which a wallet has the full score.
pub const ASSET_DIVERSITY_THRESHOLD: u32 = 3;

/// Swap volume from which a wallet has the full score.
pub const HIGH_VOLUME_THRESHOLD: i128 = 100_000_000_000;

/// The highest score.
pub const MAX_SCORE: u32 = 100;

/// Ledgers that close in a day.
pub const LEDGERS_PER_DAY: u32 = 17280;

/// Version of the scoring rules.
pub const ALGORITHM_VERSION: u32 = 2;

/// Why the scorer refused an operation.
#[derive(Clone, Copy, Debug, PartialEq, Eq, Structural)]
pub enum CreditScoreError {
    UserNotFound,
    InvalidParameters,
    InsufficientData,
    ScoringFailed,
    Unauthorized,
    NetworkDataError,
    InvalidAssetData,
    CalculationOverflow,
}

/// The parts of a score, each from 0 to 20.
#[derive(Clone, Copy, Debug, PartialEq, Eq)]
pub struct ScoringBreakdown {
    pub wallet_age_score: u32,
    pub tx_count_score: u32,
    pub asset_diversity_score: u32,
    pub swap_volume_score: u32,
    pub behavioral_score: u32,
}

/// The risk that a score stands for.
#[derive(Clone, Copy, Debug, PartialEq, Eq, Structural)]
pub enum RiskLevel {
    /// 80 to 100.
    Excellent,
    /// 70 to 79.
    Good,
    /// 50 to 69.
    Fair,
    /// 30 to 49.
    Poor,
    /// Under 30.
    VeryPoor,
}

/// What a wallet did in other protocols.
#[derive(Clone, Copy, Debug, PartialEq, Eq)]
pub struct CrossProtocolData {
    pub dex_interactions: u32,
    pub lending_activity: u32,
    pub liquidity_events: u32,
    pub governance_votes: u32,
}

/// What the scorer knows of a wallet.
#[derive(Clone, Copy, Debug, PartialEq, Eq)]
pub struct UltimateCreditProfile {
    pub user: Address,
    /// The score, from 0 to 100.
    pub credit_score: u32,
    pub wallet_created_at: u64,
    pub total_transactions: u64,
    pub asset_diversity: u32,
    pub total_swap_volume: i128,
    pub last_updated: u64,
    pub scoring_breakdown: ScoringBreakdown,
    pub risk_level: RiskLevel,
    pub cross_protocol_data: CrossProtocolData,
}

/// An asset that a wallet holds.
#[derive(Debug, PartialEq, Eq)]
pub struct AssetInfo {
    pub code: String,
    pub issuer: Option<Address>,
    pub balance: i128,
    pub tx_count: u64,
}

/// The transactions of a wallet, in short.
#[derive(Clone, Copy, Debug, PartialEq, Eq)]
pub struct TransactionAnalysis {
    pub total_count: u64,
    pub avg_size: i64,
    /// Transactions a day.
    pub frequency: u32,
    pub max_transaction: i128,
    pub last_tx_time: u64,
}

/// The network that the scorer works on.
#[derive(Debug, PartialEq, Eq)]
pub struct NetworkConfig {
    pub supported_assets: Vec<String>,
    pub algorithm_version: u32,
    pub network_id: String,
}

/// The smaller of two numbers.
pub open spec fn least(a: int, b: int) -> int {
    if a <= b {
        a
    } else {
        b
    }
}

/// Points for a quantity that earns all 20 from `threshold` on and a
/// proportional share below.
pub open spec fn proportional_score(value: int, threshold: int) -> int
    recommends
        value >= 0,
        threshold > 0,
{
    if value >= threshold {
        20
    } else {
        (value * 20) / threshold
    }
}

/// Age of a wallet in days at a sequence number: a day for every 17280
/// ledgers past the thousandth, and a year at most.
pub open spec fn wallet_age_days(sequence: u32) -> int {
    if sequence > 1000 {
        least((sequence - 1000) / (LEDGERS_PER_DAY as int), 365)
    } else {
        0
    }
}

/// The transactions of a wallet at a sequence number and a time.
pub open spec fn transactions_at(now: u64, sequence: u32) -> TransactionAnalysis {
    let factor: int = (sequence % 1000) as int;
    let total_count: int = if factor > 100 {
        least(factor / 10, 500)
    } else {
        1
    };
    let avg_size: int = 100_000 + (factor % 100) * 90_000;
    let days_active: int = if sequence as int / (LEDGERS_PER_DAY as int) >= 1 {
        sequence as int / (LEDGERS_PER_DAY as int)
    } else {
        1
    };
    let frequency: int = if total_count / days_active >= 1 {
        total_count / days_active
    } else {
        1
    };
    let back: int = 86400 * (factor % 30);
    TransactionAnalysis {
        total_count: total_count as u64,
        avg_size: avg_size as i64,
        frequency: frequency as u32,
        max_transaction: (avg_size * 5) as i128,
        last_tx_time: if now >= back {
            (now - back) as u64
        } else {
            0
        },
    }
}

/// Number of assets of a wallet at a sequence number, from 1 to 6.
pub open spec fn asset_diversity_at(sequence: u32) -> int {
    let level: int = (sequence % 1000) as int;
    if level <= 100 {
        1
    } else if level <= 300 {
        2
    } else if level <= 500 {
        3
    } else if level <= 700 {
        4
    } else if level <= 900 {
        5
    } else {
        6
    }
}

/// Swap volume of a wallet at a sequence number, a million millions at most.
pub open spec fn swap_volume_at(sequence: u32) -> int {
    let base: int = (sequence % 10000) as int * 100_000;
    let multiplier: int = if sequence > 50000 {
        10
    } else if sequence > 10000 {
        5
    } else {
        1
    };
    least(base * multiplier, 1_000_000_000_000)
}

/// Points for behaviour: 5 for a steady frequency, 5 for transactions of
/// even size, 10 for a transaction within the last week.
pub open spec fn behavior_score(tx: TransactionAnalysis, now: u64) -> int
    recommends
        tx.avg_size > 0,
{
    let steady: int = if 0 < tx.frequency < 100 {
        5
    } else {
        0
    };
    let even: int = if crate::math::div_toward_zero(tx.max_transaction as int, tx.avg_size as int) < 10 {
        5
    } else {
        0
    };
    let since: int = if now >= tx.last_tx_time {
        (now - tx.last_tx_time) / (SECONDS_PER_DAY as int)
    } else {
        0
    };
    let recent: int = if since < 7 {
        10
    } else {
        0
    };
    steady + even + recent
}

/// What a wallet did in other protocols at a sequence number.
pub open spec fn cross_protocol_at(sequence: u32) -> CrossProtocolData {
    CrossProtocolData {
        dex_interactions: (sequence % 50) as u32,
        lending_activity: (sequence % 20) as u32,
        liquidity_events: (sequence % 30) as u32,
        governance_votes: (sequence % 10) as u32,
    }
}

/// The parts of the score of a wallet at a time and a sequence number.
#[verifier::opaque]
pub open spec fn breakdown_at(now: u64, sequence: u32) -> ScoringBreakdown {
    ScoringBreakdown {
        wallet_age_score: proportional_score(
            wallet_age_days(sequence),
            WALLET_AGE_THRESHOLD_DAYS as int,
        ) as u32,
        tx_count_score: proportional_score(
            transactions_at(now, sequence).total_count as int,
            TX_COUNT_THRESHOLD as int,
        ) as u32,
        asset_diversity_score: proportional_score(
            asset_diversity_at(sequence),
            ASSET_DIVERSITY_THRESHOLD as int,
        ) as u32,
        swap_volume_score: proportional_score(
            swap_volume_at(sequence),
            HIGH_VOLUME_THRESHOLD as int,
        ) as u32,
        behavioral_score: least(behavior_score(transactions_at(now, sequence), now), 20) as u32,
    }
}

/// The score that the parts add up to, 100 at most.
pub open spec fn total_score(breakdown: ScoringBreakdown) -> int {
    least(
        breakdown.wallet_age_score + breakdown.tx_count_score + breakdown.asset_diversity_score
            + breakdown.swap_volume_score + breakdown.behavioral_score,
        MAX_SCORE as int,
    )
}

/// The score of a wallet at a time and a sequence number.
pub open spec fn score_at(now: u64, sequence: u32) -> int {
    total_score(breakdown_at(now, sequence))
}

/// The risk that a score stands for.
pub open spec fn risk_level_for(score: u32) -> RiskLevel {
    if 80 <= score <= 100 {
        RiskLevel::Excellent
    } else if 70 <= score <= 79 {
        RiskLevel::Good
    } else if 50 <= score <= 69 {
        RiskLevel::Fair
    } else if 30 <= score <= 49 {
        RiskLevel::Poor
    } else {
        RiskLevel::VeryPoor
    }
}

/// The profile of a wallet of which nothing is known yet.
pub open spec fn new_profile(user: Address, now: u64) -> UltimateCreditProfile {
    UltimateCreditProfile {
        user: user,
        credit_score: 0,
        wallet_created_at: now,
        total_transactions: 0,
        asset_diversity: 0,
        total_swap_volume: 0,
        last_updated: now,
        scoring_breakdown: ScoringBreakdown {
            wallet_age_score: 0,
            tx_count_score: 0,
            asset_diversity_score: 0,
            swap_volume_score: 0,
            behavioral_score: 0,
        },
        risk_level: RiskLevel::VeryPoor,
        cross_protocol_data: CrossProtocolData {
            dex_interactions: 0,
            lending_activity: 0,
            liquidity_events: 0,
            governance_votes: 0,
        },
    }
}

/// The profile after the wallet was analysed at a time and a sequence
/// number; the score is not set yet.
pub open spec fn analysed(profile: UltimateCreditProfile, now: u64, sequence: u32) -> UltimateCreditProfile {
    UltimateCreditProfile {
        total_transactions: transactions_at(now, sequence).total_count,
        asset_diversity: asset_diversity_at(sequence) as u32,
        total_swap_volume: swap_volume_at(sequence) as i128,
        scoring_breakdown: breakdown_at(now, sequence),
        cross_protocol_data: cross_protocol_at(sequence),
        ..profile
    }
}

/// The profile after the wallet was scored at a time and a sequence number.
#[verifier::opaque]
pub open spec fn scored(profile: UltimateCreditProfile, now: u64, sequence: u32) -> UltimateCreditProfile {
    UltimateCreditProfile {
        credit_score: score_at(now, sequence) as u32,
        last_updated: now,
        ..analysed(profile, now, sequence)
    }
}

/// The scorer.
pub struct UltimateCreditScoreContract {
    pub admin: Option<Address>,
    pub network_config: Option<NetworkConfig>,
    /// Profiles by the user's identifier.
    pub profiles: HashMap<u64, UltimateCreditProfile>,
}

impl UltimateCreditScoreContract {
    /// The profile of `user`: the one that is kept, or a fresh one.
    pub open spec fn profile_of(&self, user: Address, now: u64) -> UltimateCreditProfile {
        if self.profiles@.contains_key(user.id) {
            self.profiles@[user.id]
        } else {
            new_profile(user, now)
        }
    }

    /// A scorer that has not been set up.
    pub fn new() -> (c: Self)
        ensures
            c.admin is None,
            c.network_config is None,
            c.profiles@ == Map::<u64, UltimateCreditProfile>::empty(),
    {
        UltimateCreditScoreContract { admin: None, network_config: None, profiles: HashMap::new() }
    }

    /// Sets the scorer up for the network `network_id`, with the two known
    /// assets.
    pub fn initialize(&mut self, admin: Address, network_id: String) -> (r: Result<(), CreditScoreError>)
        ensures
            r is Ok,
            final(self).admin == Some(admin),
            final(self).network_config is Some,
            final(self).network_config->Some_0.network_id == network_id,
            final(self).network_config->Some_0.algorithm_version == ALGORITHM_VERSION,
            final(self).network_config->Some_0.supported_assets@.len() == 2,
            final(self).network_config->Some_0.supported_assets@[0]@ == "XLM"@,
            final(self).network_config->Some_0.supported_assets@[1]@ == "USDC"@,
            final(self).profiles == old(self).profiles,
    {
        self.admin = Some(admin);
        let mut supported_assets: Vec<String> = Vec::new();
        supported_assets.push("XLM".to_owned());
        supported_assets.push("USDC".to_owned());
        self.network_config = Some(
            NetworkConfig { supported_assets, algorithm_version: ALGORITHM_VERSION, network_id },
        );
        Ok(())
    }

    /// Age of a wallet in days, as [`wallet_age_days`] states.
    pub fn calculate_wallet_age(sequence: u32) -> (r: Result<u64, CreditScoreError>)
        ensures
            r == Ok::<u64, CreditScoreError>(wallet_age_days(sequence) as u64),
            0 <= wallet_age_days(sequence) <= 365,
    {
        let estimated_days: u32 = if sequence > 1000 {
            (sequence - 1000) / LEDGERS_PER_DAY
        } else {
            0
        };
        if estimated_days > 365 {
            Ok(365)
        } else {
            Ok(estimated_days as u64)
        }
    }

    /// The transactions of a wallet, as [`transactions_at`] states.
    pub fn analyze_transactions(now: u64, sequence: u32) -> (r: Result<TransactionAnalysis, CreditScoreError>)
        ensures
            r == Ok::<TransactionAnalysis, CreditScoreError>(transactions_at(now, sequence)),
            1 <= transactions_at(now, sequence).total_count <= 99,
            100_000 <= transactions_at(now, sequence).avg_size <= 9_010_000,
            transactions_at(now, sequence).max_transaction == 5 * transactions_at(
                now,
                sequence,
            ).avg_size,
            1 <= transactions_at(now, sequence).frequency <= 99,
    {
        let account_activity_factor: u64 = (sequence % 1000) as u64;
        let total_count: u64 = if account_activity_factor > 100 {
            if account_activity_factor / 10 > 500 {
                500
            } else {
                account_activity_factor / 10
            }
        } else {
            1
        };
        let avg_size: i64 = 100_000 + ((account_activity_factor % 100) * 90_000) as i64;
        let estimated_days_active: u64 = if sequence / LEDGERS_PER_DAY >= 1 {
            (sequence / LEDGERS_PER_DAY) as u64
        } else {
            1
        };
        let frequency: u32 = if total_count / estimated_days_active >= 1 {
            (total_count / estimated_days_active) as u32
        } else {
            1
        };
        proof {
            let c = total_count as int;
            let d = estimated_days_active as int;
            assert(c / d <= c) by (nonlinear_arith)
                requires
                    c >= 0,
                    d >= 1,
            ;
        }
        Ok(
            TransactionAnalysis {
                total_count,
                avg_size,
                frequency,
                max_transaction: (avg_size as i128) * 5,
                last_tx_time: now.saturating_sub(86400 * (account_activity_factor % 30)),
            },
        )
    }

    /// Number of assets of a wallet, as [`asset_diversity_at`] states.
    pub fn analyze_asset_diversity(sequence: u32) -> (r: Result<u32, CreditScoreError>)
        ensures
            r == Ok::<u32, CreditScoreError>(asset_diversity_at(sequence) as u32),
            1 <= asset_diversity_at(sequence) <= 6,
    {
        let activity_level: u32 = sequence % 1000;
        let diversity: u32 = if activity_level <= 100 {
            1
        } else if activity_level <= 300 {
            2
        } else if activity_level <= 500 {
            3
        } else if activity_level <= 700 {
            4
        } else if activity_level <= 900 {
            5
        } else {
            6
        };
        Ok(diversity)
    }

    /// Swap volume of a wallet, as [`swap_volume_at`] states.
    pub fn analyze_swap_volume(sequence: u32) -> (r: Result<i128, CreditScoreError>)
        ensures
            r == Ok::<i128, CreditScoreError>(swap_volume_at(sequence) as i128),
            0 <= swap_volume_at(sequence) <= 1_000_000_000_000,
    {
        let activity_factor: i128 = (sequence % 10000) as i128;
        let base_volume: i128 = activity_factor * 100_000;
        let maturity_multiplier: i128 = if sequence > 50000 {
            10
        } else if sequence > 10000 {
            5
        } else {
            1
        };
        let total_volume: i128 = base_volume * maturity_multiplier;
        if total_volume > 1_000_000_000_000 {
            Ok(1_000_000_000_000)
        } else {
            Ok(total_volume)
        }
    }

    /// Points for behaviour, as [`behavior_score`] states. Transactions
    /// whose average size is not positive are invalid.
    pub fn analyze_defi_behavior(tx_analysis: &TransactionAnalysis, now: u64) -> (r: Result<
        u32,
        CreditScoreError,
    >)
        ensures
            tx_analysis.avg_size > 0 ==> r == Ok::<u32, CreditScoreError>(
                least(behavior_score(*tx_analysis, now), 20) as u32,
            ),
            tx_analysis.avg_size <= 0 ==> r == Err::<u32, CreditScoreError>(
                CreditScoreError::InvalidParameters,
            ),
            0 <= behavior_score(*tx_analysis, now) <= 20,
    {
        if tx_analysis.avg_size <= 0 {
            return Err(CreditScoreError::InvalidParameters);
        }
        let mut behavior_score: u32 = 0;
        if tx_analysis.frequency > 0 && tx_analysis.frequency < 100 {
            behavior_score += 5;
        }
        let size_variance: i128 = tx_analysis.max_transaction / (tx_analysis.avg_size as i128);
        if size_variance < 10 {
            behavior_score += 5;
        }
        let days_since_last_tx: u64 = now.saturating_sub(tx_analysis.last_tx_time) / SECONDS_PER_DAY;
        if days_since_last_tx < 7 {
            behavior_score += 10;
        }
        Ok(behavior_score)
    }

    /// What a wallet did in other protocols, as [`cross_protocol_at`]
    /// states.
    pub fn analyze_cross_protocol_activity(sequence: u32) -> (r: Result<
        CrossProtocolData,
        CreditScoreError,
    >)
        ensures
            r == Ok::<CrossProtocolData, CreditScoreError>(cross_protocol_at(sequence)),
    {
        Ok(
            CrossProtocolData {
                dex_interactions: sequence % 50,
                lending_activity: sequence % 20,
                liquidity_events: sequence % 30,
                governance_votes: sequence % 10,
            },
        )
    }

    /// Analyses the wallet behind `profile` at a time and a sequence number,
    /// as [`analysed`] states.
    pub fn analyze_stellar_wallet(profile: UltimateCreditProfile, now: u64, sequence: u32) -> (r: Result<
        UltimateCreditProfile,
        CreditScoreError,
    >)
        ensures
            r == Ok::<UltimateCreditProfile, CreditScoreError>(analysed(profile, now, sequence)),
            breakdown_at(now, sequence).wallet_age_score <= 20,
            breakdown_at(now, sequence).tx_count_score <= 20,
            breakdown_at(now, sequence).asset_diversity_score <= 20,
            breakdown_at(now, sequence).swap_volume_score <= 20,
            breakdown_at(now, sequence).behavioral_score <= 20,
    {
        proof {
            reveal(breakdown_at);
        }
        let mut profile = profile;
        let wallet_age_days: u64 = match Self::calculate_wallet_age(sequence) {
            Ok(d) => d,
            Err(e) => {
                return Err(e);
            },
        };
        profile.scoring_breakdown.wallet_age_score = if wallet_age_days >= WALLET_AGE_THRESHOLD_DAYS {
            20
        } else {
            ((wallet_age_days * 20) / WALLET_AGE_THRESHOLD_DAYS) as u32
        };
        let tx_analysis = match Self::analyze_transactions(now, sequence) {
            Ok(t) => t,
            Err(e) => {
                return Err(e);
            },
        };
        profile.total_transactions = tx_analysis.total_count;
        profile.scoring_breakdown.tx_count_score = if tx_analysis.total_count >= TX_COUNT_THRESHOLD {
            20
        } else {
            ((tx_analysis.total_count * 20) / TX_COUNT_THRESHOLD) as u32
        };
        let asset_diversity: u32 = match Self::analyze_asset_diversity(sequence) {
            Ok(a) => a,
            Err(e) => {
                return Err(e);
            },
        };
        profile.asset_diversity = asset_diversity;
        profile.scoring_breakdown.asset_diversity_score = if asset_diversity
            >= ASSET_DIVERSITY_THRESHOLD {
            20
        } else {
            (asset_diversity * 20) / ASSET_DIVERSITY_THRESHOLD
        };
        let swap_volume: i128 = match Self::analyze_swap_volume(sequence) {
            Ok(v) => v,
            Err(e) => {
                return Err(e);
            },
        };
        profile.total_swap_volume = swap_volume;
        profile.scoring_breakdown.swap_volume_score = if swap_volume >= HIGH_VOLUME_THRESHOLD {
            20
        } else {
            ((swap_volume * 20) / HIGH_VOLUME_THRESHOLD) as u32
        };
        profile.scoring_breakdown.behavioral_score = match Self::analyze_defi_behavior(
            &tx_analysis,
            now,
        ) {
            Ok(b) => b,
            Err(e) => {
                return Err(e);
            },
        };
        profile.cross_protocol_data = match Self::analyze_cross_protocol_activity(sequence) {
            Ok(c) => c,
            Err(e) => {
                return Err(e);
            },
        };
        Ok(profile)
    }

    /// The score that the parts of `profile` add up to, 100 at most.
    pub fn compute_ultimate_score(profile: &UltimateCreditProfile) -> (score: u32)
        ensures
            score == total_score(profile.scoring_breakdown),
            score <= MAX_SCORE,
    {
        let breakdown = &profile.scoring_breakdown;
        let total_score: u32 = breakdown.wallet_age_score.saturating_add(
            breakdown.tx_count_score,
        ).saturating_add(breakdown.asset_diversity_score).saturating_add(
            breakdown.swap_volume_score,
        ).saturating_add(breakdown.behavioral_score);
        if total_score > MAX_SCORE {
            MAX_SCORE
        } else {
            total_score
        }
    }

    /// The profile of `user`: the one that is kept, or a fresh one dated
    /// `now`.
    pub fn get_or_create_profile(&self, user: Address, now: u64) -> (r: Result<
        UltimateCreditProfile,
        CreditScoreError,
    >)
        ensures
            r == Ok::<UltimateCreditProfile, CreditScoreError>(self.profile_of(user, now)),
    {
        match self.profiles.get(&user.id) {
            Some(profile) => Ok(*profile),
            None => Ok(
                UltimateCreditProfile {
                    user,
                    credit_score: 0,
                    wallet_created_at: now,
                    total_transactions: 0,
                    asset_diversity: 0,
                    total_swap_volume: 0,
                    last_updated: now,
                    scoring_breakdown: ScoringBreakdown {
                        wallet_age_score: 0,
                        tx_count_score: 0,
                        asset_diversity_score: 0,
                        swap_volume_score: 0,
                        behavioral_score: 0,
                    },
                    risk_level: RiskLevel::VeryPoor,
                    cross_protocol_data: CrossProtocolData {
                        dex_interactions: 0,
                        lending_activity: 0,
                        liquidity_events: 0,
                        governance_votes: 0,
                    },
                },
            ),
        }
    }

    /// Scores the wallet of `user` at a time and a sequence number, keeps
    /// the scored profile and returns the score.
    pub fn calculate_score(&mut self, user: Address, now: u64, sequence: u32) -> (r: Result<
        u32,
        CreditScoreError,
    >)
        ensures
            r == Ok::<u32, CreditScoreError>(score_at(now, sequence) as u32),
            score_at(now, sequence) <= MAX_SCORE,
            final(self).profiles@ == old(self).profiles@.insert(
                user.id,
                scored(old(self).profile_of(user, now), now, sequence),
            ),
            final(self).admin == old(self).admin,
            final(self).network_config == old(self).network_config,
    {
        proof {
            reveal(scored);
        }
        let profile = match self.get_or_create_profile(user, now) {
            Ok(p) => p,
            Err(e) => {
                proof {
                    assert(false);
                }
                return Err(e);
            },
        };
        let updated_profile = match Self::analyze_stellar_wallet(profile, now, sequence) {
            Ok(p) => p,
            Err(e) => {
                proof {
                    assert(false);
                }
                return Err(e);
            },
        };
        let final_score: u32 = Self::compute_ultimate_score(&updated_profile);
        let mut final_profile = updated_profile;
        final_profile.credit_score = final_score;
        final_profile.last_updated = now;
        self.profiles.insert(user.id, final_profile);
        Ok(final_score)
    }

    /// The score that is kept for `user`.
    pub fn get_score(&self, user: Address) -> (r: Result<u32, CreditScoreError>)
        ensures
            self.profiles@.contains_key(user.id) ==> r == Ok::<u32, CreditScoreError>(
                self.profiles@[user.id].credit_score,
            ),
            !self.profiles@.contains_key(user.id) ==> r == Err::<u32, CreditScoreError>(
                CreditScoreError::UserNotFound,
            ),
    {
        match self.profiles.get(&user.id) {
            Some(profile) => Ok(profile.credit_score),
            None => Err(CreditScoreError::UserNotFound),
        }
    }

    /// The profile that is kept for `user`.
    pub fn get_profile(&self, user: Address) -> (r: Result<UltimateCreditProfile, CreditScoreError>)
        ensures
            self.profiles@.contains_key(user.id) ==> r == Ok::<
                UltimateCreditProfile,
                CreditScoreError,
            >(self.profiles@[user.id]),
            !self.profiles@.contains_key(user.id) ==> r == Err::<
                UltimateCreditProfile,
                CreditScoreError,
            >(CreditScoreError::UserNotFound),
    {
        match self.profiles.get(&user.id) {
            Some(profile) => Ok(*profile),
            None => Err(CreditScoreError::UserNotFound),
        }
    }

    /// The parts of the score that is kept for `user`.
    pub fn get_scoring_breakdown(&self, user: Address) -> (r: Result<ScoringBreakdown, CreditScoreError>)
        ensures
            self.profiles@.contains_key(user.id) ==> r == Ok::<ScoringBreakdown, CreditScoreError>(
                self.profiles@[user.id].scoring_breakdown,
            ),
            !self.profiles@.contains_key(user.id) ==> r == Err::<
                ScoringBreakdown,
                CreditScoreError,
            >(CreditScoreError::UserNotFound),
    {
        match self.profiles.get(&user.id) {
            Some(profile) => Ok(profile.scoring_breakdown),
            None => Err(CreditScoreError::UserNotFound),
        }
    }

    /// The risk that the score of `user` stands for, as [`risk_level_for`]
    /// states.
    pub fn get_risk_level(&self, user: Address) -> (r: Result<RiskLevel, CreditScoreError>)
        ensures
            self.profiles@.contains_key(user.id) ==> r == Ok::<RiskLevel, CreditScoreError>(
                risk_level_for(self.profiles@[user.id].credit_score),
            ),
            !self.profiles@.contains_key(user.id) ==> r == Err::<RiskLevel, CreditScoreError>(
                CreditScoreError::UserNotFound,
            ),
    {
        let score: u32 = match self.get_score(user) {
            Ok(s) => s,
            Err(e) => {
                return Err(e);
            },
        };
        let risk_level = if 80 <= score && score <= 100 {
            RiskLevel::Excellent
        } else if 70 <= score && score <= 79 {
            RiskLevel::Good
        } else if 50 <= score && score <= 69 {
            RiskLevel::Fair
        } else if 30 <= score && score <= 49 {
            RiskLevel::Poor
        } else {
            RiskLevel::VeryPoor
        };
        Ok(risk_level)
    }

    /// Whether `caller` is the administrator.
    fn is_admin(&self, caller: Address) -> (b: bool)
        ensures
            b == (self.admin == Some(caller)),
    {
        match self.admin {
            Some(a) => a == caller,
            None => false,
        }
    }

    /// Replaces the network settings. Only the administrator may do so.
    pub fn update_network_config(&mut self, caller: Address, config: NetworkConfig) -> (r: Result<
        (),
        CreditScoreError,
    >)
        ensures
            r is Ok <==> old(self).admin == Some(caller),
            r is Err ==> r == Err::<(), CreditScoreError>(CreditScoreError::Unauthorized),
            r is Err ==> *final(self) == *old(self),
            r is Ok ==> final(self).network_config == Some(config),
            final(self).admin == old(self).admin,
            final(self).profiles == old(self).profiles,
    {
        if !self.is_admin(caller) {
            return Err(CreditScoreError::Unauthorized);
        }
        self.network_config = Some(config);
        Ok(())
    }

    /// Scores the wallet of `user` anew. Only the administrator may ask.
    pub fn recalculate_score(&mut self, caller: Address, user: Address, now: u64, sequence: u32) -> (r:
        Result<u32, CreditScoreError>)
        ensures
            r is Ok <==> old(self).admin == Some(caller),
            r is Err ==> r == Err::<u32, CreditScoreError>(CreditScoreError::Unauthorized),
            r is Err ==> *final(self) == *old(self),
            r is Ok ==> {
                &&& r == Ok::<u32, CreditScoreError>(score_at(now, sequence) as u32)
                &&& final(self).profiles@ == old(self).profiles@.insert(
                    user.id,
                    scored(old(self).profile_of(user, now), now, sequence),
                )
                &&& final(self).admin == old(self).admin
                &&& final(self).network_config == old(self).network_config
            },
    {
        if !self.is_admin(caller) {
            return Err(CreditScoreError::Unauthorized);
        }
        self.calculate_score(user, now, sequence)
    }

    /// The network settings, once they are set.
    pub fn get_network_config(&self) -> (r: Result<&NetworkConfig, CreditScoreError>)
        ensures
            match self.network_config {
                Some(c) => r is Ok && *r->Ok_0 == c,
                None => r == Err::<&NetworkConfig, CreditScoreError>(
                    CreditScoreError::NetworkDataError,
                ),
            },
    {
        match &self.network_config {
            Some(c) => Ok(c),
            None => Err(CreditScoreError::NetworkDataError),
        }
    }

    /// Scores the wallets of `users` one after the other and returns their
    /// scores in the same order. Every wallet that is listed has its scored
    /// profile kept; every other profile stays as it was.
    pub fn calculate_scores_bulk(&mut self, users: &Vec<Address>, now: u64, sequence: u32) -> (r: Result<
        Vec<u32>,
        CreditScoreError,
    >)
        ensures
            r is Ok,
            r->Ok_0@.len() == users@.len(),
            forall|i: int| 0 <= i < users@.len() ==> #[trigger] r->Ok_0@[i] == score_at(now, sequence),
            forall|i: int|
                0 <= i < users@.len() ==> {
                    &&& final(self).profiles@.contains_key(#[trigger] users@[i].id)
                    &&& final(self).profiles@[users@[i].id] == scored(
                        old(self).profile_of(users@[i], now),
                        now,
                        sequence,
                    )
                },
            kept_for_others(old(self).profiles@, final(self).profiles@, users@),
            final(self).admin == old(self).admin,
            final(self).network_config == old(self).network_config,
    {
        let mut scores: Vec<u32> = Vec::new();
        let mut i: usize = 0;
        while i < users.len()
            invariant
                i <= users@.len(),
                scores@.len() == i,
                self.admin == old(self).admin,
                self.network_config == old(self).network_config,
                forall|j: int| 0 <= j < i ==> #[trigger] scores@[j] == score_at(now, sequence),
                forall|j: int|
                    0 <= j < i ==> {
                        &&& self.profiles@.contains_key(#[trigger] users@[j].id)
                        &&& self.profiles@[users@[j].id] == scored(
                            old(self).profile_of(users@[j], now),
                            now,
                            sequence,
                        )
                    },
                kept_for_others(old(self).profiles@, self.profiles@, users@.subrange(0, i as int)),
            decreases users@.len() - i,
        {
            let user = users[i];
            let ghost before = self.profiles@;
            proof {
                lemma_scoring_is_idempotent(old(self).profile_of(user, now), now, sequence);
                if !listed(users@.subrange(0, i as int), user.id) {
                    assert(self.profile_of(user, now) == old(self).profile_of(user, now));
                } else {
                    let j = choose|j: int|
                        0 <= j < users@.subrange(0, i as int).len() && users@.subrange(0, i as int)[j].id
                            == user.id;
                    assert(users@[j].id == user.id);
                    assert(users@[j] == user);
                }
            }
            let score: u32 = match self.calculate_score(user, now, sequence) {
                Ok(s) => s,
                Err(e) => {
                    proof {
                        assert(false);
                    }
                    return Err(e);
                },
            };
            scores.push(score);
            proof {
                assert forall|id: u64| !(#[trigger] listed(users@.subrange(0, i as int + 1), id)) implies {
                    &&& self.profiles@.contains_key(id) == old(self).profiles@.contains_key(id)
                    &&& old(self).profiles@.contains_key(id) ==> self.profiles@[id] == old(self).profiles@[id]
                } by {
                    assert(users@.subrange(0, i as int + 1)[i as int] == user);
                    assert(id != user.id);
                    if listed(users@.subrange(0, i as int), id) {
                        let j = choose|j: int|
                            0 <= j < users@.subrange(0, i as int).len() && users@.subrange(
                                0,
                                i as int,
                            )[j].id == id;
                        assert(users@.subrange(0, i as int + 1)[j].id == id);
                    }
                }
            }
            i = i + 1;
        }
        proof {
            assert(users@.subrange(0, i as int) =~= users@);
        }
        Ok(scores)
    }
}

/// Whether `after` keeps, for every user that is not among `users`, what
/// `before` held.
pub open spec fn kept_for_others(
    before: Map<u64, UltimateCreditProfile>,
    after: Map<u64, UltimateCreditProfile>,
    users: Seq<Address>,
) -> bool {
    forall|id: u64|
        !(#[trigger] listed(users, id)) ==> {
            &&& after.contains_key(id) == before.contains_key(id)
            &&& before.contains_key(id) ==> after[id] == before[id]
        }
}

/// Whether a user with this identifier is among `users`.
pub open spec fn listed(users: Seq<Address>, id: u64) -> bool {
    exists|j: int| 0 <= j < users.len() && #[trigger] users[j].id == id
}

/// Scoring a wallet twice at the same time and sequence number gives the
/// profile that scoring it once gives.
pub proof fn lemma_scoring_is_idempotent(profile: UltimateCreditProfile, now: u64, sequence: u32)
    ensures
        scored(scored(profile, now, sequence), now, sequence) == scored(profile, now, sequence),
{
    reveal(scored);
}

/// A score never exceeds 100, and a higher score never stands for a higher
/// risk.
pub proof fn lemma_score_in_range(now: u64, sequence: u32, low: u32, high: u32)
    requires
        low <= high <= 100,
    ensures
        0 <= score_at(now, sequence) <= MAX_SCORE,
        risk_rank(risk_level_for(high)) <= risk_rank(risk_level_for(low)),
{
    reveal(breakdown_at);
}

/// The place of a risk level, from the lowest risk upwards.
pub open spec fn risk_rank(level: RiskLevel) -> int {
    match level {
        RiskLevel::Excellent => 0,
        RiskLevel::Good => 1,
        RiskLevel::Fair => 2,
        RiskLevel::Poor => 3,
        RiskLevel::VeryPoor => 4,
    }
}

} // verus!
