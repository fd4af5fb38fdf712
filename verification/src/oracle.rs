//! The price oracle: feeders report prices for a source, and the oracle
//! combines the fresh prices of the active sources into a weighted average,
//! guarded by a limit on how far the sources may disagree.

use vstd::prelude::*;
use vstd::hash_map::StringHashMap;
use vstd::string::StringSliceAdditionalSpecFns;
use crate::types::Address;
use crate::math::{div_toward_zero, fits_i128, magnitude};

verus! {

/// Largest deviation between sources that is expected, in basis points.
pub const MAX_PRICE_DEVIATION: u32 = 1000;

/// Age in seconds from which a reported price is stale.
pub const PRICE_STALENESS_THRESHOLD: u64 = 3600;

/// Number of sources that an average needs.
pub const MIN_PRICE_SOURCES: u32 = 2;

/// Age in seconds up to which a time-weighted price is used.
pub const TWAP_WINDOW: u64 = 86400;

/// Deviation between sources beyond which no average is published, in
/// basis points.
pub const CIRCUIT_BREAKER_THRESHOLD: u32 = 2000;

/// Volume that is recorded with a time-weighted price.
pub const TWAP_VOLUME: i128 = 1_000_000;

/// Why the oracle refused an operation.
#[derive(Clone, Copy, Debug, PartialEq, Eq, Structural)]
pub enum OracleError {
    PriceNotFound,
    StalePrice,
    InsufficientSources,
    PriceDeviationTooHigh,
    CircuitBreakerTriggered,
    UnauthorizedFeeder,
    InvalidPriceData,
    SourceNotFound,
}

/// Where a price comes from.
#[derive(Clone, Copy, Debug, PartialEq, Eq, Structural)]
pub enum PriceSource {
    Chainlink,
    RedStone,
    StellarDEX,
    Pyth,
    Manual,
}

/// A price that a feeder reported.
#[derive(Debug, PartialEq, Eq)]
pub struct PriceFeed {
    pub asset: String,
    /// Price in USD, with eight decimals.
    pub price: i128,
    pub timestamp: u64,
    pub source: PriceSource,
    /// Confidence in the price, in basis points.
    pub confidence: u32,
    pub data_points: u32,
}

/// The price that the oracle publishes for an asset.
#[derive(Debug, PartialEq, Eq)]
pub struct AggregatedPrice {
    pub asset: String,
    /// Average of the sources, weighted by their weights.
    pub price: i128,
    pub timestamp: u64,
    /// The sources that went into the average.
    pub sources: Vec<PriceSource>,
    pub confidence_score: u32,
    pub twap_price: i128,
    /// Largest distance of a source from the average, in basis points.
    pub deviation: u32,
}

/// How a source is treated.
#[derive(Debug, PartialEq, Eq)]
pub struct SourceConfig {
    pub source: PriceSource,
    /// Weight of the source in the average.
    pub weight: u32,
    pub active: bool,
    /// Who may report prices for the source.
    pub feeders: Vec<Address>,
    pub reliability: u32,
}

/// A time-weighted price.
#[derive(Clone, Copy, Debug, PartialEq, Eq)]
pub struct TWAPDataPoint {
    pub price: i128,
    pub timestamp: u64,
    pub volume: i128,
}

/// Settings of the oracle.
#[derive(Clone, Copy, Debug, PartialEq, Eq)]
pub struct OracleConfig {
    pub max_deviation: u32,
    pub staleness_threshold: u64,
    pub min_sources: u32,
    pub circuit_breaker_threshold: u32,
    pub twap_window: u64,
}

/// The settings of each source that has some.
#[derive(Debug, PartialEq, Eq)]
pub struct SourceTable {
    pub chainlink: Option<SourceConfig>,
    pub red_stone: Option<SourceConfig>,
    pub stellar_dex: Option<SourceConfig>,
    pub pyth: Option<SourceConfig>,
    pub manual: Option<SourceConfig>,
}

impl SourceTable {
    /// The settings of `source`, if it has some.
    pub open spec fn config_of(&self, source: PriceSource) -> Option<SourceConfig> {
        match source {
            PriceSource::Chainlink => self.chainlink,
            PriceSource::RedStone => self.red_stone,
            PriceSource::StellarDEX => self.stellar_dex,
            PriceSource::Pyth => self.pyth,
            PriceSource::Manual => self.manual,
        }
    }

    /// A table in which no source has settings.
    pub fn new() -> (t: Self)
        ensures
            forall|s: PriceSource| t.config_of(s) is None,
    {
        SourceTable { chainlink: None, red_stone: None, stellar_dex: None, pyth: None, manual: None }
    }

    /// The settings of `source`, if it has some.
    pub fn get(&self, source: PriceSource) -> (r: Option<&SourceConfig>)
        ensures
            match r {
                Some(c) => self.config_of(source) == Some(*c),
                None => self.config_of(source) is None,
            },
    {
        let slot = match source {
            PriceSource::Chainlink => &self.chainlink,
            PriceSource::RedStone => &self.red_stone,
            PriceSource::StellarDEX => &self.stellar_dex,
            PriceSource::Pyth => &self.pyth,
            PriceSource::Manual => &self.manual,
        };
        match slot {
            Some(c) => Some(c),
            None => None,
        }
    }

    /// Gives `source` the settings `config`.
    pub fn set(&mut self, source: PriceSource, config: SourceConfig)
        ensures
            final(self).config_of(source) == Some(config),
            forall|s: PriceSource| s != source ==> final(self).config_of(s) == old(self).config_of(s),
    {
        match source {
            PriceSource::Chainlink => {
                self.chainlink = Some(config);
            },
            PriceSource::RedStone => {
                self.red_stone = Some(config);
            },
            PriceSource::StellarDEX => {
                self.stellar_dex = Some(config);
            },
            PriceSource::Pyth => {
                self.pyth = Some(config);
            },
            PriceSource::Manual => {
                self.manual = Some(config);
            },
        }
    }
}

/// The latest price that was reported for each asset, source by source.
pub struct FeedTable {
    pub chainlink: StringHashMap<PriceFeed>,
    pub red_stone: StringHashMap<PriceFeed>,
    pub stellar_dex: StringHashMap<PriceFeed>,
    pub pyth: StringHashMap<PriceFeed>,
    pub manual: StringHashMap<PriceFeed>,
}

impl FeedTable {
    /// The prices of `source`, by asset.
    pub open spec fn feeds_of(&self, source: PriceSource) -> Map<Seq<char>, PriceFeed> {
        match source {
            PriceSource::Chainlink => self.chainlink@,
            PriceSource::RedStone => self.red_stone@,
            PriceSource::StellarDEX => self.stellar_dex@,
            PriceSource::Pyth => self.pyth@,
            PriceSource::Manual => self.manual@,
        }
    }

    /// A table without prices.
    pub fn new() -> (t: Self)
        ensures
            forall|s: PriceSource| t.feeds_of(s) == Map::<Seq<char>, PriceFeed>::empty(),
    {
        FeedTable {
            chainlink: StringHashMap::new(),
            red_stone: StringHashMap::new(),
            stellar_dex: StringHashMap::new(),
            pyth: StringHashMap::new(),
            manual: StringHashMap::new(),
        }
    }

    /// The price that `source` reported for `asset`, if any.
    pub fn get(&self, source: PriceSource, asset: &str) -> (r: Option<&PriceFeed>)
        ensures
            match r {
                Some(f) => self.feeds_of(source).contains_key(asset@) && self.feeds_of(
                    source,
                )[asset@] == *f,
                None => !self.feeds_of(source).contains_key(asset@),
            },
    {
        match source {
            PriceSource::Chainlink => self.chainlink.get(asset),
            PriceSource::RedStone => self.red_stone.get(asset),
            PriceSource::StellarDEX => self.stellar_dex.get(asset),
            PriceSource::Pyth => self.pyth.get(asset),
            PriceSource::Manual => self.manual.get(asset),
        }
    }

    /// Records the price that `source` reported for `asset`.
    pub fn set(&mut self, source: PriceSource, asset: String, feed: PriceFeed)
        ensures
            final(self).feeds_of(source) == old(self).feeds_of(source).insert(asset@, feed),
            forall|s: PriceSource| s != source ==> final(self).feeds_of(s) == old(self).feeds_of(s),
    {
        match source {
            PriceSource::Chainlink => {
                self.chainlink.insert(asset, feed);
            },
            PriceSource::RedStone => {
                self.red_stone.insert(asset, feed);
            },
            PriceSource::StellarDEX => {
                self.stellar_dex.insert(asset, feed);
            },
            PriceSource::Pyth => {
                self.pyth.insert(asset, feed);
            },
            PriceSource::Manual => {
                self.manual.insert(asset, feed);
            },
        }
    }
}

/// A price is valid if it is positive and its confidence is at most 100 %.
pub open spec fn valid_price_data(price: i128, confidence: u32) -> bool {
    price > 0 && confidence <= 10000
}

/// Seconds between `timestamp` and `now`; zero for a time that is yet to
/// come.
pub open spec fn age(now: u64, timestamp: u64) -> int {
    if now >= timestamp {
        now - timestamp
    } else {
        0
    }
}

/// The price that the oracle assumes for an asset of which it knows
/// nothing: one dollar, moved by up to half a dollar by the length of the
/// asset's code in bytes.
pub open spec fn mock_price(code_len: nat) -> int {
    100_000_000 + ((code_len * 12345 + 67890) % 100 - 50) * 1_000_000
}

/// Distance of `price` from `avg_price` in basis points of the average,
/// held at the largest `u32`; nothing where it cannot be computed inside
/// `i128`.
pub open spec fn deviation_of(price: i128, avg_price: i128) -> Option<u32>
    recommends
        avg_price > 0,
{
    let scaled = magnitude(price - avg_price) * 10000;
    if !fits_i128(price - avg_price) || !fits_i128(scaled) {
        None
    } else if scaled / (avg_price as int) > u32::MAX {
        Some(u32::MAX)
    } else {
        Some((scaled / (avg_price as int)) as u32)
    }
}

/// The largest deviation among the first `upto` prices; nothing where one
/// of them cannot be computed.
pub open spec fn max_deviation(prices: Seq<i128>, avg_price: i128, upto: int) -> Option<u32>
    decreases upto,
{
    if upto <= 0 {
        Some(0u32)
    } else {
        match (max_deviation(prices, avg_price, upto - 1), deviation_of(prices[upto - 1], avg_price)) {
            (Some(m), Some(d)) => if d > m {
                Some(d)
            } else {
                Some(m)
            },
            _ => None,
        }
    }
}

/// The largest distance of a price from the average, in basis points.
///
/// No prices: zero. An average that is not positive, or a distance that
/// cannot be computed inside `i128`, is invalid price data.
pub open spec fn deviation_outcome(prices: Seq<i128>, avg_price: i128) -> Result<u32, OracleError> {
    if prices.len() == 0 {
        Ok(0)
    } else if avg_price <= 0 {
        Err(OracleError::InvalidPriceData)
    } else {
        match max_deviation(prices, avg_price, prices.len() as int) {
            Some(d) => Ok(d),
            None => Err(OracleError::InvalidPriceData),
        }
    }
}

/// The confidence in an average of `source_count` sources that deviate by
/// `deviation`: 20 % for each source up to 80 %, and up to 20 % more, less a
/// fifth of the deviation.
pub open spec fn confidence_score(source_count: nat, deviation: u32) -> int {
    let source_score: int = if source_count >= 4 {
        8000
    } else {
        source_count as int * 2000
    };
    let deviation_score: int = if deviation / 5 >= 2000 {
        0
    } else {
        2000 - deviation / 5
    };
    source_score + deviation_score
}

/// What was gathered from the sources so far.
pub struct Tally {
    pub prices: Seq<i128>,
    pub sources: Seq<PriceSource>,
    /// Sum of the prices, each times the weight of its source.
    pub weighted_sum: int,
    pub total_weight: int,
    /// Whether every sum so far could be held.
    pub in_range: bool,
}

/// A tally of nothing.
pub open spec fn empty_tally() -> Tally {
    Tally { prices: Seq::empty(), sources: Seq::empty(), weighted_sum: 0, total_weight: 0, in_range: true }
}

/// The tally with the quote of one more source, if it has one.
pub open spec fn tally_add(t: Tally, source: PriceSource, quote: Option<(i128, u32)>) -> Tally {
    match quote {
        None => t,
        Some((price, weight)) => Tally {
            prices: t.prices.push(price),
            sources: t.sources.push(source),
            weighted_sum: t.weighted_sum + price * weight,
            total_weight: t.total_weight + weight,
            in_range: t.in_range && fits_i128(price * weight) && fits_i128(
                t.weighted_sum + price * weight,
            ) && t.total_weight + weight <= u32::MAX,
        },
    }
}

/// The figures of an average.
pub struct Aggregate {
    pub price: i128,
    pub deviation: u32,
    pub confidence_score: u32,
    pub sources: Seq<PriceSource>,
}

/// The average that a tally gives.
///
/// Fewer than two sources are insufficient. Sums that cannot be held, or
/// weights that add up to nothing, are invalid price data. Sources that
/// deviate by more than 20 % from the average trip the circuit breaker.
pub open spec fn tally_outcome(t: Tally) -> Result<Aggregate, OracleError> {
    if t.sources.len() < MIN_PRICE_SOURCES {
        Err(OracleError::InsufficientSources)
    } else if !t.in_range || t.total_weight <= 0 {
        Err(OracleError::InvalidPriceData)
    } else {
        let avg = div_toward_zero(t.weighted_sum, t.total_weight) as i128;
        match deviation_outcome(t.prices, avg) {
            Err(e) => Err(e),
            Ok(deviation) => if deviation > CIRCUIT_BREAKER_THRESHOLD {
                Err(OracleError::CircuitBreakerTriggered)
            } else {
                Ok(
                    Aggregate {
                        price: avg,
                        deviation: deviation,
                        confidence_score: confidence_score(t.sources.len(), deviation) as u32,
                        sources: t.sources,
                    },
                )
            },
        }
    }
}

/// The figures of an average, as they are computed.
pub struct AggregateFigures {
    pub price: i128,
    pub deviation: u32,
    pub confidence_score: u32,
    pub sources: Vec<PriceSource>,
}

impl View for AggregateFigures {
    type V = Aggregate;

    open spec fn view(&self) -> Aggregate {
        Aggregate {
            price: self.price,
            deviation: self.deviation,
            confidence_score: self.confidence_score,
            sources: self.sources@,
        }
    }
}

/// Whether `published` is the average `figures` for `asset`, with the
/// time-weighted price `twap`, published at time `now`.
pub open spec fn publishes(
    published: AggregatedPrice,
    asset: Seq<char>,
    figures: Aggregate,
    twap: i128,
    now: u64,
) -> bool {
    &&& published.asset@ == asset
    &&& published.price == figures.price
    &&& published.timestamp == now
    &&& published.sources@ == figures.sources
    &&& published.confidence_score == figures.confidence_score
    &&& published.twap_price == twap
    &&& published.deviation == figures.deviation
}

/// Whether `feed` is the report of `price` for `asset` by `source` at time
/// `now`.
pub open spec fn reports(
    feed: PriceFeed,
    asset: Seq<char>,
    price: i128,
    source: PriceSource,
    confidence: u32,
    now: u64,
) -> bool {
    &&& feed.asset@ == asset
    &&& feed.price == price
    &&& feed.timestamp == now
    &&& feed.source == source
    &&& feed.confidence == confidence
    &&& feed.data_points == 1
}

/// What a report says, as far as an average depends on it.
pub struct Report {
    pub asset: Seq<char>,
    pub source: PriceSource,
    pub price: i128,
    pub timestamp: u64,
}

impl PriceFeed {
    /// What the report says.
    pub open spec fn report(&self) -> Report {
        Report { asset: self.asset@, source: self.source, price: self.price, timestamp: self.timestamp }
    }
}

/// What an optional report says.
pub open spec fn report_of(feed: Option<&PriceFeed>) -> Option<Report> {
    match feed {
        Some(f) => Some(f.report()),
        None => None,
    }
}

/// The oracle.
pub struct OracleContract {
    pub admin: Option<Address>,
    pub config: Option<OracleConfig>,
    /// Settings of the sources.
    pub sources: SourceTable,
    /// Latest reports, by source and asset.
    pub feeds: FeedTable,
    /// Published averages, by asset.
    pub aggregated: StringHashMap<AggregatedPrice>,
    /// Time-weighted prices, by asset.
    pub twap: StringHashMap<TWAPDataPoint>,
}

impl OracleContract {
    /// The report that counts for `asset` and `source`: the pending one
    /// where it is for them, else the one that is kept.
    pub open spec fn current_feed(
        &self,
        asset: Seq<char>,
        source: PriceSource,
        pending: Option<Report>,
    ) -> Option<Report> {
        if pending is Some && pending->Some_0.asset == asset && pending->Some_0.source == source {
            pending
        } else if self.feeds.feeds_of(source).contains_key(asset) {
            Some(self.feeds.feeds_of(source)[asset].report())
        } else {
            None
        }
    }

    /// Price and weight that `source` contributes for `asset` at time
    /// `now`: the source has to have settings and be active, and its report
    /// must be no older than an hour.
    pub open spec fn quote(
        &self,
        asset: Seq<char>,
        source: PriceSource,
        pending: Option<Report>,
        now: u64,
    ) -> Option<(i128, u32)> {
        match self.sources.config_of(source) {
            None => None,
            Some(config) => if !config.active {
                None
            } else {
                match self.current_feed(asset, source, pending) {
                    None => None,
                    Some(feed) => if age(now, feed.timestamp) <= PRICE_STALENESS_THRESHOLD {
                        Some((feed.price, config.weight))
                    } else {
                        None
                    },
                }
            },
        }
    }

    /// What the four market sources contribute for `asset` at time `now`.
    pub open spec fn tally(&self, asset: Seq<char>, pending: Option<Report>, now: u64) -> Tally {
        let t0 = tally_add(
            empty_tally(),
            PriceSource::Chainlink,
            self.quote(asset, PriceSource::Chainlink, pending, now),
        );
        let t1 = tally_add(
            t0,
            PriceSource::RedStone,
            self.quote(asset, PriceSource::RedStone, pending, now),
        );
        let t2 = tally_add(
            t1,
            PriceSource::StellarDEX,
            self.quote(asset, PriceSource::StellarDEX, pending, now),
        );
        tally_add(t2, PriceSource::Pyth, self.quote(asset, PriceSource::Pyth, pending, now))
    }

    /// Whether a time-weighted price of `asset` is kept that is no older
    /// than a day.
    pub open spec fn has_fresh_twap(&self, asset: Seq<char>, now: u64) -> bool {
        self.twap@.contains_key(asset) && age(now, self.twap@[asset].timestamp) <= TWAP_WINDOW
    }

    /// The time-weighted price of `asset` at time `now`: the one that is
    /// kept while it is fresh, else the assumed price.
    pub open spec fn twap_price(&self, asset: &str, now: u64) -> int {
        if self.has_fresh_twap(asset@, now) {
            self.twap@[asset@].price as int
        } else {
            mock_price(asset.len() as nat)
        }
    }

    /// Why `feeder` may not report for `source`, if it may not.
    pub open spec fn feeder_rejection(&self, feeder: Address, source: PriceSource) -> Option<
        OracleError,
    > {
        match self.sources.config_of(source) {
            None => Some(OracleError::SourceNotFound),
            Some(config) => if !config.feeders@.contains(feeder) {
                Some(OracleError::UnauthorizedFeeder)
            } else {
                None
            },
        }
    }

    /// An oracle that has not been set up.
    pub fn new() -> (c: Self)
        ensures
            c.admin is None,
            c.config is None,
            forall|s: PriceSource| c.sources.config_of(s) is None,
            forall|s: PriceSource| c.feeds.feeds_of(s) == Map::<Seq<char>, PriceFeed>::empty(),
            c.aggregated@ == Map::<Seq<char>, AggregatedPrice>::empty(),
            c.twap@ == Map::<Seq<char>, TWAPDataPoint>::empty(),
    {
        OracleContract {
            admin: None,
            config: None,
            sources: SourceTable::new(),
            feeds: FeedTable::new(),
            aggregated: StringHashMap::new(),
            twap: StringHashMap::new(),
        }
    }

    /// Sets the oracle up: `admin` governs it and may report for the three
    /// default sources, and the default settings apply.
    pub fn initialize(&mut self, admin: Address) -> (r: Result<(), OracleError>)
        ensures
            r is Ok,
            final(self).admin == Some(admin),
            final(self).config == Some(
                OracleConfig {
                    max_deviation: MAX_PRICE_DEVIATION,
                    staleness_threshold: PRICE_STALENESS_THRESHOLD,
                    min_sources: MIN_PRICE_SOURCES,
                    circuit_breaker_threshold: CIRCUIT_BREAKER_THRESHOLD,
                    twap_window: TWAP_WINDOW,
                },
            ),
            is_default_source(final(self).sources.chainlink, PriceSource::Chainlink, 40, 95, admin),
            is_default_source(
                final(self).sources.stellar_dex,
                PriceSource::StellarDEX,
                30,
                85,
                admin,
            ),
            is_default_source(final(self).sources.red_stone, PriceSource::RedStone, 30, 90, admin),
            final(self).sources.pyth == old(self).sources.pyth,
            final(self).sources.manual == old(self).sources.manual,
            final(self).feeds == old(self).feeds,
            final(self).aggregated == old(self).aggregated,
            final(self).twap == old(self).twap,
    {
        self.admin = Some(admin);
        self.config = Some(
            OracleConfig {
                max_deviation: MAX_PRICE_DEVIATION,
                staleness_threshold: PRICE_STALENESS_THRESHOLD,
                min_sources: MIN_PRICE_SOURCES,
                circuit_breaker_threshold: CIRCUIT_BREAKER_THRESHOLD,
                twap_window: TWAP_WINDOW,
            },
        );
        match self.init_default_sources() {
            Ok(()) => Ok(()),
            Err(e) => {
                proof {
                    assert(false);
                }
                Err(e)
            },
        }
    }

    /// Gives the three default sources their settings, with the
    /// administrator as their only feeder. Fails while there is no
    /// administrator.
    pub fn init_default_sources(&mut self) -> (r: Result<(), OracleError>)
        ensures
            r is Ok <==> old(self).admin is Some,
            r is Err ==> r == Err::<(), OracleError>(OracleError::UnauthorizedFeeder),
            r is Err ==> *final(self) == *old(self),
            r is Ok ==> {
                let admin = old(self).admin->Some_0;
                &&& is_default_source(final(self).sources.chainlink, PriceSource::Chainlink, 40, 95, admin)
                &&& is_default_source(
                    final(self).sources.stellar_dex,
                    PriceSource::StellarDEX,
                    30,
                    85,
                    admin,
                )
                &&& is_default_source(final(self).sources.red_stone, PriceSource::RedStone, 30, 90, admin)
                &&& final(self).sources.pyth == old(self).sources.pyth
                &&& final(self).sources.manual == old(self).sources.manual
                &&& final(self).admin == old(self).admin
                &&& final(self).config == old(self).config
                &&& final(self).feeds == old(self).feeds
                &&& final(self).aggregated == old(self).aggregated
                &&& final(self).twap == old(self).twap
            },
    {
        let admin = match self.admin {
            Some(a) => a,
            None => {
                return Err(OracleError::UnauthorizedFeeder);
            },
        };
        let mut chainlink_feeders: Vec<Address> = Vec::new();
        chainlink_feeders.push(admin);
        let mut dex_feeders: Vec<Address> = Vec::new();
        dex_feeders.push(admin);
        let mut redstone_feeders: Vec<Address> = Vec::new();
        redstone_feeders.push(admin);
        self.sources.chainlink = Some(
            SourceConfig {
                source: PriceSource::Chainlink,
                weight: 40,
                active: true,
                feeders: chainlink_feeders,
                reliability: 95,
            },
        );
        self.sources.stellar_dex = Some(
            SourceConfig {
                source: PriceSource::StellarDEX,
                weight: 30,
                active: true,
                feeders: dex_feeders,
                reliability: 85,
            },
        );
        self.sources.red_stone = Some(
            SourceConfig {
                source: PriceSource::RedStone,
                weight: 30,
                active: true,
                feeders: redstone_feeders,
                reliability: 90,
            },
        );
        Ok(())
    }

    /// Accepts a price that is positive with a confidence of at most 100 %.
    pub fn validate_price_data(price: i128, confidence: u32) -> (r: Result<(), OracleError>)
        ensures
            r is Ok <==> valid_price_data(price, confidence),
            r is Err ==> r == Err::<(), OracleError>(OracleError::InvalidPriceData),
    {
        if price <= 0 {
            return Err(OracleError::InvalidPriceData);
        }
        if confidence > 10000 {
            return Err(OracleError::InvalidPriceData);
        }
        Ok(())
    }

    /// Accepts a feeder that is listed for `source`.
    pub fn validate_feeder(&self, feeder: Address, source: PriceSource) -> (r: Result<(), OracleError>)
        ensures
            r is Ok <==> self.feeder_rejection(feeder, source) is None,
            r matches Err(e) ==> Some(e) == self.feeder_rejection(feeder, source),
    {
        let source_config = match self.sources.get(source) {
            Some(c) => c,
            None => {
                return Err(OracleError::SourceNotFound);
            },
        };
        if !contains_address(&source_config.feeders, feeder) {
            return Err(OracleError::UnauthorizedFeeder);
        }
        Ok(())
    }

    /// The price that the oracle assumes for `asset`, as [`mock_price`]
    /// states.
    pub fn get_mock_price(asset: &str) -> (price: i128)
        ensures
            price == mock_price(asset.len() as nat),
            50_000_000 <= price <= 149_000_000,
    {
        let len: usize = asset.len();
        let short: u64 = (len % 100) as u64;
        let price_variation: u64 = (short * 45 + 90) % 100;
        proof {
            let n = len as int;
            let q = n / 100;
            let r = n % 100;
            assert(n * 12345 + 67890 == 100 * (q * 12345 + r * 123 + 678) + (r * 45 + 90))
                by (nonlinear_arith)
                requires
                    n == 100 * q + r,
            ;
            vstd::arithmetic::div_mod::lemma_mod_multiples_vanish(
                q * 12345 + r * 123 + 678,
                r * 45 + 90,
                100,
            );
        }
        let base_price: i128 = 100_000_000;
        let variation: i128 = (price_variation as i128 - 50) * 1_000_000;
        base_price + variation
    }

    /// The largest distance of a price from `avg_price`, as
    /// [`deviation_outcome`] states.
    pub fn calculate_price_deviation(prices: &Vec<i128>, avg_price: i128) -> (r: Result<u32, OracleError>)
        ensures
            r == deviation_outcome(prices@, avg_price),
    {
        if prices.len() == 0 {
            return Ok(0);
        }
        if avg_price <= 0 {
            return Err(OracleError::InvalidPriceData);
        }
        let mut max_deviation_so_far: u32 = 0;
        let mut i: usize = 0;
        while i < prices.len()
            invariant
                i <= prices@.len(),
                avg_price > 0,
                max_deviation(prices@, avg_price, i as int) == Some(max_deviation_so_far),
            decreases prices@.len() - i,
        {
            let price: i128 = prices[i];
            let difference: i128 = match price.checked_sub(avg_price) {
                Some(d) => d,
                None => {
                    proof {
                        lemma_deviation_fails_for_good(prices@, avg_price, i as int + 1, prices@.len() as int);
                    }
                    return Err(OracleError::InvalidPriceData);
                },
            };
            if difference == i128::MIN {
                proof {
                    lemma_deviation_fails_for_good(prices@, avg_price, i as int + 1, prices@.len() as int);
                }
                return Err(OracleError::InvalidPriceData);
            }
            let distance: i128 = if difference < 0 {
                -difference
            } else {
                difference
            };
            let scaled: i128 = match distance.checked_mul(10000) {
                Some(s) => s,
                None => {
                    proof {
                        lemma_deviation_fails_for_good(prices@, avg_price, i as int + 1, prices@.len() as int);
                    }
                    return Err(OracleError::InvalidPriceData);
                },
            };
            let quotient: i128 = scaled / avg_price;
            assert(quotient >= 0) by (nonlinear_arith)
                requires
                    scaled >= 0,
                    avg_price > 0,
                    quotient == scaled as int / avg_price as int,
            ;
            let deviation: u32 = if quotient > u32::MAX as i128 {
                u32::MAX
            } else {
                quotient as u32
            };
            if deviation > max_deviation_so_far {
                max_deviation_so_far = deviation;
            }
            i = i + 1;
        }
        Ok(max_deviation_so_far)
    }

    /// The confidence in an average, as [`confidence_score`] states.
    pub fn calculate_confidence_score(sources: &Vec<PriceSource>, deviation: u32) -> (r: Result<
        u32,
        OracleError,
    >)
        ensures
            r == Ok::<u32, OracleError>(confidence_score(sources@.len(), deviation) as u32),
            confidence_score(sources@.len(), deviation) <= 10000,
    {
        let source_score: u32 = if sources.len() >= 4 {
            8000
        } else {
            sources.len() as u32 * 2000
        };
        let deviation_score: u32 = (2000u32).saturating_sub(deviation / 5);
        Ok(source_score + deviation_score)
    }

    /// Price and weight that `source` contributes for `asset`, as
    /// [`OracleContract::quote`] states.
    fn fresh_quote(&self, asset: &str, source: PriceSource, pending: Option<&PriceFeed>, now: u64) -> (r:
        Option<(i128, u32)>)
        ensures
            r == self.quote(
                asset@,
                source,
                report_of(pending),
                now,
            ),
    {
        let config = match self.sources.get(source) {
            Some(c) => c,
            None => {
                return None;
            },
        };
        if !config.active {
            return None;
        }
        let mut feed: Option<&PriceFeed> = self.feeds.get(source, asset);
        match pending {
            Some(p) => {
                if p.source == source && str_eq(p.asset.as_str(), asset) {
                    feed = Some(p);
                }
            },
            None => {},
        }
        match feed {
            Some(f) => {
                if now.saturating_sub(f.timestamp) <= PRICE_STALENESS_THRESHOLD {
                    Some((f.price, config.weight))
                } else {
                    None
                }
            },
            None => None,
        }
    }

    /// The average of `asset` at time `now`, with `pending` counted as if it
    /// had been recorded. Nothing is changed.
    pub fn aggregate(&self, asset: &str, pending: Option<&PriceFeed>, now: u64) -> (r: Result<
        AggregateFigures,
        OracleError,
    >)
        ensures
            match tally_outcome(
                self.tally(
                    asset@,
                    report_of(pending),
                    now,
                ),
            ) {
                Ok(a) => r is Ok && r->Ok_0@ == a,
                Err(e) => r is Err && r->Err_0 == e,
            },
    {
        let mut acc = Accumulator {
            prices: Vec::new(),
            sources: Vec::new(),
            weighted_sum: 0,
            total_weight: 0,
            in_range: true,
        };
        let ghost t0 = empty_tally();
        assert(acc.holds(t0));
        let q0 = self.fresh_quote(asset, PriceSource::Chainlink, pending, now);
        acc.add(PriceSource::Chainlink, q0);
        let ghost t1 = tally_add(t0, PriceSource::Chainlink, q0);
        assert(acc.holds(t1));
        let q1 = self.fresh_quote(asset, PriceSource::RedStone, pending, now);
        acc.add(PriceSource::RedStone, q1);
        let ghost t2 = tally_add(t1, PriceSource::RedStone, q1);
        assert(acc.holds(t2));
        let q2 = self.fresh_quote(asset, PriceSource::StellarDEX, pending, now);
        acc.add(PriceSource::StellarDEX, q2);
        let ghost t3 = tally_add(t2, PriceSource::StellarDEX, q2);
        assert(acc.holds(t3));
        let q3 = self.fresh_quote(asset, PriceSource::Pyth, pending, now);
        acc.add(PriceSource::Pyth, q3);
        let ghost t4 = tally_add(t3, PriceSource::Pyth, q3);
        assert(acc.holds(t4));
        if acc.sources.len() < MIN_PRICE_SOURCES as usize {
            return Err(OracleError::InsufficientSources);
        }
        if !acc.in_range || acc.total_weight == 0 {
            return Err(OracleError::InvalidPriceData);
        }
        let weighted_avg: i128 = acc.weighted_sum / acc.total_weight as i128;
        let deviation: u32 = match Self::calculate_price_deviation(&acc.prices, weighted_avg) {
            Ok(d) => d,
            Err(e) => {
                return Err(e);
            },
        };
        if deviation > CIRCUIT_BREAKER_THRESHOLD {
            return Err(OracleError::CircuitBreakerTriggered);
        }
        let confidence_score: u32 = match Self::calculate_confidence_score(&acc.sources, deviation) {
            Ok(c) => c,
            Err(e) => {
                return Err(e);
            },
        };
        Ok(AggregateFigures { price: weighted_avg, deviation, confidence_score, sources: acc.sources })
    }

    /// The time-weighted price of `asset` at time `now`. Where none is kept
    /// that is fresh, the assumed price is taken and kept from then on.
    pub fn calculate_twap(&mut self, asset: &str, now: u64) -> (r: Result<i128, OracleError>)
        ensures
            r == Ok::<i128, OracleError>(old(self).twap_price(asset, now) as i128),
            old(self).has_fresh_twap(asset@, now) ==> *final(self) == *old(self),
            !old(self).has_fresh_twap(asset@, now) ==> final(self).twap@ == old(self).twap@.insert(
                asset@,
                TWAPDataPoint {
                    price: mock_price(asset.len() as nat) as i128,
                    timestamp: now,
                    volume: TWAP_VOLUME,
                },
            ),
            final(self).admin == old(self).admin,
            final(self).config == old(self).config,
            final(self).sources == old(self).sources,
            final(self).feeds == old(self).feeds,
            final(self).aggregated == old(self).aggregated,
    {
        match self.twap.get(asset) {
            Some(twap_point) => {
                if now.saturating_sub(twap_point.timestamp) <= TWAP_WINDOW {
                    return Ok(twap_point.price);
                }
            },
            None => {},
        }
        let mock_price: i128 = Self::get_mock_price(asset);
        let twap_point = TWAPDataPoint { price: mock_price, timestamp: now, volume: TWAP_VOLUME };
        self.twap.insert(asset.to_owned(), twap_point);
        Ok(mock_price)
    }

    /// Keeps `price` as the time-weighted price of `asset`, dated `now`.
    pub fn update_twap_data(&mut self, asset: &str, price: i128, now: u64) -> (r: Result<(), OracleError>)
        ensures
            r is Ok,
            final(self).twap@ == old(self).twap@.insert(
                asset@,
                TWAPDataPoint { price: price, timestamp: now, volume: TWAP_VOLUME },
            ),
            final(self).admin == old(self).admin,
            final(self).config == old(self).config,
            final(self).sources == old(self).sources,
            final(self).feeds == old(self).feeds,
            final(self).aggregated == old(self).aggregated,
    {
        let twap_point = TWAPDataPoint { price, timestamp: now, volume: TWAP_VOLUME };
        self.twap.insert(asset.to_owned(), twap_point);
        Ok(())
    }

    /// Publishes the average of `asset` at time `now` from the reports that
    /// are kept, as [`tally_outcome`] states. On an error nothing changes.
    pub fn update_aggregated_price(&mut self, asset: &str, now: u64) -> (r: Result<(), OracleError>)
        ensures
            r is Ok <==> tally_outcome(old(self).tally(asset@, None, now)) is Ok,
            r matches Err(e) ==> {
                &&& tally_outcome(old(self).tally(asset@, None, now)) == Err::<Aggregate, OracleError>(e)
                &&& *final(self) == *old(self)
            },
            r is Ok ==> {
                &&& final(self).aggregated@.dom() == old(self).aggregated@.dom().insert(asset@)
                &&& publishes(
                    final(self).aggregated@[asset@],
                    asset@,
                    tally_outcome(old(self).tally(asset@, None, now))->Ok_0,
                    old(self).twap_price(asset, now) as i128,
                    now,
                )
                &&& forall|other: Seq<char>|
                    other != asset@ && old(self).aggregated@.contains_key(other)
                        ==> final(self).aggregated@[other] == old(self).aggregated@[other]
                &&& old(self).has_fresh_twap(asset@, now) ==> final(self).twap == old(self).twap
                &&& !old(self).has_fresh_twap(asset@, now) ==> final(self).twap@ == old(self).twap@.insert(
                    asset@,
                    TWAPDataPoint {
                        price: mock_price(asset.len() as nat) as i128,
                        timestamp: now,
                        volume: TWAP_VOLUME,
                    },
                )
                &&& final(self).admin == old(self).admin
                &&& final(self).config == old(self).config
                &&& final(self).sources == old(self).sources
                &&& final(self).feeds == old(self).feeds
            },
    {
        let figures = match self.aggregate(asset, None, now) {
            Ok(f) => f,
            Err(e) => {
                return Err(e);
            },
        };
        let twap_price: i128 = match self.calculate_twap(asset, now) {
            Ok(p) => p,
            Err(e) => {
                proof {
                    assert(false);
                }
                return Err(e);
            },
        };
        let aggregated = AggregatedPrice {
            asset: asset.to_owned(),
            price: figures.price,
            timestamp: now,
            sources: figures.sources,
            confidence_score: figures.confidence_score,
            twap_price,
            deviation: figures.deviation,
        };
        self.aggregated.insert(asset.to_owned(), aggregated);
        proof {
            assert(self.aggregated@.dom() =~= old(self).aggregated@.dom().insert(asset@));
        }
        Ok(())
    }

    /// Why a report is refused before it is counted, if it is.
    pub open spec fn report_rejection(
        &self,
        feeder: Address,
        price: i128,
        source: PriceSource,
        confidence: u32,
    ) -> Option<OracleError> {
        if self.feeder_rejection(feeder, source) is Some {
            self.feeder_rejection(feeder, source)
        } else if !valid_price_data(price, confidence) {
            Some(OracleError::InvalidPriceData)
        } else {
            None
        }
    }

    /// What a report of `price` for `asset` from `source` at time `now`
    /// leads to: the reason for which it is refused, or the average of the
    /// native asset with the report counted.
    pub open spec fn report_outcome(
        &self,
        feeder: Address,
        asset: Seq<char>,
        price: i128,
        source: PriceSource,
        confidence: u32,
        now: u64,
    ) -> Result<Aggregate, OracleError> {
        if self.report_rejection(feeder, price, source, confidence) is Some {
            Err(self.report_rejection(feeder, price, source, confidence)->Some_0)
        } else {
            tally_outcome(
                self.tally(
                    "XLM"@,
                    Some(Report { asset: asset, source: source, price: price, timestamp: now }),
                    now,
                ),
            )
        }
    }

    /// Records the price that `feeder` reports for `asset` from `source`.
    ///
    /// The feeder has to be listed for the source and the price valid. The
    /// average of the native asset is then published anew with the report
    /// counted, and `price` becomes the native asset's time-weighted price.
    /// Where no average can be published the report is refused with the
    /// reason, and nothing changes.
    pub fn update_price(
        &mut self,
        feeder: Address,
        asset: String,
        price: i128,
        source: PriceSource,
        confidence: u32,
        now: u64,
    ) -> (r: Result<(), OracleError>)
        ensures
            r is Ok <==> old(self).report_outcome(feeder, asset@, price, source, confidence, now) is Ok,
            r matches Err(e) ==> old(self).report_outcome(feeder, asset@, price, source, confidence, now)
                == Err::<Aggregate, OracleError>(e),
            r is Err ==> *final(self) == *old(self),
            r is Ok ==> {
                &&& publishes(
                    final(self).aggregated@["XLM"@],
                    "XLM"@,
                    old(self).report_outcome(feeder, asset@, price, source, confidence, now)->Ok_0,
                    old(self).twap_price("XLM", now) as i128,
                    now,
                )
                &&& final(self).aggregated@.dom() == old(self).aggregated@.dom().insert("XLM"@)
                &&& forall|other: Seq<char>|
                    other != "XLM"@ && old(self).aggregated@.contains_key(other)
                        ==> final(self).aggregated@[other] == old(self).aggregated@[other]
                &&& final(self).feeds.feeds_of(source).dom() == old(self).feeds.feeds_of(
                    source,
                ).dom().insert(asset@)
                &&& reports(final(self).feeds.feeds_of(source)[asset@], asset@, price, source, confidence, now)
                &&& forall|other: Seq<char>|
                    other != asset@ && old(self).feeds.feeds_of(source).contains_key(other)
                        ==> final(self).feeds.feeds_of(source)[other] == old(self).feeds.feeds_of(
                        source,
                    )[other]
                &&& forall|s: PriceSource|
                    s != source ==> final(self).feeds.feeds_of(s) == old(self).feeds.feeds_of(s)
                &&& final(self).twap@ == old(self).twap@.insert(
                    "XLM"@,
                    TWAPDataPoint { price: price, timestamp: now, volume: TWAP_VOLUME },
                )
                &&& final(self).admin == old(self).admin
                &&& final(self).config == old(self).config
                &&& final(self).sources == old(self).sources
            },
    {
        match self.validate_feeder(feeder, source) {
            Ok(()) => {},
            Err(e) => {
                return Err(e);
            },
        }
        match Self::validate_price_data(price, confidence) {
            Ok(()) => {},
            Err(e) => {
                return Err(e);
            },
        }
        let price_feed = PriceFeed {
            asset: asset.clone(),
            price,
            timestamp: now,
            source,
            confidence,
            data_points: 1,
        };
        let figures = match self.aggregate("XLM", Some(&price_feed), now) {
            Ok(f) => f,
            Err(e) => {
                return Err(e);
            },
        };
        self.feeds.set(source, asset, price_feed);
        let twap_price: i128 = match self.calculate_twap("XLM", now) {
            Ok(p) => p,
            Err(e) => {
                proof {
                    assert(false);
                }
                return Err(e);
            },
        };
        let aggregated = AggregatedPrice {
            asset: "XLM".to_owned(),
            price: figures.price,
            timestamp: now,
            sources: figures.sources,
            confidence_score: figures.confidence_score,
            twap_price,
            deviation: figures.deviation,
        };
        self.aggregated.insert("XLM".to_owned(), aggregated);
        let _ = self.update_twap_data("XLM", price, now);
        proof {
            assert(self.aggregated@.dom() =~= old(self).aggregated@.dom().insert("XLM"@));
            assert(self.feeds.feeds_of(source).dom() =~= old(self).feeds.feeds_of(source).dom().insert(
                asset@,
            ));
            assert(self.twap@ =~= old(self).twap@.insert(
                "XLM"@,
                TWAPDataPoint { price: price, timestamp: now, volume: TWAP_VOLUME },
            ));
        }
        Ok(())
    }

    /// The price of `asset` as the oracle assumes it at time `now`.
    pub fn get_price(asset: &str, now: u64) -> (r: Result<AggregatedPrice, OracleError>)
        ensures
            r is Ok,
            r->Ok_0.asset@ == asset@,
            r->Ok_0.price == mock_price(asset.len() as nat),
            r->Ok_0.timestamp == now,
            r->Ok_0.sources@.len() == 0,
            r->Ok_0.confidence_score == 8500,
            r->Ok_0.twap_price == mock_price(asset.len() as nat),
            r->Ok_0.deviation == 0,
    {
        let mock_price: i128 = Self::get_mock_price(asset);
        Ok(
            AggregatedPrice {
                asset: asset.to_owned(),
                price: mock_price,
                timestamp: now,
                sources: Vec::new(),
                confidence_score: 8500,
                twap_price: mock_price,
                deviation: 0,
            },
        )
    }

    /// The time-weighted price of `asset` as the oracle assumes it.
    pub fn get_twap_price(asset: &str, now: u64) -> (r: Result<i128, OracleError>)
        ensures
            r == Ok::<i128, OracleError>(mock_price(asset.len() as nat) as i128),
    {
        match Self::get_price(asset, now) {
            Ok(aggregated) => Ok(aggregated.twap_price),
            Err(e) => Err(e),
        }
    }

    /// The assets of which the oracle publishes prices.
    pub fn get_supported_assets() -> (r: Result<Vec<String>, OracleError>)
        ensures
            r is Ok,
            r->Ok_0@.len() == 4,
            r->Ok_0@[0]@ == "XLM"@,
            r->Ok_0@[1]@ == "USDC"@,
            r->Ok_0@[2]@ == "BTC"@,
            r->Ok_0@[3]@ == "ETH"@,
    {
        let mut assets: Vec<String> = Vec::new();
        assets.push("XLM".to_owned());
        assets.push("USDC".to_owned());
        assets.push("BTC".to_owned());
        assets.push("ETH".to_owned());
        Ok(assets)
    }

    /// The prices of all supported assets at time `now`, in the order of
    /// [`OracleContract::get_supported_assets`].
    pub fn get_prices(now: u64) -> (r: Result<Vec<AggregatedPrice>, OracleError>)
        ensures
            r is Ok,
            r->Ok_0@.len() == 4,
            r->Ok_0@[0].asset@ == "XLM"@,
            r->Ok_0@[1].asset@ == "USDC"@,
            r->Ok_0@[2].asset@ == "BTC"@,
            r->Ok_0@[3].asset@ == "ETH"@,
            r->Ok_0@[0].price == 75_000_000,
            r->Ok_0@[1].price == 120_000_000,
            r->Ok_0@[2].price == 75_000_000,
            r->Ok_0@[3].price == 75_000_000,
            forall|i: int|
                0 <= i < 4 ==> {
                    &&& (#[trigger] r->Ok_0@[i]).timestamp == now
                    &&& r->Ok_0@[i].twap_price == r->Ok_0@[i].price
                    &&& r->Ok_0@[i].confidence_score == 8500
                    &&& r->Ok_0@[i].deviation == 0
                    &&& r->Ok_0@[i].sources@.len() == 0
                },
    {
        let assets = match Self::get_supported_assets() {
            Ok(a) => a,
            Err(e) => {
                proof {
                    assert(false);
                }
                return Err(e);
            },
        };
        let mut prices: Vec<AggregatedPrice> = Vec::new();
        let mut i: usize = 0;
        while i < assets.len()
            invariant
                i <= assets@.len(),
                assets@.len() == 4,
                prices@.len() == i,
                forall|j: int|
                    0 <= j < i ==> {
                        &&& (#[trigger] prices@[j]).asset@ == assets@[j]@
                        &&& prices@[j].timestamp == now
                        &&& prices@[j].price == prices@[j].twap_price
                        &&& prices@[j].price == mock_price(byte_len(assets@[j]@))
                        &&& prices@[j].confidence_score == 8500
                        &&& prices@[j].deviation == 0
                        &&& prices@[j].sources@.len() == 0
                    },
            decreases assets@.len() - i,
        {
            let price = match Self::get_price(assets[i].as_str(), now) {
                Ok(p) => p,
                Err(e) => {
                    proof {
                        assert(false);
                    }
                    return Err(e);
                },
            };
            prices.push(price);
            i = i + 1;
        }
        proof {
            reveal_strlit("XLM");
            reveal_strlit("USDC");
            reveal_strlit("BTC");
            reveal_strlit("ETH");
            lemma_short_code_len("XLM", 3);
            lemma_short_code_len("USDC", 4);
            lemma_short_code_len("BTC", 3);
            lemma_short_code_len("ETH", 3);
        }
        Ok(prices)
    }

    /// Lists `feeder` for `source`. Only the administrator may do so, and
    /// only for a source that has settings.
    pub fn add_feeder(&mut self, admin: Address, source: PriceSource, feeder: Address) -> (r: Result<
        (),
        OracleError,
    >)
        ensures
            old(self).admin != Some(admin) ==> r == Err::<(), OracleError>(
                OracleError::UnauthorizedFeeder,
            ),
            old(self).admin == Some(admin) && old(self).sources.config_of(source) is None ==> r
                == Err::<(), OracleError>(OracleError::SourceNotFound),
            old(self).admin == Some(admin) && old(self).sources.config_of(source) is Some ==> r
                is Ok,
            r is Err ==> *final(self) == *old(self),
            r is Ok ==> {
                let before = old(self).sources.config_of(source)->Some_0;
                &&& final(self).sources.config_of(source) is Some
                &&& final(self).sources.config_of(source)->Some_0.feeders@ == before.feeders@.push(feeder)
                &&& final(self).sources.config_of(source)->Some_0.source == before.source
                &&& final(self).sources.config_of(source)->Some_0.weight == before.weight
                &&& final(self).sources.config_of(source)->Some_0.active == before.active
                &&& final(self).sources.config_of(source)->Some_0.reliability == before.reliability
                &&& forall|s: PriceSource|
                    s != source ==> final(self).sources.config_of(s) == old(self).sources.config_of(s)
                &&& final(self).admin == old(self).admin
                &&& final(self).config == old(self).config
                &&& final(self).feeds == old(self).feeds
                &&& final(self).aggregated == old(self).aggregated
                &&& final(self).twap == old(self).twap
            },
    {
        if !self.is_admin(admin) {
            return Err(OracleError::UnauthorizedFeeder);
        }
        let (weight, active, reliability, kept_source, mut feeders) = match self.sources.get(source) {
            Some(c) => (c.weight, c.active, c.reliability, c.source, copy_addresses(&c.feeders)),
            None => {
                return Err(OracleError::SourceNotFound);
            },
        };
        feeders.push(feeder);
        self.sources.set(
            source,
            SourceConfig { source: kept_source, weight, active, feeders, reliability },
        );
        Ok(())
    }

    /// Whether `caller` is the administrator.
    fn is_admin(&self, caller: Address) -> (b: bool)
        ensures
            b == (self.admin == Some(caller)),
    {
        match self.admin {
            Some(a) => a == caller,
            None => false,
        }
    }

    /// Checks that `admin` may halt the prices of an asset.
    pub fn emergency_pause(&self, admin: Address, asset: &str) -> (r: Result<(), OracleError>)
        ensures
            r is Ok <==> self.admin == Some(admin),
            r is Err ==> r == Err::<(), OracleError>(OracleError::UnauthorizedFeeder),
    {
        if !self.is_admin(admin) {
            return Err(OracleError::UnauthorizedFeeder);
        }
        Ok(())
    }
}

/// Number of bytes that a text takes.
pub open spec fn byte_len(text: Seq<char>) -> nat {
    (vstd::utf8::encode_utf8(text).len() as usize) as nat
}

/// A text of plain letters takes a byte for each of them.
pub proof fn lemma_short_code_len(code: &str, letters: nat)
    requires
        code@.len() == letters,
        letters <= 16,
        vstd::utf8::is_ascii_chars(code@),
    ensures
        byte_len(code@) == letters,
        code.len() == letters,
{
    vstd::string::is_ascii_spec_bytes(code);
}

/// Whether `config` holds the settings of a default source: active, with
/// `admin` as its only feeder.
pub open spec fn is_default_source(
    config: Option<SourceConfig>,
    source: PriceSource,
    weight: u32,
    reliability: u32,
    admin: Address,
) -> bool {
    &&& config is Some
    &&& config->Some_0.source == source
    &&& config->Some_0.weight == weight
    &&& config->Some_0.active
    &&& config->Some_0.feeders@ == seq![admin]
    &&& config->Some_0.reliability == reliability
}

/// What is gathered from the sources while an average is computed.
struct Accumulator {
    prices: Vec<i128>,
    sources: Vec<PriceSource>,
    weighted_sum: i128,
    total_weight: u32,
    in_range: bool,
}

impl Accumulator {
    /// Whether the accumulator holds the tally `t`. Once a sum could not be
    /// held the sums no longer count.
    spec fn holds(&self, t: Tally) -> bool {
        &&& self.prices@ == t.prices
        &&& self.sources@ == t.sources
        &&& self.in_range == t.in_range
        &&& t.in_range ==> self.weighted_sum == t.weighted_sum && self.total_weight == t.total_weight
    }

    /// Adds the quote of `source`, if it has one.
    fn add(&mut self, source: PriceSource, quote: Option<(i128, u32)>)
        ensures
            forall|t: Tally| old(self).holds(t) ==> final(self).holds(tally_add(t, source, quote)),
    {
        match quote {
            None => {},
            Some((price, weight)) => {
                self.prices.push(price);
                self.sources.push(source);
                if self.in_range {
                    let term = price.checked_mul(weight as i128);
                    let sum = match term {
                        Some(x) => self.weighted_sum.checked_add(x),
                        None => None,
                    };
                    let total = self.total_weight.checked_add(weight);
                    match (sum, total) {
                        (Some(s), Some(w)) => {
                            self.weighted_sum = s;
                            self.total_weight = w;
                        },
                        _ => {
                            self.in_range = false;
                        },
                    }
                }
            },
        }
    }
}

/// Whether `addresses` lists `wanted`.
pub fn contains_address(addresses: &Vec<Address>, wanted: Address) -> (found: bool)
    ensures
        found == addresses@.contains(wanted),
{
    let mut i: usize = 0;
    while i < addresses.len()
        invariant
            i <= addresses@.len(),
            forall|j: int| 0 <= j < i ==> addresses@[j] != wanted,
        decreases addresses@.len() - i,
    {
        if addresses[i] == wanted {
            return true;
        }
        i = i + 1;
    }
    false
}

/// A copy of a list of addresses.
pub fn copy_addresses(addresses: &Vec<Address>) -> (copy: Vec<Address>)
    ensures
        copy@ == addresses@,
{
    let mut copy: Vec<Address> = Vec::new();
    let mut i: usize = 0;
    while i < addresses.len()
        invariant
            i <= addresses@.len(),
            copy@ == addresses@.subrange(0, i as int),
        decreases addresses@.len() - i,
    {
        copy.push(addresses[i]);
        proof {
            assert(copy@ =~= addresses@.subrange(0, i as int + 1));
        }
        i = i + 1;
    }
    proof {
        assert(addresses@.subrange(0, i as int) =~= addresses@);
    }
    copy
}

/// Whether two texts are the same.
pub fn str_eq(a: &str, b: &str) -> (same: bool)
    ensures
        same == (a@ == b@),
{
    a.to_owned() == b.to_owned()
}

/// Once the deviation of one price cannot be computed, neither can the
/// largest deviation of any longer run of prices.
pub proof fn lemma_deviation_fails_for_good(prices: Seq<i128>, avg_price: i128, failed: int, upto: int)
    requires
        0 < failed <= upto,
        max_deviation(prices, avg_price, failed) is None,
    ensures
        max_deviation(prices, avg_price, upto) is None,
    decreases upto - failed,
{
    if failed < upto {
        lemma_deviation_fails_for_good(prices, avg_price, failed, upto - 1);
    }
}

/// An average that is published rests on at least two sources, never
/// deviates by more than the circuit breaker allows, and carries a
/// confidence of at most 100 %.
pub proof fn lemma_published_average(t: Tally)
    requires
        tally_outcome(t) is Ok,
    ensures
        tally_outcome(t)->Ok_0.sources.len() >= MIN_PRICE_SOURCES,
        tally_outcome(t)->Ok_0.deviation <= CIRCUIT_BREAKER_THRESHOLD,
        4000 <= tally_outcome(t)->Ok_0.confidence_score <= 10000,
{
}

} // verus!
