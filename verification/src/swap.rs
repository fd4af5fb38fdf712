//! The swap contract: it runs a route of swaps that was worked out
//! beforehand against the pools it knows, and holds the outcome to the
//! user's limits on slippage.

use vstd::prelude::*;
use vstd::hash_map::StringHashMap;
use std::collections::HashMap;
use crate::types::Address;
use crate::math::{div_toward_zero, fits_i128, magnitude};

verus! {

/// Fee of a swap, in basis points.
pub const BASE_FEE_RATE: u32 = 30;

/// Largest slippage that a user may allow, in basis points.
pub const MAX_SLIPPAGE: u32 = 1000;

/// Smallest amount that can be swapped.
pub const MIN_SWAP_AMOUNT: i128 = 1_000_000;

/// Number of swaps that are remembered for a user.
pub const HISTORY_LIMIT: usize = 100;

/// Why the swap contract refused an operation.
#[derive(Clone, Copy, Debug, PartialEq, Eq, Structural)]
pub enum SwapError {
    InvalidAmount,
    InsufficientBalance,
    SlippageExceeded,
    InvalidRoute,
    SwapFailed,
    Unauthorized,
    TokenNotSupported,
    PoolNotFound,
    InsufficientLiquidity,
    InvalidSlippage,
}

/// A token that can be swapped.
#[derive(Debug, PartialEq, Eq)]
pub struct Token {
    /// Token contract; none for the native asset.
    pub address: Option<Address>,
    pub symbol: String,
    pub decimals: u32,
}

impl Clone for Token {
    fn clone(&self) -> (r: Self)
        ensures
            r == *self,
    {
        Token { address: self.address, symbol: self.symbol.clone(), decimals: self.decimals }
    }
}

/// One swap of a route.
#[derive(Debug, PartialEq, Eq)]
pub struct SwapStep {
    pub token_in: Token,
    pub token_out: Token,
    /// The pool in which the swap is made.
    pub pool_id: String,
    pub amount_in: i128,
    /// Amount that the route expects to come out.
    pub amount_out: i128,
    pub fee: i128,
}

/// A route of swaps, worked out beforehand.
#[derive(Debug, PartialEq, Eq)]
pub struct SwapRoute {
    pub steps: Vec<SwapStep>,
    pub total_amount_in: i128,
    /// Amount that the route expects to come out in all.
    pub total_amount_out: i128,
    pub total_fees: i128,
    pub expected_slippage: u32,
    /// Time after which the route is no longer valid.
    pub expires_at: u64,
}

/// A request to run a route.
#[derive(Debug, PartialEq, Eq)]
pub struct SwapRequest {
    pub user: Address,
    pub route: SwapRoute,
    /// Largest slippage that the user allows, in basis points.
    pub max_slippage: u32,
    /// Least amount that the user accepts.
    pub min_amount_out: i128,
    /// Time after which the request is void.
    pub deadline: u64,
}

/// What a swap gave.
#[derive(Clone, Copy, Debug, PartialEq, Eq)]
pub struct SwapResult {
    pub amount_out: i128,
    pub fees_paid: i128,
    /// Distance of the amount from the expected one, in basis points.
    pub actual_slippage: u32,
    pub executed_at: u64,
}

/// A pool of two tokens.
#[derive(Debug, PartialEq, Eq)]
pub struct Pool {
    pub id: String,
    pub token_a: Token,
    pub token_b: Token,
    pub reserve_a: i128,
    pub reserve_b: i128,
    /// Fee of the pool, in basis points.
    pub fee: u32,
    pub enabled: bool,
}

impl Clone for Pool {
    fn clone(&self) -> (r: Self)
        ensures
            r == *self,
    {
        Pool {
            id: self.id.clone(),
            token_a: self.token_a.clone(),
            token_b: self.token_b.clone(),
            reserve_a: self.reserve_a,
            reserve_b: self.reserve_b,
            fee: self.fee,
            enabled: self.enabled,
        }
    }
}

/// Settings of the swap contract.
#[derive(Clone, Copy, Debug, PartialEq, Eq)]
pub struct Config {
    pub base_fee_rate: u32,
    /// Largest slippage that a user may allow, in basis points.
    pub max_slippage: u32,
    pub min_swap_amount: i128,
    pub enabled: bool,
}

/// Two tokens are the same if contract, symbol and decimals agree.
pub open spec fn same_token(a: Token, b: Token) -> bool {
    a.address == b.address && a.symbol@ == b.symbol@ && a.decimals == b.decimals
}

/// Whether the pool trades the two tokens of the step, in either order.
pub open spec fn valid_pair(pool: Pool, step: SwapStep) -> bool {
    (same_token(pool.token_a, step.token_in) && same_token(pool.token_b, step.token_out)) || (
    same_token(pool.token_b, step.token_in) && same_token(pool.token_a, step.token_out))
}

/// The reserve of the token that comes in, then that of the one that goes
/// out.
pub open spec fn reserves_for(pool: Pool, token_in: Token) -> (i128, i128) {
    if same_token(pool.token_a, token_in) {
        (pool.reserve_a, pool.reserve_b)
    } else {
        (pool.reserve_b, pool.reserve_a)
    }
}

/// What a pool gives for `amount_in` by the constant-product rule:
/// `amount_in * reserve_out / (reserve_in + amount_in)`.
///
/// An empty reserve, or an amount that is not positive, is
/// `InsufficientLiquidity`. Where the product leaves `i128`, or the divisor
/// is not positive, the swap fails.
pub open spec fn amm_outcome(amount_in: i128, pool: Pool, token_in: Token) -> Result<i128, SwapError> {
    let (reserve_in, reserve_out) = reserves_for(pool, token_in);
    if reserve_in == 0 || reserve_out == 0 {
        Err(SwapError::InsufficientLiquidity)
    } else if !fits_i128(amount_in * reserve_out) || reserve_in + amount_in <= 0 || !fits_i128(
        reserve_in + amount_in,
    ) {
        Err(SwapError::SwapFailed)
    } else if div_toward_zero(amount_in * reserve_out, reserve_in + amount_in) <= 0 {
        Err(SwapError::InsufficientLiquidity)
    } else {
        Ok(div_toward_zero(amount_in * reserve_out, reserve_in + amount_in) as i128)
    }
}

/// Distance of `actual` from `expected` in basis points of `expected`.
///
/// Nothing was expected: zero. Where the distance cannot be computed inside
/// `i128` the swap fails; where it is no number of basis points that a `u32`
/// holds, the slippage is exceeded.
pub open spec fn slippage_outcome(expected: i128, actual: i128) -> Result<u32, SwapError> {
    let scaled = magnitude(expected - actual) * 10000;
    if expected == 0 {
        Ok(0)
    } else if !fits_i128(expected - actual) || !fits_i128(scaled) {
        Err(SwapError::SwapFailed)
    } else if expected < 0 {
        if scaled < -expected {
            Ok(0)
        } else {
            Err(SwapError::SlippageExceeded)
        }
    } else if scaled / (expected as int) > u32::MAX {
        Err(SwapError::SlippageExceeded)
    } else {
        Ok((scaled / (expected as int)) as u32)
    }
}

/// What one step gives: the amount that comes out and the pool's fee on the
/// amount that goes in.
pub open spec fn step_outcome(pools: Map<Seq<char>, Pool>, step: SwapStep) -> Result<(i128, i128), SwapError> {
    if !pools.contains_key(step.pool_id@) {
        Err(SwapError::PoolNotFound)
    } else {
        let pool = pools[step.pool_id@];
        if !pool.enabled {
            Err(SwapError::PoolNotFound)
        } else if !valid_pair(pool, step) {
            Err(SwapError::InvalidRoute)
        } else {
            match amm_outcome(step.amount_in, pool, step.token_in) {
                Err(e) => Err(e),
                Ok(out) => if !fits_i128(step.amount_in * pool.fee) {
                    Err(SwapError::SwapFailed)
                } else {
                    Ok((out, div_toward_zero(step.amount_in * pool.fee, 10000) as i128))
                },
            }
        }
    }
}

/// What the steps from the `from`-th on give, added to the amounts
/// `amount_out` and `fees` that the steps before gave. The first step that
/// fails ends the route; so does a sum that leaves `i128`.
pub open spec fn route_outcome(
    pools: Map<Seq<char>, Pool>,
    steps: Seq<SwapStep>,
    from: int,
    amount_out: i128,
    fees: i128,
) -> Result<(i128, i128), SwapError>
    decreases steps.len() - from,
{
    if from < 0 || from >= steps.len() {
        Ok((amount_out, fees))
    } else {
        match step_outcome(pools, steps[from]) {
            Err(e) => Err(e),
            Ok((out, fee)) => if !fits_i128(amount_out + out) || !fits_i128(fees + fee) {
                Err(SwapError::SwapFailed)
            } else {
                route_outcome(pools, steps, from + 1, (amount_out + out) as i128, (fees + fee) as i128)
            },
        }
    }
}

/// The swaps of a user after one more: the newest hundred.
pub open spec fn recorded(history: Seq<SwapResult>, result: SwapResult) -> Seq<SwapResult> {
    let all = history.push(result);
    if all.len() > HISTORY_LIMIT {
        all.drop_first()
    } else {
        all
    }
}

/// What the swap contract holds: a mathematical picture of its state.
pub struct SwapBook {
    pub admin: Option<Address>,
    pub config: Option<Config>,
    /// Pools by their identifier.
    pub pools: Map<Seq<char>, Pool>,
    /// The latest swaps of each user, oldest first, by the user's identifier.
    pub history: Map<u64, Seq<SwapResult>>,
}

impl SwapBook {
    /// Why a request is not even tried, if it is not.
    pub open spec fn request_rejection(&self, request: SwapRequest) -> Option<SwapError> {
        match self.config {
            None => Some(SwapError::SwapFailed),
            Some(config) => if request.route.total_amount_in < config.min_swap_amount {
                Some(SwapError::InvalidAmount)
            } else if request.max_slippage > config.max_slippage {
                Some(SwapError::InvalidSlippage)
            } else if request.route.steps@.len() == 0 {
                Some(SwapError::InvalidRoute)
            } else {
                None
            },
        }
    }

    /// What running `request` at time `now` gives.
    ///
    /// The request has to be well formed, the contract enabled, the deadline
    /// and the route's expiry not passed. Then the steps are run in order.
    /// The amount that comes out has to reach the least amount asked for,
    /// and its slippage against the expected amount must not exceed what the
    /// user allows.
    pub open spec fn swap_outcome(&self, request: SwapRequest, now: u64) -> Result<SwapResult, SwapError> {
        if self.request_rejection(request) is Some {
            Err(self.request_rejection(request)->Some_0)
        } else if !self.config->Some_0.enabled {
            Err(SwapError::SwapFailed)
        } else if now > request.deadline {
            Err(SwapError::SwapFailed)
        } else if now > request.route.expires_at {
            Err(SwapError::InvalidRoute)
        } else {
            match route_outcome(self.pools, request.route.steps@, 0, 0, 0) {
                Err(e) => Err(e),
                Ok((amount_out, fees)) => if amount_out < request.min_amount_out {
                    Err(SwapError::SlippageExceeded)
                } else {
                    match slippage_outcome(request.route.total_amount_out, amount_out) {
                        Err(e) => Err(e),
                        Ok(slippage) => if slippage > request.max_slippage {
                            Err(SwapError::SlippageExceeded)
                        } else {
                            Ok(
                                SwapResult {
                                    amount_out: amount_out,
                                    fees_paid: fees,
                                    actual_slippage: slippage,
                                    executed_at: now,
                                },
                            )
                        },
                    }
                },
            }
        }
    }

    /// The swaps that are remembered for `user`.
    pub open spec fn history_of(&self, user: Address) -> Seq<SwapResult> {
        if self.history.contains_key(user.id) {
            self.history[user.id]
        } else {
            Seq::empty()
        }
    }
}

/// The swap contract.
pub struct SwapContract {
    pub admin: Option<Address>,
    pub config: Option<Config>,
    /// Pools by their identifier.
    pub pools: StringHashMap<Pool>,
    /// The latest swaps of each user, oldest first, by the user's identifier.
    pub history: HashMap<u64, Vec<SwapResult>>,
}

impl View for SwapContract {
    type V = SwapBook;

    open spec fn view(&self) -> SwapBook {
        SwapBook {
            admin: self.admin,
            config: self.config,
            pools: self.pools@,
            history: Map::new(
                |id: u64| self.history@.contains_key(id),
                |id: u64| self.history@[id]@,
            ),
        }
    }
}

impl SwapContract {
    /// A swap contract that has not been set up.
    pub fn new() -> (c: Self)
        ensures
            c@.admin is None,
            c@.config is None,
            c@.pools == Map::<Seq<char>, Pool>::empty(),
            c@.history =~= Map::<u64, Seq<SwapResult>>::empty(),
    {
        SwapContract { admin: None, config: None, pools: StringHashMap::new(), history: HashMap::new() }
    }

    /// Sets `admin` and the default settings.
    pub fn initialize(&mut self, admin: Address) -> (r: Result<(), SwapError>)
        ensures
            r is Ok,
            final(self)@ == (SwapBook {
                admin: Some(admin),
                config: Some(
                    Config {
                        base_fee_rate: BASE_FEE_RATE,
                        max_slippage: MAX_SLIPPAGE,
                        min_swap_amount: MIN_SWAP_AMOUNT,
                        enabled: true,
                    },
                ),
                ..old(self)@
            }),
    {
        self.admin = Some(admin);
        self.config = Some(
            Config {
                base_fee_rate: BASE_FEE_RATE,
                max_slippage: MAX_SLIPPAGE,
                min_swap_amount: MIN_SWAP_AMOUNT,
                enabled: true,
            },
        );
        Ok(())
    }

    /// The administrator, once one is set.
    pub fn get_admin(&self) -> (r: Result<Address, SwapError>)
        ensures
            match self@.admin {
                Some(a) => r == Ok::<Address, SwapError>(a),
                None => r == Err::<Address, SwapError>(SwapError::Unauthorized),
            },
    {
        match self.admin {
            Some(a) => Ok(a),
            None => Err(SwapError::Unauthorized),
        }
    }

    /// The settings, once they are set.
    pub fn get_config(&self) -> (r: Result<Config, SwapError>)
        ensures
            match self@.config {
                Some(c) => r == Ok::<Config, SwapError>(c),
                None => r == Err::<Config, SwapError>(SwapError::SwapFailed),
            },
    {
        match self.config {
            Some(c) => Ok(c),
            None => Err(SwapError::SwapFailed),
        }
    }

    /// Replaces the settings. Only the administrator may do so.
    pub fn update_config(&mut self, caller: Address, config: Config) -> (r: Result<(), SwapError>)
        ensures
            r is Ok <==> old(self)@.admin == Some(caller),
            r is Err ==> r == Err::<(), SwapError>(SwapError::Unauthorized) && final(self)@ == old(
                self,
            )@,
            r is Ok ==> final(self)@ == (SwapBook { config: Some(config), ..old(self)@ }),
    {
        let admin = match self.get_admin() {
            Ok(a) => a,
            Err(e) => {
                return Err(e);
            },
        };
        if caller != admin {
            return Err(SwapError::Unauthorized);
        }
        self.config = Some(config);
        Ok(())
    }

    /// Lists `pool` under its identifier. Only the administrator may do so.
    pub fn add_pool(&mut self, caller: Address, pool: Pool) -> (r: Result<(), SwapError>)
        ensures
            r is Ok <==> old(self)@.admin == Some(caller),
            r is Err ==> r == Err::<(), SwapError>(SwapError::Unauthorized) && final(self)@ == old(
                self,
            )@,
            r is Ok ==> final(self)@ == (SwapBook {
                pools: old(self)@.pools.insert(pool.id@, pool),
                ..old(self)@
            }),
    {
        let admin = match self.get_admin() {
            Ok(a) => a,
            Err(e) => {
                return Err(e);
            },
        };
        if caller != admin {
            return Err(SwapError::Unauthorized);
        }
        let id = pool.id.clone();
        self.pools.insert(id, pool);
        Ok(())
    }

    /// The pool listed under `pool_id`.
    pub fn get_pool(&self, pool_id: &str) -> (r: Result<Pool, SwapError>)
        ensures
            self@.pools.contains_key(pool_id@) ==> r == Ok::<Pool, SwapError>(self@.pools[pool_id@]),
            !self@.pools.contains_key(pool_id@) ==> r == Err::<Pool, SwapError>(
                SwapError::PoolNotFound,
            ),
    {
        match self.pools.get(pool_id) {
            Some(pool) => Ok(pool.clone()),
            None => Err(SwapError::PoolNotFound),
        }
    }

    /// Whether two tokens are the same.
    pub fn token_eq(a: &Token, b: &Token) -> (same: bool)
        ensures
            same == same_token(*a, *b),
    {
        let same_address = match (a.address, b.address) {
            (Some(x), Some(y)) => x == y,
            (None, None) => true,
            _ => false,
        };
        same_address && a.symbol == b.symbol && a.decimals == b.decimals
    }

    /// Accepts a request whose amount reaches the smallest swap, whose
    /// slippage limit is within the contract's, and whose route has a step.
    pub fn validate_swap_request(&self, request: &SwapRequest) -> (r: Result<(), SwapError>)
        ensures
            r is Ok <==> self@.request_rejection(*request) is None,
            r matches Err(e) ==> Some(e) == self@.request_rejection(*request),
    {
        let config = match self.get_config() {
            Ok(c) => c,
            Err(e) => {
                return Err(e);
            },
        };
        if request.route.total_amount_in < config.min_swap_amount {
            return Err(SwapError::InvalidAmount);
        }
        if request.max_slippage > config.max_slippage {
            return Err(SwapError::InvalidSlippage);
        }
        if request.route.steps.len() == 0 {
            return Err(SwapError::InvalidRoute);
        }
        Ok(())
    }

    /// What `pool` gives for `amount_in` of `token_in`, as [`amm_outcome`]
    /// states.
    pub fn calculate_amm_output(amount_in: i128, pool: &Pool, token_in: &Token) -> (r: Result<
        i128,
        SwapError,
    >)
        ensures
            r == amm_outcome(amount_in, *pool, *token_in),
    {
        let (reserve_in, reserve_out) = if Self::token_eq(&pool.token_a, token_in) {
            (pool.reserve_a, pool.reserve_b)
        } else {
            (pool.reserve_b, pool.reserve_a)
        };
        if reserve_in == 0 || reserve_out == 0 {
            return Err(SwapError::InsufficientLiquidity);
        }
        let product: i128 = match amount_in.checked_mul(reserve_out) {
            Some(p) => p,
            None => {
                return Err(SwapError::SwapFailed);
            },
        };
        let divisor: i128 = match reserve_in.checked_add(amount_in) {
            Some(d) => d,
            None => {
                return Err(SwapError::SwapFailed);
            },
        };
        if divisor <= 0 {
            return Err(SwapError::SwapFailed);
        }
        let amount_out: i128 = product / divisor;
        if amount_out <= 0 {
            return Err(SwapError::InsufficientLiquidity);
        }
        Ok(amount_out)
    }

    /// Distance of `actual` from `expected` in basis points, as
    /// [`slippage_outcome`] states.
    pub fn calculate_slippage(expected: i128, actual: i128) -> (r: Result<u32, SwapError>)
        ensures
            r == slippage_outcome(expected, actual),
    {
        if expected == 0 {
            return Ok(0);
        }
        let difference: i128 = match expected.checked_sub(actual) {
            Some(d) => d,
            None => {
                return Err(SwapError::SwapFailed);
            },
        };
        if difference == i128::MIN {
            return Err(SwapError::SwapFailed);
        }
        let distance: i128 = if difference < 0 {
            -difference
        } else {
            difference
        };
        let scaled: i128 = match distance.checked_mul(10000) {
            Some(s) => s,
            None => {
                return Err(SwapError::SwapFailed);
            },
        };
        if expected < 0 {
            if expected == i128::MIN || scaled < -expected {
                return Ok(0);
            }
            return Err(SwapError::SlippageExceeded);
        }
        let slippage: i128 = scaled / expected;
        assert(slippage >= 0) by (nonlinear_arith)
            requires
                scaled >= 0,
                expected > 0,
                slippage == scaled as int / expected as int,
        ;
        if slippage > u32::MAX as i128 {
            return Err(SwapError::SlippageExceeded);
        }
        Ok(slippage as u32)
    }

    /// Runs one step against its pool, as [`step_outcome`] states.
    pub fn execute_swap_step(&self, step: &SwapStep) -> (r: Result<(i128, i128), SwapError>)
        ensures
            r == step_outcome(self@.pools, *step),
    {
        let pool = match self.pools.get(step.pool_id.as_str()) {
            Some(p) => p,
            None => {
                return Err(SwapError::PoolNotFound);
            },
        };
        if !pool.enabled {
            return Err(SwapError::PoolNotFound);
        }
        let valid_pair = (Self::token_eq(&pool.token_a, &step.token_in) && Self::token_eq(
            &pool.token_b,
            &step.token_out,
        )) || (Self::token_eq(&pool.token_b, &step.token_in) && Self::token_eq(
            &pool.token_a,
            &step.token_out,
        ));
        if !valid_pair {
            return Err(SwapError::InvalidRoute);
        }
        let actual_amount_out: i128 = match Self::calculate_amm_output(
            step.amount_in,
            pool,
            &step.token_in,
        ) {
            Ok(out) => out,
            Err(e) => {
                return Err(e);
            },
        };
        let fee: i128 = match step.amount_in.checked_mul(pool.fee as i128) {
            Some(p) => p / 10000,
            None => {
                return Err(SwapError::SwapFailed);
            },
        };
        Ok((actual_amount_out, fee))
    }

    /// Adds `result` to the swaps that are remembered for `user`, and
    /// forgets the oldest once there are more than a hundred.
    pub fn record_swap_history(&mut self, user: Address, result: SwapResult) -> (r: Result<(), SwapError>)
        ensures
            r is Ok,
            final(self)@ == (SwapBook {
                history: old(self)@.history.insert(
                    user.id,
                    recorded(old(self)@.history_of(user), result),
                ),
                ..old(self)@
            }),
    {
        let mut history: Vec<SwapResult> = match self.history.remove(&user.id) {
            Some(h) => h,
            None => Vec::new(),
        };
        history.push(result);
        if history.len() > HISTORY_LIMIT {
            history.remove(0);
        }
        proof {
            assert(history@ =~= recorded(old(self)@.history_of(user), result));
        }
        self.history.insert(user.id, history);
        proof {
            assert(self@.history =~= old(self)@.history.insert(
                user.id,
                recorded(old(self)@.history_of(user), result),
            ));
        }
        Ok(())
    }

    /// Runs the route of `request` at time `now`, as
    /// [`SwapBook::swap_outcome`] states. A swap that succeeds is added to
    /// the swaps remembered for the user; one that fails changes nothing.
    #[verifier::loop_isolation(false)]
    pub fn execute_swap(&mut self, request: &SwapRequest, now: u64) -> (r: Result<SwapResult, SwapError>)
        ensures
            r == old(self)@.swap_outcome(*request, now),
            r is Err ==> final(self)@ == old(self)@,
            r matches Ok(result) ==> final(self)@ == (SwapBook {
                history: old(self)@.history.insert(
                    request.user.id,
                    recorded(old(self)@.history_of(request.user), result),
                ),
                ..old(self)@
            }),
    {
        match self.validate_swap_request(request) {
            Ok(()) => {},
            Err(e) => {
                return Err(e);
            },
        }
        let config = match self.get_config() {
            Ok(c) => c,
            Err(e) => {
                return Err(e);
            },
        };
        if !config.enabled {
            return Err(SwapError::SwapFailed);
        }
        if now > request.deadline {
            return Err(SwapError::SwapFailed);
        }
        if now > request.route.expires_at {
            return Err(SwapError::InvalidRoute);
        }
        let mut actual_amount_out: i128 = 0;
        let mut total_fees_paid: i128 = 0;
        let mut i: usize = 0;
        while i < request.route.steps.len()
            invariant
                i <= request.route.steps@.len(),
                self@ == old(self)@,
                route_outcome(self@.pools, request.route.steps@, 0, 0, 0) == route_outcome(
                    self@.pools,
                    request.route.steps@,
                    i as int,
                    actual_amount_out,
                    total_fees_paid,
                ),
            decreases request.route.steps@.len() - i,
        {
            let step_result = match self.execute_swap_step(&request.route.steps[i]) {
                Ok(s) => s,
                Err(e) => {
                    return Err(e);
                },
            };
            actual_amount_out = match actual_amount_out.checked_add(step_result.0) {
                Some(sum) => sum,
                None => {
                    return Err(SwapError::SwapFailed);
                },
            };
            total_fees_paid = match total_fees_paid.checked_add(step_result.1) {
                Some(sum) => sum,
                None => {
                    return Err(SwapError::SwapFailed);
                },
            };
            i = i + 1;
        }
        if actual_amount_out < request.min_amount_out {
            return Err(SwapError::SlippageExceeded);
        }
        let actual_slippage: u32 = match Self::calculate_slippage(
            request.route.total_amount_out,
            actual_amount_out,
        ) {
            Ok(s) => s,
            Err(e) => {
                return Err(e);
            },
        };
        if actual_slippage > request.max_slippage {
            return Err(SwapError::SlippageExceeded);
        }
        let result = SwapResult {
            amount_out: actual_amount_out,
            fees_paid: total_fees_paid,
            actual_slippage,
            executed_at: now,
        };
        let _ = self.record_swap_history(request.user, result);
        Ok(result)
    }
}

/// A pool never gives more than its reserve of the token that goes out, and
/// what it gives for a positive amount is positive.
pub proof fn lemma_amm_output_bounded(amount_in: i128, pool: Pool, token_in: Token)
    requires
        amount_in > 0,
        reserves_for(pool, token_in).0 > 0,
        reserves_for(pool, token_in).1 > 0,
        amm_outcome(amount_in, pool, token_in) is Ok,
    ensures
        0 < amm_outcome(amount_in, pool, token_in)->Ok_0 < reserves_for(pool, token_in).1,
{
    let (reserve_in, reserve_out) = reserves_for(pool, token_in);
    let product = amount_in * reserve_out;
    let divisor = reserve_in + amount_in;
    assert(product >= 0) by (nonlinear_arith)
        requires
            product == amount_in * reserve_out,
            amount_in > 0,
            reserve_out > 0,
    ;
    crate::math::lemma_div_toward_zero_bounds(product, divisor);
    let out = div_toward_zero(product, divisor);
    assert(out < reserve_out) by (nonlinear_arith)
        requires
            out * divisor <= product,
            product == amount_in * reserve_out,
            divisor == reserve_in + amount_in,
            reserve_in > 0,
            amount_in > 0,
            reserve_out > 0,
            out >= 0,
    ;
}

/// No more than a hundred swaps are remembered for a user, and the newest is
/// the last of them.
pub proof fn lemma_history_is_bounded(history: Seq<SwapResult>, result: SwapResult)
    requires
        history.len() <= HISTORY_LIMIT,
    ensures
        recorded(history, result).len() <= HISTORY_LIMIT,
        recorded(history, result).last() == result,
{
}

/// An amount that comes out as expected has no slippage.
pub proof fn lemma_no_slippage_when_exact(expected: i128)
    ensures
        slippage_outcome(expected, expected) == Ok::<u32, SwapError>(0),
{
}

} // verus!
