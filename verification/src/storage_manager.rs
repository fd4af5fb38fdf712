//! The storage manager: it clears out what has expired, in batches, and
//! remembers the latest run of each kind.

use vstd::prelude::*;
use crate::types::Address;

verus! {

/// Days after which a loan has expired.
pub const LOAN_EXPIRY_DAYS: u64 = 365;

/// Days after which idle collateral is cleared.
pub const COLLATERAL_EXPIRY_DAYS: u64 = 400;

/// Hours after which a swap that was remembered is stale.
pub const SWAP_CACHE_EXPIRY_HOURS: u64 = 24;

/// Number of items that one run looks at.
pub const CLEANUP_BATCH_SIZE: u32 = 50;

/// Why the storage manager refused an operation.
#[derive(Clone, Copy, Debug, PartialEq, Eq, Structural)]
pub enum StorageError {
    CleanupFailed,
    UnauthorizedAccess,
    InvalidParameters,
    BatchSizeExceeded,
}

/// What a run clears.
#[derive(Clone, Copy, Debug, PartialEq, Eq, Structural)]
pub enum CleanupType {
    ExpiredLoans,
    InactiveCollateral,
    StaleSwapCache,
    OldPriceFeeds,
}

/// What a run did.
#[derive(Clone, Copy, Debug, PartialEq, Eq)]
pub struct CleanupResult {
    pub cleanup_type: CleanupType,
    pub items_processed: u32,
    pub items_cleaned: u32,
    /// Bytes that the run freed.
    pub storage_freed: u64,
    pub timestamp: u64,
}

/// The latest run of each kind.
#[derive(Clone, Copy, Debug, PartialEq, Eq)]
pub struct CleanupLog {
    pub expired_loans: Option<CleanupResult>,
    pub inactive_collateral: Option<CleanupResult>,
    pub stale_swap_cache: Option<CleanupResult>,
    pub old_price_feeds: Option<CleanupResult>,
}

impl CleanupLog {
    /// The latest run that cleared `cleanup_type`, if there was one.
    pub open spec fn latest(&self, cleanup_type: CleanupType) -> Option<CleanupResult> {
        match cleanup_type {
            CleanupType::ExpiredLoans => self.expired_loans,
            CleanupType::InactiveCollateral => self.inactive_collateral,
            CleanupType::StaleSwapCache => self.stale_swap_cache,
            CleanupType::OldPriceFeeds => self.old_price_feeds,
        }
    }

    /// The log with `result` as the latest run of its kind.
    pub open spec fn with(&self, result: CleanupResult) -> CleanupLog {
        match result.cleanup_type {
            CleanupType::ExpiredLoans => CleanupLog { expired_loans: Some(result), ..*self },
            CleanupType::InactiveCollateral => CleanupLog {
                inactive_collateral: Some(result),
                ..*self
            },
            CleanupType::StaleSwapCache => CleanupLog { stale_swap_cache: Some(result), ..*self },
            CleanupType::OldPriceFeeds => CleanupLog { old_price_feeds: Some(result), ..*self },
        }
    }
}

/// What a run of a kind does at a time and a sequence number.
///
/// Every run looks at a batch of 50. Of loans it clears a quarter of the
/// last two digits of the sequence number, at a thousand bytes each; of
/// collateral a fifth of the sequence number modulo 80, at 800 bytes each;
/// of remembered swaps a third of the sequence number modulo 120, at 500
/// bytes each.
pub open spec fn cleanup_at(cleanup_type: CleanupType, now: u64, sequence: u32) -> CleanupResult {
    let cleaned: int = match cleanup_type {
        CleanupType::ExpiredLoans => (sequence % 100) as int / 4,
        CleanupType::InactiveCollateral => (sequence % 80) as int / 5,
        CleanupType::StaleSwapCache => (sequence % 120) as int / 3,
        CleanupType::OldPriceFeeds => 0,
    };
    let bytes_each: int = match cleanup_type {
        CleanupType::ExpiredLoans => 1000,
        CleanupType::InactiveCollateral => 800,
        CleanupType::StaleSwapCache => 500,
        CleanupType::OldPriceFeeds => 0,
    };
    CleanupResult {
        cleanup_type: cleanup_type,
        items_processed: CLEANUP_BATCH_SIZE,
        items_cleaned: cleaned as u32,
        storage_freed: (cleaned * bytes_each) as u64,
        timestamp: now,
    }
}

/// The storage manager.
pub struct StorageManagerContract {
    pub admin: Option<Address>,
    /// The latest run of each kind.
    pub last_cleanup: CleanupLog,
}

impl StorageManagerContract {
    /// A storage manager that has not been set up.
    pub fn new() -> (c: Self)
        ensures
            c.admin is None,
            forall|t: CleanupType| c.last_cleanup.latest(t) is None,
    {
        StorageManagerContract {
            admin: None,
            last_cleanup: CleanupLog {
                expired_loans: None,
                inactive_collateral: None,
                stale_swap_cache: None,
                old_price_feeds: None,
            },
        }
    }

    /// Sets the administrator.
    pub fn initialize(&mut self, admin: Address) -> (r: Result<(), StorageError>)
        ensures
            r is Ok,
            final(self).admin == Some(admin),
            final(self).last_cleanup == old(self).last_cleanup,
    {
        self.admin = Some(admin);
        Ok(())
    }

    /// Accepts the administrator.
    pub fn validate_admin(&self, caller: Address) -> (r: Result<(), StorageError>)
        ensures
            r is Ok <==> self.admin == Some(caller),
            r is Err ==> r == Err::<(), StorageError>(StorageError::UnauthorizedAccess),
    {
        match self.admin {
            Some(admin) => {
                if caller != admin {
                    return Err(StorageError::UnauthorizedAccess);
                }
                Ok(())
            },
            None => Err(StorageError::UnauthorizedAccess),
        }
    }

    /// Runs a cleanup of one kind and remembers it.
    fn run(&mut self, caller: Address, cleanup_type: CleanupType, divisor: u32, modulus: u32, bytes_each: u64, now: u64, sequence: u32) -> (r:
        Result<CleanupResult, StorageError>)
        requires
            cleanup_type != CleanupType::OldPriceFeeds,
            cleanup_type == CleanupType::ExpiredLoans ==> modulus == 100 && divisor == 4
                && bytes_each == 1000,
            cleanup_type == CleanupType::InactiveCollateral ==> modulus == 80 && divisor == 5
                && bytes_each == 800,
            cleanup_type == CleanupType::StaleSwapCache ==> modulus == 120 && divisor == 3
                && bytes_each == 500,
        ensures
            r is Ok <==> old(self).admin == Some(caller),
            r is Err ==> r == Err::<CleanupResult, StorageError>(StorageError::UnauthorizedAccess),
            r is Err ==> *final(self) == *old(self),
            r matches Ok(result) ==> {
                &&& result == cleanup_at(cleanup_type, now, sequence)
                &&& result.items_cleaned <= CLEANUP_BATCH_SIZE
                &&& final(self).last_cleanup == old(self).last_cleanup.with(result)
                &&& final(self).admin == old(self).admin
            },
    {
        match self.validate_admin(caller) {
            Ok(()) => {},
            Err(e) => {
                return Err(e);
            },
        }
        let sequence_factor: u32 = sequence % modulus;
        let items_processed: u32 = CLEANUP_BATCH_SIZE;
        let cleaned: u32 = sequence_factor / divisor;
        let items_cleaned: u32 = if cleaned > CLEANUP_BATCH_SIZE {
            CLEANUP_BATCH_SIZE
        } else {
            cleaned
        };
        let result = CleanupResult {
            cleanup_type,
            items_processed,
            items_cleaned,
            storage_freed: items_cleaned as u64 * bytes_each,
            timestamp: now,
        };
        match cleanup_type {
            CleanupType::ExpiredLoans => {
                self.last_cleanup.expired_loans = Some(result);
            },
            CleanupType::InactiveCollateral => {
                self.last_cleanup.inactive_collateral = Some(result);
            },
            CleanupType::StaleSwapCache => {
                self.last_cleanup.stale_swap_cache = Some(result);
            },
            CleanupType::OldPriceFeeds => {
                self.last_cleanup.old_price_feeds = Some(result);
            },
        }
        Ok(result)
    }

    /// Clears out expired loans, as [`cleanup_at`] states. Only the
    /// administrator may ask.
    pub fn cleanup_expired_loans(&mut self, caller: Address, now: u64, sequence: u32) -> (r: Result<
        CleanupResult,
        StorageError,
    >)
        ensures
            r is Ok <==> old(self).admin == Some(caller),
            r is Err ==> r == Err::<CleanupResult, StorageError>(StorageError::UnauthorizedAccess),
            r is Err ==> *final(self) == *old(self),
            r matches Ok(result) ==> {
                &&& result == cleanup_at(CleanupType::ExpiredLoans, now, sequence)
                &&& final(self).last_cleanup == old(self).last_cleanup.with(result)
                &&& final(self).admin == old(self).admin
            },
    {
        self.run(caller, CleanupType::ExpiredLoans, 4, 100, 1000, now, sequence)
    }

    /// Clears out idle collateral, as [`cleanup_at`] states. Only the
    /// administrator may ask.
    pub fn cleanup_inactive_collateral(&mut self, caller: Address, now: u64, sequence: u32) -> (r: Result<
        CleanupResult,
        StorageError,
    >)
        ensures
            r is Ok <==> old(self).admin == Some(caller),
            r is Err ==> r == Err::<CleanupResult, StorageError>(StorageError::UnauthorizedAccess),
            r is Err ==> *final(self) == *old(self),
            r matches Ok(result) ==> {
                &&& result == cleanup_at(CleanupType::InactiveCollateral, now, sequence)
                &&& final(self).last_cleanup == old(self).last_cleanup.with(result)
                &&& final(self).admin == old(self).admin
            },
    {
        self.run(caller, CleanupType::InactiveCollateral, 5, 80, 800, now, sequence)
    }

    /// Clears out stale swaps, as [`cleanup_at`] states. Only the
    /// administrator may ask.
    pub fn cleanup_swap_cache(&mut self, caller: Address, now: u64, sequence: u32) -> (r: Result<
        CleanupResult,
        StorageError,
    >)
        ensures
            r is Ok <==> old(self).admin == Some(caller),
            r is Err ==> r == Err::<CleanupResult, StorageError>(StorageError::UnauthorizedAccess),
            r is Err ==> *final(self) == *old(self),
            r matches Ok(result) ==> {
                &&& result == cleanup_at(CleanupType::StaleSwapCache, now, sequence)
                &&& final(self).last_cleanup == old(self).last_cleanup.with(result)
                &&& final(self).admin == old(self).admin
            },
    {
        self.run(caller, CleanupType::StaleSwapCache, 3, 120, 500, now, sequence)
    }

    /// Runs the three cleanups one after the other: loans, collateral,
    /// swaps. Only the administrator may ask.
    pub fn run_comprehensive_cleanup(&mut self, caller: Address, now: u64, sequence: u32) -> (r: Result<
        Vec<CleanupResult>,
        StorageError,
    >)
        ensures
            r is Ok <==> old(self).admin == Some(caller),
            r is Err ==> r->Err_0 == StorageError::UnauthorizedAccess,
            r is Err ==> *final(self) == *old(self),
            r matches Ok(results) ==> {
                &&& results@ == seq![
                    cleanup_at(CleanupType::ExpiredLoans, now, sequence),
                    cleanup_at(CleanupType::InactiveCollateral, now, sequence),
                    cleanup_at(CleanupType::StaleSwapCache, now, sequence),
                ]
                &&& final(self).last_cleanup == old(self).last_cleanup.with(results@[0]).with(
                    results@[1],
                ).with(results@[2])
                &&& final(self).admin == old(self).admin
            },
    {
        match self.validate_admin(caller) {
            Ok(()) => {},
            Err(e) => {
                return Err(e);
            },
        }
        let mut results: Vec<CleanupResult> = Vec::new();
        let loan_result = match self.cleanup_expired_loans(caller, now, sequence) {
            Ok(x) => x,
            Err(e) => {
                return Err(e);
            },
        };
        results.push(loan_result);
        let collateral_result = match self.cleanup_inactive_collateral(caller, now, sequence) {
            Ok(x) => x,
            Err(e) => {
                proof {
                    assert(false);
                }
                return Err(e);
            },
        };
        results.push(collateral_result);
        let swap_result = match self.cleanup_swap_cache(caller, now, sequence) {
            Ok(x) => x,
            Err(e) => {
                proof {
                    assert(false);
                }
                return Err(e);
            },
        };
        results.push(swap_result);
        proof {
            assert(results@ =~= seq![loan_result, collateral_result, swap_result]);
        }
        Ok(results)
    }

    /// The latest run that cleared `cleanup_type`.
    pub fn get_cleanup_stats(&self, cleanup_type: CleanupType) -> (r: Result<CleanupResult, StorageError>)
        ensures
            match self.last_cleanup.latest(cleanup_type) {
                Some(result) => r == Ok::<CleanupResult, StorageError>(result),
                None => r == Err::<CleanupResult, StorageError>(StorageError::CleanupFailed),
            },
    {
        let latest = match cleanup_type {
            CleanupType::ExpiredLoans => self.last_cleanup.expired_loans,
            CleanupType::InactiveCollateral => self.last_cleanup.inactive_collateral,
            CleanupType::StaleSwapCache => self.last_cleanup.stale_swap_cache,
            CleanupType::OldPriceFeeds => self.last_cleanup.old_price_feeds,
        };
        match latest {
            Some(result) => Ok(result),
            None => Err(StorageError::CleanupFailed),
        }
    }
}

/// A run never clears more than it looks at: at most 24 loans, 15 positions
/// and 39 swaps of a batch of 50.
pub proof fn lemma_cleanup_within_batch(cleanup_type: CleanupType, now: u64, sequence: u32)
    ensures
        cleanup_at(cleanup_type, now, sequence).items_cleaned <= cleanup_at(
            cleanup_type,
            now,
            sequence,
        ).items_processed,
        cleanup_at(CleanupType::ExpiredLoans, now, sequence).items_cleaned <= 24,
        cleanup_at(CleanupType::InactiveCollateral, now, sequence).items_cleaned <= 15,
        cleanup_at(CleanupType::StaleSwapCache, now, sequence).items_cleaned <= 39,
{
}

} // verus!
