//! The multi-signature wallet: signers propose transactions, sign them, and
//! a transaction can be executed once enough of them have signed.

use vstd::prelude::*;
use std::collections::HashMap;
use crate::types::Address;
use crate::oracle::{contains_address, copy_addresses};

verus! {

/// Smallest number of signatures that a wallet may ask for.
pub const MIN_THRESHOLD: u32 = 2;

/// Seconds that a proposal stays open.
pub const TIME_LOCK_DURATION: u64 = 86400;

/// Why the wallet refused an operation.
#[derive(Clone, Copy, Debug, PartialEq, Eq, Structural)]
pub enum MultiSigError {
    InvalidThreshold,
    InsufficientSignatures,
    SignerNotFound,
    TransactionNotFound,
    TransactionExpired,
    TransactionAlreadyExecuted,
    UnauthorizedSigner,
    DuplicateSignature,
    TimeLockActive,
    InvalidTransaction,
}

/// What a signer may do.
#[derive(Clone, Copy, Debug, PartialEq, Eq, Structural)]
pub enum SignerRole {
    /// Everything.
    Admin,
    /// Day-to-day operations.
    Operator,
    /// Emergencies only.
    Guardian,
}

/// What a transaction is for.
#[derive(Clone, Copy, Debug, PartialEq, Eq, Structural)]
pub enum TransactionType {
    AdminAction,
    EmergencyAction,
    ConfigUpdate,
    AssetManagement,
    FeeUpdate,
}

/// What the wallet knows of a signer.
#[derive(Clone, Copy, Debug, PartialEq, Eq)]
pub struct Signer {
    pub address: Address,
    pub role: SignerRole,
    pub active: bool,
    pub added_at: u64,
    pub last_activity: u64,
}

/// A transaction that waits for signatures.
#[derive(Debug, PartialEq, Eq)]
pub struct PendingTransaction {
    pub tx_id: u64,
    pub tx_type: TransactionType,
    /// The contract that the transaction calls.
    pub target_contract: Address,
    /// The function that the transaction calls.
    pub function_name: String,
    pub arguments: Vec<u8>,
    /// Number of signatures that the transaction needs.
    pub required_threshold: u32,
    /// Who has signed, in the order of signing.
    pub signatures: Vec<Address>,
    pub proposer: Address,
    pub created_at: u64,
    pub deadline: u64,
    pub time_lock_release: u64,
    pub executed: bool,
}

/// Settings of the wallet.
#[derive(Clone, Copy, Debug, PartialEq, Eq)]
pub struct MultiSigConfig {
    pub threshold: u32,
    pub total_signers: u32,
    pub emergency_threshold: u32,
    pub time_lock_duration: u64,
    pub transaction_expiry: u64,
}

/// Whether `tx` is the proposal of `proposer` to call `function_name` on
/// `target_contract`, made at time `now`: signed by the proposer alone and
/// open for a day.
pub open spec fn is_proposal(
    tx: PendingTransaction,
    tx_id: u64,
    threshold: u32,
    proposer: Address,
    target_contract: Address,
    function_name: Seq<char>,
    now: u64,
) -> bool {
    &&& tx.tx_id == tx_id
    &&& tx.tx_type == TransactionType::AdminAction
    &&& tx.target_contract == target_contract
    &&& tx.function_name@ == function_name
    &&& tx.arguments@.len() == 0
    &&& tx.required_threshold == threshold
    &&& tx.signatures@ == seq![proposer]
    &&& tx.proposer == proposer
    &&& tx.created_at == now
    &&& tx.deadline == now + TIME_LOCK_DURATION
    &&& tx.time_lock_release == now
    &&& !tx.executed
}

/// Whether `after` is `before` with the signatures `signatures` and the
/// mark `executed`, and nothing else changed.
pub open spec fn differs_in_progress(
    before: PendingTransaction,
    after: PendingTransaction,
    signatures: Seq<Address>,
    executed: bool,
) -> bool {
    &&& after.tx_id == before.tx_id
    &&& after.tx_type == before.tx_type
    &&& after.target_contract == before.target_contract
    &&& after.function_name == before.function_name
    &&& after.arguments == before.arguments
    &&& after.required_threshold == before.required_threshold
    &&& after.signatures@ == signatures
    &&& after.proposer == before.proposer
    &&& after.created_at == before.created_at
    &&& after.deadline == before.deadline
    &&& after.time_lock_release == before.time_lock_release
    &&& after.executed == executed
}

/// The multi-signature wallet.
pub struct MultiSigContract {
    /// Who may propose and sign.
    pub signers: Option<Vec<Address>>,
    /// Number of signatures that a new proposal needs.
    pub threshold: Option<u32>,
    /// Identifier of the next proposal.
    pub next_tx_id: Option<u64>,
    /// Proposals by their identifier.
    pub transactions: HashMap<u64, PendingTransaction>,
    /// What is known of each signer, by the signer's identifier.
    pub signer_info: HashMap<u64, Signer>,
    pub config: Option<MultiSigConfig>,
    pub active_signers: Option<Vec<Address>>,
}

impl MultiSigContract {
    /// Whether `who` is one of the signers.
    pub open spec fn is_signer(&self, who: Address) -> bool {
        self.signers is Some && self.signers->Some_0@.contains(who)
    }

    /// Identifier that the next proposal gets.
    pub open spec fn upcoming_tx_id(&self) -> u64 {
        match self.next_tx_id {
            Some(id) => id,
            None => 1,
        }
    }

    /// Number of signatures that the next proposal needs.
    pub open spec fn current_threshold(&self) -> u32 {
        match self.threshold {
            Some(t) => t,
            None => MIN_THRESHOLD,
        }
    }

    /// Why a proposal by `proposer` at time `now` is refused, if it is.
    pub open spec fn proposal_rejection(&self, proposer: Address, now: u64) -> Option<MultiSigError> {
        if self.signers is None {
            Some(MultiSigError::SignerNotFound)
        } else if !self.is_signer(proposer) {
            Some(MultiSigError::UnauthorizedSigner)
        } else if self.upcoming_tx_id() == u64::MAX || now + TIME_LOCK_DURATION > u64::MAX {
            Some(MultiSigError::InvalidTransaction)
        } else {
            None
        }
    }

    /// Why a signature of `signer` under the proposal `tx_id` is refused, if
    /// it is.
    pub open spec fn signing_rejection(&self, signer: Address, tx_id: u64) -> Option<MultiSigError> {
        if self.signers is None {
            Some(MultiSigError::SignerNotFound)
        } else if !self.is_signer(signer) {
            Some(MultiSigError::UnauthorizedSigner)
        } else if !self.transactions@.contains_key(tx_id) {
            Some(MultiSigError::SignerNotFound)
        } else {
            None
        }
    }

    /// Why executing the proposal `tx_id` is refused, if it is.
    pub open spec fn execution_rejection(&self, tx_id: u64) -> Option<MultiSigError> {
        if !self.transactions@.contains_key(tx_id) {
            Some(MultiSigError::SignerNotFound)
        } else if self.transactions@[tx_id].signatures@.len()
            < self.transactions@[tx_id].required_threshold {
            Some(MultiSigError::InsufficientSignatures)
        } else {
            None
        }
    }

    /// Whether everything but the proposals is as in `before`.
    pub open spec fn same_settings_as(&self, before: &MultiSigContract) -> bool {
        &&& self.signers == before.signers
        &&& self.threshold == before.threshold
        &&& self.signer_info == before.signer_info
        &&& self.config == before.config
        &&& self.active_signers == before.active_signers
    }

    /// Whether the proposals are those of `before`, but for the one under
    /// `tx_id`.
    pub open spec fn same_transactions_but(&self, before: &MultiSigContract, tx_id: u64) -> bool {
        &&& self.transactions@.dom() == before.transactions@.dom().insert(tx_id)
        &&& forall|other: u64|
            other != tx_id && before.transactions@.contains_key(other)
                ==> self.transactions@[other] == before.transactions@[other]
    }

    /// A wallet that has not been set up.
    pub fn new() -> (c: Self)
        ensures
            c.signers is None,
            c.threshold is None,
            c.next_tx_id is None,
            c.transactions@ == Map::<u64, PendingTransaction>::empty(),
            c.signer_info@ == Map::<u64, Signer>::empty(),
            c.config is None,
            c.active_signers is None,
    {
        MultiSigContract {
            signers: None,
            threshold: None,
            next_tx_id: None,
            transactions: HashMap::new(),
            signer_info: HashMap::new(),
            config: None,
            active_signers: None,
        }
    }

    /// Sets the signers and the number of signatures that a proposal needs:
    /// at least two and no more than there are signers.
    pub fn initialize(&mut self, signers: Vec<Address>, threshold: u32) -> (r: Result<(), MultiSigError>)
        ensures
            r is Ok <==> MIN_THRESHOLD <= threshold <= signers@.len(),
            r is Err ==> r == Err::<(), MultiSigError>(MultiSigError::InvalidThreshold),
            r is Err ==> *final(self) == *old(self),
            r is Ok ==> {
                &&& final(self).signers == Some(signers)
                &&& final(self).threshold == Some(threshold)
                &&& final(self).next_tx_id == Some(1u64)
                &&& final(self).transactions == old(self).transactions
                &&& final(self).signer_info == old(self).signer_info
                &&& final(self).config == old(self).config
                &&& final(self).active_signers == old(self).active_signers
            },
    {
        if threshold < MIN_THRESHOLD || threshold as usize > signers.len() {
            return Err(MultiSigError::InvalidThreshold);
        }
        self.signers = Some(signers);
        self.threshold = Some(threshold);
        self.next_tx_id = Some(1);
        Ok(())
    }

    /// Whether `who` is one of the signers, once signers are set.
    fn check_signer(&self, who: Address) -> (r: Result<(), MultiSigError>)
        ensures
            self.signers is None ==> r == Err::<(), MultiSigError>(MultiSigError::SignerNotFound),
            self.signers is Some && !self.is_signer(who) ==> r == Err::<(), MultiSigError>(
                MultiSigError::UnauthorizedSigner,
            ),
            self.is_signer(who) ==> r is Ok,
    {
        match &self.signers {
            None => Err(MultiSigError::SignerNotFound),
            Some(signers) => {
                if contains_address(signers, who) {
                    Ok(())
                } else {
                    Err(MultiSigError::UnauthorizedSigner)
                }
            },
        }
    }

    /// Proposes to call `function_name` on `target_contract`.
    ///
    /// Only a signer may propose. The proposal gets the next identifier, is
    /// signed by the proposer, needs the wallet's number of signatures and
    /// stays open for a day. The identifier is returned. On an error nothing
    /// changes.
    pub fn propose_transaction(
        &mut self,
        proposer: Address,
        target_contract: Address,
        function_name: String,
        now: u64,
    ) -> (r: Result<u64, MultiSigError>)
        ensures
            r is Err <==> old(self).proposal_rejection(proposer, now) is Some,
            r matches Err(e) ==> Some(e) == old(self).proposal_rejection(proposer, now),
            r is Err ==> *final(self) == *old(self),
            r matches Ok(tx_id) ==> {
                &&& tx_id == old(self).upcoming_tx_id()
                &&& final(self).next_tx_id == Some((tx_id + 1) as u64)
                &&& final(self).same_settings_as(old(self))
                &&& final(self).same_transactions_but(old(self), tx_id)
                &&& is_proposal(
                    final(self).transactions@[tx_id],
                    tx_id,
                    old(self).current_threshold(),
                    proposer,
                    target_contract,
                    function_name@,
                    now,
                )
            },
    {
        match self.check_signer(proposer) {
            Ok(()) => {},
            Err(e) => {
                return Err(e);
            },
        }
        let tx_id: u64 = match self.next_tx_id {
            Some(id) => id,
            None => 1,
        };
        let threshold: u32 = match self.threshold {
            Some(t) => t,
            None => MIN_THRESHOLD,
        };
        if tx_id == u64::MAX {
            return Err(MultiSigError::InvalidTransaction);
        }
        let deadline: u64 = match now.checked_add(TIME_LOCK_DURATION) {
            Some(d) => d,
            None => {
                return Err(MultiSigError::InvalidTransaction);
            },
        };
        let mut signatures: Vec<Address> = Vec::new();
        signatures.push(proposer);
        let pending_tx = PendingTransaction {
            tx_id,
            tx_type: TransactionType::AdminAction,
            target_contract,
            function_name,
            arguments: Vec::new(),
            required_threshold: threshold,
            signatures,
            proposer,
            created_at: now,
            deadline,
            time_lock_release: now,
            executed: false,
        };
        self.transactions.insert(tx_id, pending_tx);
        self.next_tx_id = Some(tx_id + 1);
        proof {
            assert(self.transactions@.dom() =~= old(self).transactions@.dom().insert(tx_id));
        }
        Ok(tx_id)
    }

    /// Signs the proposal `tx_id` for `signer`.
    ///
    /// Only a signer may sign. A signer who has signed already is not
    /// counted again. On an error nothing changes.
    pub fn sign_transaction(&mut self, signer: Address, tx_id: u64) -> (r: Result<(), MultiSigError>)
        ensures
            r is Err <==> old(self).signing_rejection(signer, tx_id) is Some,
            r matches Err(e) ==> Some(e) == old(self).signing_rejection(signer, tx_id),
            r is Err ==> *final(self) == *old(self),
            r is Ok ==> {
                let before = old(self).transactions@[tx_id];
                &&& final(self).same_settings_as(old(self))
                &&& final(self).next_tx_id == old(self).next_tx_id
                &&& final(self).same_transactions_but(old(self), tx_id)
                &&& differs_in_progress(
                    before,
                    final(self).transactions@[tx_id],
                    signed(before.signatures@, signer),
                    before.executed,
                )
            },
    {
        match self.check_signer(signer) {
            Ok(()) => {},
            Err(e) => {
                return Err(e);
            },
        }
        if !self.transactions.contains_key(&tx_id) {
            return Err(MultiSigError::SignerNotFound);
        }
        let mut pending_tx = match self.transactions.remove(&tx_id) {
            Some(tx) => tx,
            None => {
                proof {
                    assert(false);
                }
                return Err(MultiSigError::SignerNotFound);
            },
        };
        if !contains_address(&pending_tx.signatures, signer) {
            pending_tx.signatures.push(signer);
        }
        self.transactions.insert(tx_id, pending_tx);
        proof {
            assert(self.transactions@.dom() =~= old(self).transactions@.dom().insert(tx_id));
        }
        Ok(())
    }

    /// Marks the proposal `tx_id` as executed, once it has the signatures
    /// that it needs. On an error nothing changes.
    pub fn execute_transaction(&mut self, tx_id: u64) -> (r: Result<(), MultiSigError>)
        ensures
            r is Err <==> old(self).execution_rejection(tx_id) is Some,
            r matches Err(e) ==> Some(e) == old(self).execution_rejection(tx_id),
            r is Err ==> final(self).same_settings_as(old(self)) && final(self).next_tx_id == old(
                self,
            ).next_tx_id && final(self).transactions@ == old(self).transactions@,
            r is Ok ==> {
                let before = old(self).transactions@[tx_id];
                &&& final(self).same_settings_as(old(self))
                &&& final(self).next_tx_id == old(self).next_tx_id
                &&& final(self).same_transactions_but(old(self), tx_id)
                &&& differs_in_progress(
                    before,
                    final(self).transactions@[tx_id],
                    before.signatures@,
                    true,
                )
            },
    {
        let mut pending_tx = match self.transactions.remove(&tx_id) {
            Some(tx) => tx,
            None => {
                return Err(MultiSigError::SignerNotFound);
            },
        };
        if pending_tx.signatures.len() < pending_tx.required_threshold as usize {
            self.transactions.insert(tx_id, pending_tx);
            proof {
                assert(self.transactions@ =~= old(self).transactions@);
            }
            return Err(MultiSigError::InsufficientSignatures);
        }
        pending_tx.executed = true;
        self.transactions.insert(tx_id, pending_tx);
        proof {
            assert(self.transactions@.dom() =~= old(self).transactions@.dom().insert(tx_id));
        }
        Ok(())
    }

    /// The signers, once they are set.
    pub fn get_signers(&self) -> (r: Result<Vec<Address>, MultiSigError>)
        ensures
            self.signers is Some ==> r is Ok && r->Ok_0@ == self.signers->Some_0@,
            self.signers is None ==> r == Err::<Vec<Address>, MultiSigError>(
                MultiSigError::SignerNotFound,
            ),
    {
        match &self.signers {
            Some(signers) => Ok(copy_addresses(signers)),
            None => Err(MultiSigError::SignerNotFound),
        }
    }

    /// The proposal `tx_id`.
    pub fn get_transaction(&self, tx_id: u64) -> (r: Result<&PendingTransaction, MultiSigError>)
        ensures
            self.transactions@.contains_key(tx_id) ==> r is Ok && *r->Ok_0
                == self.transactions@[tx_id],
            !self.transactions@.contains_key(tx_id) ==> r == Err::<
                &PendingTransaction,
                MultiSigError,
            >(MultiSigError::TransactionNotFound),
    {
        match self.transactions.get(&tx_id) {
            Some(tx) => Ok(tx),
            None => Err(MultiSigError::TransactionNotFound),
        }
    }

    /// What is known of `signer`.
    pub fn get_signer(&self, signer: Address) -> (r: Result<Signer, MultiSigError>)
        ensures
            self.signer_info@.contains_key(signer.id) ==> r == Ok::<Signer, MultiSigError>(
                self.signer_info@[signer.id],
            ),
            !self.signer_info@.contains_key(signer.id) ==> r == Err::<Signer, MultiSigError>(
                MultiSigError::SignerNotFound,
            ),
    {
        match self.signer_info.get(&signer.id) {
            Some(s) => Ok(*s),
            None => Err(MultiSigError::SignerNotFound),
        }
    }

    /// The settings, once they are set.
    pub fn get_config(&self) -> (r: Result<MultiSigConfig, MultiSigError>)
        ensures
            match self.config {
                Some(c) => r == Ok::<MultiSigConfig, MultiSigError>(c),
                None => r == Err::<MultiSigConfig, MultiSigError>(
                    MultiSigError::InvalidTransaction,
                ),
            },
    {
        match self.config {
            Some(c) => Ok(c),
            None => Err(MultiSigError::InvalidTransaction),
        }
    }

    /// The signers that are active, once they are set.
    pub fn get_active_signers(&self) -> (r: Result<Vec<Address>, MultiSigError>)
        ensures
            self.active_signers is Some ==> r is Ok && r->Ok_0@ == self.active_signers->Some_0@,
            self.active_signers is None ==> r == Err::<Vec<Address>, MultiSigError>(
                MultiSigError::SignerNotFound,
            ),
    {
        match &self.active_signers {
            Some(signers) => Ok(copy_addresses(signers)),
            None => Err(MultiSigError::SignerNotFound),
        }
    }

    /// Proposes to pause `target_contract`.
    pub fn emergency_pause(&mut self, caller: Address, target_contract: Address, now: u64) -> (r: Result<
        u64,
        MultiSigError,
    >)
        ensures
            r is Err <==> old(self).proposal_rejection(caller, now) is Some,
            r matches Err(e) ==> Some(e) == old(self).proposal_rejection(caller, now),
            r is Err ==> *final(self) == *old(self),
            r matches Ok(tx_id) ==> {
                &&& tx_id == old(self).upcoming_tx_id()
                &&& final(self).next_tx_id == Some((tx_id + 1) as u64)
                &&& final(self).same_settings_as(old(self))
                &&& final(self).same_transactions_but(old(self), tx_id)
                &&& is_proposal(
                    final(self).transactions@[tx_id],
                    tx_id,
                    old(self).current_threshold(),
                    caller,
                    target_contract,
                    "emergency_pause"@,
                    now,
                )
            },
    {
        self.propose_transaction(caller, target_contract, "emergency_pause".to_owned(), now)
    }
}

/// The signatures after `signer` has signed: a signer who has signed
/// already is not counted again.
pub open spec fn signed(before: Seq<Address>, signer: Address) -> Seq<Address> {
    if before.contains(signer) {
        before
    } else {
        before.push(signer)
    }
}

/// Signing never takes a signature away, and leaves the signer among those
/// who have signed.
pub proof fn lemma_signatures_only_grow(before: Seq<Address>, signer: Address)
    ensures
        signed(before, signer).len() >= before.len(),
        signed(before, signer).contains(signer),
        forall|who: Address| before.contains(who) ==> signed(before, signer).contains(who),
        signed(signed(before, signer), signer) == signed(before, signer),
{
    let after = signed(before, signer);
    if !before.contains(signer) {
        assert(after[before.len() as int] == signer);
        assert forall|who: Address| before.contains(who) implies after.contains(who) by {
            let i = choose|i: int| 0 <= i < before.len() && before[i] == who;
            assert(after[i] == who);
        }
    }
}

} // verus!
