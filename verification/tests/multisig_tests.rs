//! Tests of the multi-signature wallet.

use swave::multisig::{MultiSigContract, MultiSigError, TransactionType};
use swave::types::Address;

const NOW: u64 = 1_700_000_000;

fn signers() -> Vec<Address> {
    vec![Address::new(1), Address::new(2), Address::new(3)]
}

fn wallet() -> MultiSigContract {
    let mut wallet = MultiSigContract::new();
    assert_eq!(wallet.initialize(signers(), 2), Ok(()));
    wallet
}

#[test]
fn threshold_has_to_fit_the_signers() {
    let mut wallet = MultiSigContract::new();
    assert_eq!(wallet.initialize(signers(), 1), Err(MultiSigError::InvalidThreshold));
    assert_eq!(wallet.initialize(signers(), 4), Err(MultiSigError::InvalidThreshold));
    assert_eq!(wallet.initialize(vec![], 0), Err(MultiSigError::InvalidThreshold));
    assert_eq!(wallet.get_signers(), Err(MultiSigError::SignerNotFound));
    assert_eq!(wallet.initialize(signers(), 3), Ok(()));
    assert_eq!(wallet.get_signers(), Ok(signers()));
    assert_eq!(wallet.threshold, Some(3));
    assert_eq!(wallet.next_tx_id, Some(1));
    assert_eq!(wallet.get_config(), Err(MultiSigError::InvalidTransaction));
    assert_eq!(wallet.get_active_signers(), Err(MultiSigError::SignerNotFound));
    assert_eq!(wallet.get_signer(Address::new(1)), Err(MultiSigError::SignerNotFound));
}

#[test]
fn proposal_is_signed_by_its_proposer() {
    let mut wallet = wallet();
    let target = Address::new(50);
    let id = wallet.propose_transaction(Address::new(2), target, "update_config".to_string(), NOW);
    assert_eq!(id, Ok(1));
    let tx = wallet.get_transaction(1).unwrap();
    assert_eq!(tx.tx_id, 1);
    assert_eq!(tx.tx_type, TransactionType::AdminAction);
    assert_eq!(tx.target_contract, target);
    assert_eq!(tx.function_name, "update_config");
    assert!(tx.arguments.is_empty());
    assert_eq!(tx.required_threshold, 2);
    assert_eq!(tx.signatures, vec![Address::new(2)]);
    assert_eq!(tx.proposer, Address::new(2));
    assert_eq!(tx.created_at, NOW);
    assert_eq!(tx.deadline, NOW + 86400);
    assert_eq!(tx.time_lock_release, NOW);
    assert!(!tx.executed);
    assert_eq!(wallet.propose_transaction(Address::new(1), target, "x".to_string(), NOW), Ok(2));
    assert_eq!(wallet.next_tx_id, Some(3));
    assert_eq!(
        wallet.propose_transaction(Address::new(9), target, "x".to_string(), NOW),
        Err(MultiSigError::UnauthorizedSigner)
    );
    assert_eq!(
        MultiSigContract::new().propose_transaction(Address::new(1), target, "x".to_string(), NOW),
        Err(MultiSigError::SignerNotFound)
    );
    assert_eq!(
        wallet.propose_transaction(Address::new(1), target, "x".to_string(), u64::MAX),
        Err(MultiSigError::InvalidTransaction)
    );
    assert_eq!(wallet.get_transaction(3).err(), Some(MultiSigError::TransactionNotFound));
}

#[test]
fn execution_needs_the_threshold() {
    let mut wallet = wallet();
    let id = wallet.emergency_pause(Address::new(1), Address::new(50), NOW).unwrap();
    assert_eq!(wallet.get_transaction(id).unwrap().function_name, "emergency_pause");
    assert_eq!(wallet.execute_transaction(id), Err(MultiSigError::InsufficientSignatures));
    assert!(!wallet.get_transaction(id).unwrap().executed);
    assert_eq!(wallet.sign_transaction(Address::new(1), id), Ok(()));
    assert_eq!(wallet.get_transaction(id).unwrap().signatures, vec![Address::new(1)]);
    assert_eq!(wallet.execute_transaction(id), Err(MultiSigError::InsufficientSignatures));
    assert_eq!(wallet.sign_transaction(Address::new(9), id), Err(MultiSigError::UnauthorizedSigner));
    assert_eq!(wallet.sign_transaction(Address::new(3), 77), Err(MultiSigError::SignerNotFound));
    assert_eq!(wallet.sign_transaction(Address::new(3), id), Ok(()));
    assert_eq!(wallet.get_transaction(id).unwrap().signatures, vec![Address::new(1), Address::new(3)]);
    assert_eq!(wallet.execute_transaction(id), Ok(()));
    assert!(wallet.get_transaction(id).unwrap().executed);
    assert_eq!(wallet.execute_transaction(77), Err(MultiSigError::SignerNotFound));
    assert_eq!(
        MultiSigContract::new().sign_transaction(Address::new(1), 1),
        Err(MultiSigError::SignerNotFound)
    );
}
