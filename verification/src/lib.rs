//! Verified core of the SWAVE lending platform.
//!
//! The crate holds the decision logic of the platform's contracts as plain
//! state machines: every operation takes the contract's state, the caller's
//! arguments and what the ledger reports (time, sequence number), and returns
//! the outcome together with the custody movements the host has to carry out.
//! Each operation is proved against a contract over a mathematical model of
//! the state.

pub mod types;
pub mod math;
pub mod collateral;
pub mod loan;
pub mod fee_manager;
pub mod swap;
pub mod oracle;
pub mod credit_score;
pub mod liquidity;
pub mod multisig;
pub mod storage_manager;
