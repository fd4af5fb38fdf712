//! Values shared by every contract of the platform.

use vstd::prelude::*;

verus! {

/// Number of seconds in a day.
pub const SECONDS_PER_DAY: u64 = 86400;

/// A stable identifier of an account or of a contract.
///
/// Two addresses designate the same party exactly when their identifiers are
/// equal.
#[derive(Clone, Copy, Debug, PartialEq, Eq, Hash, Structural)]
pub struct Address {
    pub id: u64,
}

impl Address {
    /// The address with the given identifier.
    pub fn new(id: u64) -> (a: Address)
        ensures
            a.id == id,
    {
        Address { id }
    }
}

/// A movement of tokens that an operation has decided on.
///
/// The contracts never move tokens themselves. An operation that succeeds
/// hands back the movement it relies on; the host carries it out and keeps
/// the new state only if the movement went through.
#[derive(Clone, Copy, Debug, PartialEq, Eq, Structural)]
pub struct Transfer {
    /// Contract of the token that moves.
    pub token: Address,
    /// Party that gives the tokens.
    pub from: Address,
    /// Party that receives the tokens.
    pub to: Address,
    /// Number of tokens, in the token's smallest unit.
    pub amount: i128,
}

} // verus!
