//! Typed failures of the ledger operations.
//!
//! Every precondition violation aborts the whole operation with one of
//! these; no partial state change is ever exposed.

use vstd::prelude::*;

verus! {

/// The error kinds that the three ledger operations can surface.
#[derive(Clone, Copy, Debug, PartialEq, Eq, Structural)]
pub enum DonationError {
    /// A donation amount of zero.
    InvalidAmount,
    /// A withdrawal when the bank holds nothing above its reserve.
    NoFundsForWithdrawal,
    /// An initialization whose storage slot is already occupied.
    AccountAlreadyExists,
    /// A withdrawal signed by a key that is not the bank's owner.
    AuthorizationFailure,
    /// The host could not derive a storage address from the seed bytes.
    AddressDerivationError,
    /// A value move that the host refused: insufficient balance, or a
    /// credit that the destination cannot represent.
    TransferError,
}

} // verus!
