//! Notification records appended after each successful mutation.
//!
//! The emitter is fire-and-forget: observers read the log, but nothing in
//! the state machine's correctness depends on it.

use vstd::prelude::*;
use crate::keys::{Pubkey, Address};

verus! {

/// Emitted after a successful donation; `amount` is this donation's value,
/// not the donor's cumulative total.
#[derive(Clone, Copy, Debug, PartialEq, Eq, Structural)]
pub struct DonationEvent {
    pub donation_bank: Address,
    pub donator: Pubkey,
    pub amount: u64,
}

/// Emitted after a successful withdrawal; `amount` is what moved to the
/// destination.
#[derive(Clone, Copy, Debug, PartialEq, Eq, Structural)]
pub struct WithdrawEvent {
    pub donation_bank: Address,
    pub destination: Address,
    pub amount: u64,
}

/// One entry of the append-only notification log.
#[derive(Clone, Copy, Debug, PartialEq, Eq, Structural)]
pub enum LedgerEvent {
    Donation(DonationEvent),
    Withdraw(WithdrawEvent),
}

} // verus!
