//! The persisted records: donation banks and per-donor ledger entries.

use vstd::prelude::*;
use crate::keys::{Pubkey, Address};

verus! {

/// Storage footprint of a [`BaseAccount`] record: a 32-byte key plus an
/// 8-byte discriminator.
pub const BASE_ACCOUNT_LEN: usize = 32 + 8;

/// A donation bank: the record that holds the identity authorized to
/// withdraw. Created once, never deleted; the owner is immutable.
#[derive(Clone, Copy, Debug, PartialEq, Eq, Structural)]
pub struct BaseAccount {
    pub owner: Pubkey,
}

/// One donor's cumulative contribution ledger entry. A donor has at most
/// one such record system-wide; its first successful donation fixes
/// `donation_bank` and `donator` permanently, and `amount` only grows,
/// saturating at the largest representable value.
#[derive(Clone, Copy, Debug, PartialEq, Eq, Structural)]
pub struct DonationData {
    pub donation_bank: Address,
    pub donator: Pubkey,
    pub amount: u64,
}

/// What a storage slot can hold.
#[derive(Clone, Copy, Debug, PartialEq, Eq, Structural)]
pub enum Record {
    Base(BaseAccount),
    Donation(DonationData),
}

} // verus!
