//! A verified donation-ledger state machine.
//!
//! A payer establishes a donation bank owned by a designated key, donors
//! transfer value into that bank while a running per-donor total is kept,
//! and the owner withdraws accumulated value above a minimum reserve.
//! The persistent store that the host would provide is modelled explicitly:
//! every operation takes the store as a parameter and mutates it, so the
//! whole state machine is plain verified code.

pub mod keys;
pub mod errors;
pub mod accounts;
pub mod events;
pub mod store;
pub mod ledger;
pub mod laws;

pub use keys::{Pubkey, Address, derive_address, address_for, authorize};
pub use errors::DonationError;
pub use accounts::{BaseAccount, DonationData, Record, BASE_ACCOUNT_LEN};
pub use events::{DonationEvent, WithdrawEvent, LedgerEvent};
pub use store::{LedgerStore, StoreModel};
pub use ledger::{Initialize, DoDonation, Withdraw, initialize, do_donation, withdraw};
