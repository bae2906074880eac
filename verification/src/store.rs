//! The explicit persistent store that every operation runs against.
//!
//! The host environment owns three things the state machine needs: storage
//! slots addressed by derived keys, a balance for every address, and an
//! append-only notification log. All three are modelled here as plain data,
//! so the operations and their guarantees are ordinary verified code. The
//! host's value-move and reserve primitives become methods with exact
//! contracts.

use vstd::prelude::*;
use std::collections::HashMap;
use crate::keys::Address;
use crate::accounts::Record;
use crate::events::LedgerEvent;

verus! {

broadcast use vstd::std_specs::hash::group_hash_axioms;

/// Addition that clamps at the largest representable value.
pub open spec fn sat_add64(a: u64, b: u64) -> u64 {
    if a + b > u64::MAX {
        u64::MAX
    } else {
        (a + b) as u64
    }
}

/// Subtraction that clamps at zero.
pub open spec fn sat_sub64(a: u64, b: u64) -> u64 {
    if a < b {
        0
    } else {
        (a - b) as u64
    }
}

/// Multiplication that clamps at the largest representable value.
pub open spec fn sat_mul64(a: u64, b: u64) -> u64 {
    if a * b > u64::MAX {
        u64::MAX
    } else {
        (a * b) as u64
    }
}

/// The mathematical state of the store: which record each occupied slot
/// holds, what every address's balance is (absent means zero), the event
/// log so far, and the host's rent schedule for storage reserves.
#[verifier::ext_equal]
pub ghost struct StoreModel {
    pub records: Map<u64, Record>,
    pub balances: Map<u64, u64>,
    pub events: Seq<LedgerEvent>,
    pub rent_base: u64,
    pub rent_per_byte: u64,
}

impl StoreModel {
    /// The balance held at `account`; an address never endowed holds zero.
    pub open spec fn balance_of(self, account: Address) -> u64 {
        if self.balances.contains_key(account.value) {
            self.balances[account.value]
        } else {
            0
        }
    }

    /// Whether any record occupies the slot at `account`.
    pub open spec fn has_record(self, account: Address) -> bool {
        self.records.contains_key(account.value)
    }

    /// Whether the slot at `account` holds a donation bank.
    pub open spec fn is_bank(self, account: Address) -> bool {
        self.has_record(account) && self.records[account.value] is Base
    }

    /// The identity authorized to withdraw from the bank at `account`.
    pub open spec fn owner_of(self, account: Address) -> crate::keys::Pubkey
        recommends
            self.is_bank(account),
    {
        self.records[account.value]->Base_0.owner
    }

    /// The minimum balance a record of `size` bytes must retain, under the
    /// host's rent schedule; the schedule saturates rather than overflows.
    pub open spec fn reserve_for(self, size: usize) -> u64 {
        sat_add64(self.rent_base, sat_mul64(self.rent_per_byte, size as u64))
    }

    /// Whether the host would accept moving `amount` from `from` to `to`:
    /// the source must hold enough, and the destination must be able to
    /// represent the credit.
    pub open spec fn transfer_allowed(self, from: Address, to: Address, amount: u64) -> bool {
        &&& self.balance_of(from) >= amount
        &&& (from == to || self.balance_of(to) + amount <= u64::MAX)
    }

    /// The store after an accepted move of `amount` from `from` to `to`.
    pub open spec fn transferred(self, from: Address, to: Address, amount: u64) -> StoreModel
        recommends
            self.transfer_allowed(from, to, amount),
    {
        if from == to {
            StoreModel { balances: self.balances.insert(from.value, self.balance_of(from)), ..self }
        } else {
            StoreModel {
                balances: self.balances
                    .insert(from.value, (self.balance_of(from) - amount) as u64)
                    .insert(to.value, (self.balance_of(to) + amount) as u64),
                ..self
            }
        }
    }

    /// What a value move returns: `Ok` exactly when the host accepts it.
    pub open spec fn transfer_result(self, from: Address, to: Address, amount: u64) -> Result<
        (),
        crate::errors::DonationError,
    > {
        if self.transfer_allowed(from, to, amount) {
            Ok(())
        } else {
            Err(crate::errors::DonationError::TransferError)
        }
    }

    /// The store after `account` is endowed with `amount` more value,
    /// clamped at the largest representable balance.
    pub open spec fn credited(self, account: Address, amount: u64) -> StoreModel {
        StoreModel {
            balances: self.balances.insert(
                account.value,
                sat_add64(self.balance_of(account), amount),
            ),
            ..self
        }
    }
}

/// The persistent store: records and balances addressed by derived keys,
/// plus the append-only event log and the host's rent parameters.
pub struct LedgerStore {
    pub slots: HashMap<u64, Record>,
    pub funds: HashMap<u64, u64>,
    pub events: Vec<LedgerEvent>,
    pub rent_base: u64,
    pub rent_per_byte: u64,
}

impl View for LedgerStore {
    type V = StoreModel;

    open spec fn view(&self) -> StoreModel {
        StoreModel {
            records: self.slots@,
            balances: self.funds@,
            events: self.events@,
            rent_base: self.rent_base,
            rent_per_byte: self.rent_per_byte,
        }
    }
}

impl LedgerStore {
    /// An empty store under the given rent schedule: no records, no
    /// balances, no events.
    pub fn new(rent_base: u64, rent_per_byte: u64) -> (r: LedgerStore)
        ensures
            r@.records == Map::<u64, Record>::empty(),
            r@.balances == Map::<u64, u64>::empty(),
            r@.events == Seq::<LedgerEvent>::empty(),
            r@.rent_base == rent_base,
            r@.rent_per_byte == rent_per_byte,
    {
        LedgerStore {
            slots: HashMap::new(),
            funds: HashMap::new(),
            events: Vec::new(),
            rent_base,
            rent_per_byte,
        }
    }

    /// The balance the host reports for `account`.
    pub fn current_balance(&self, account: Address) -> (r: u64)
        ensures
            r == self@.balance_of(account),
    {
        match self.funds.get(&account.value) {
            Some(b) => *b,
            None => 0,
        }
    }

    /// The record occupying the slot at `account`, if any.
    pub fn get_record(&self, account: Address) -> (r: Option<Record>)
        ensures
            match r {
                Some(rec) => self@.has_record(account) && rec == self@.records[account.value],
                None => !self@.has_record(account),
            },
    {
        match self.slots.get(&account.value) {
            Some(rec) => Some(*rec),
            None => None,
        }
    }

    /// The minimum balance a record of `size` bytes must retain, re-derived
    /// from the rent schedule each time it is needed.
    pub fn minimum_reserve(&self, size: usize) -> (r: u64)
        ensures
            r == self@.reserve_for(size),
    {
        let bytes = size as u64;
        let scaled = match self.rent_per_byte.checked_mul(bytes) {
            Some(v) => v,
            None => u64::MAX,
        };
        self.rent_base.saturating_add(scaled)
    }

    /// Endows `account` with `amount` more value, clamping at the largest
    /// representable balance. This stands for value arriving from outside
    /// the ledger (the host's faucet or an external payment).
    pub fn credit(&mut self, account: Address, amount: u64)
        ensures
            final(self)@ == old(self)@.credited(account, amount),
    {
        let held = self.current_balance(account);
        self.funds.insert(account.value, held.saturating_add(amount));
        proof {
            assert(self@ =~= old(self)@.credited(account, amount));
        }
    }

    /// The host's atomic value move: debits `from` and credits `to`, or
    /// refuses and changes nothing. It refuses exactly when `from` holds
    /// less than `amount`, or when the credit would not fit in `to`.
    pub fn transfer(&mut self, from: Address, to: Address, amount: u64) -> (r: Result<
        (),
        crate::errors::DonationError,
    >)
        ensures
            r == old(self)@.transfer_result(from, to, amount),
            old(self)@.transfer_allowed(from, to, amount) ==> final(self)@ == old(
                self,
            )@.transferred(from, to, amount),
            !old(self)@.transfer_allowed(from, to, amount) ==> final(self)@ == old(self)@,
    {
        let held = self.current_balance(from);
        if held < amount {
            return Err(crate::errors::DonationError::TransferError);
        }
        if from == to {
            self.funds.insert(from.value, held);
            proof {
                assert(self@ =~= old(self)@.transferred(from, to, amount));
            }
            Ok(())
        } else {
            let to_held = self.current_balance(to);
            if to_held > u64::MAX - amount {
                return Err(crate::errors::DonationError::TransferError);
            }
            self.funds.insert(from.value, held - amount);
            self.funds.insert(to.value, to_held + amount);
            proof {
                assert(self@ =~= old(self)@.transferred(from, to, amount));
            }
            Ok(())
        }
    }
}

} // verus!
