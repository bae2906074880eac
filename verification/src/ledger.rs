//! The ledger state machine: Initialize, Donate, Withdraw.
//!
//! Each operation is a guarded transition over the persistent store. The
//! transition each one performs is written down first as a spec function
//! over the store's model, and the executable operation is proved to
//! return exactly that result and to leave exactly that store behind.

use vstd::prelude::*;
use crate::keys::{Pubkey, Address, address_for, derive_address, authorize};
use crate::accounts::{BaseAccount, DonationData, Record, BASE_ACCOUNT_LEN};
use crate::events::{DonationEvent, WithdrawEvent, LedgerEvent};
use crate::errors::DonationError;
use crate::store::{StoreModel, LedgerStore, sat_add64, sat_sub64};

verus! {

/// The accounts involved in establishing a donation bank: the payer that
/// supplies the storage reservation cost. The bank's own slot is derived
/// from the owner identity passed to [`initialize`].
#[derive(Clone, Copy, Debug, PartialEq, Eq, Structural)]
pub struct Initialize {
    pub payer: Pubkey,
}

/// The accounts involved in a donation: the bank being donated to and the
/// donor whose value moves.
#[derive(Clone, Copy, Debug, PartialEq, Eq, Structural)]
pub struct DoDonation {
    pub donation_bank: Address,
    pub donator: Pubkey,
}

/// The accounts involved in a withdrawal: the bank drained, the signer
/// claiming to be its owner, and the bank account receiving the value.
#[derive(Clone, Copy, Debug, PartialEq, Eq, Structural)]
pub struct Withdraw {
    pub donation_bank: Address,
    pub owner: Pubkey,
    pub destination: Address,
}

/// What establishing a bank for `owner` returns on the store `m`: the
/// slot derived from `owner` must be empty, and the payer must hold the
/// storage reservation cost.
pub open spec fn initialize_result(m: StoreModel, ctx: Initialize, owner: Pubkey) -> Result<
    (),
    DonationError,
> {
    if m.has_record(address_for(owner)) {
        Err(DonationError::AccountAlreadyExists)
    } else if m.balance_of(address_for(ctx.payer)) < m.reserve_for(BASE_ACCOUNT_LEN) {
        Err(DonationError::TransferError)
    } else {
        Ok(())
    }
}

/// The store after establishing a bank for `owner`: the derived slot holds
/// a fresh bank record, and the payer has paid the reservation cost to the
/// host. On any failure the store is unchanged.
pub open spec fn initialize_post(m: StoreModel, ctx: Initialize, owner: Pubkey) -> StoreModel {
    if initialize_result(m, ctx, owner) is Ok {
        let slot = address_for(owner);
        let payer_slot = address_for(ctx.payer);
        let cost = m.reserve_for(BASE_ACCOUNT_LEN);
        StoreModel {
            records: m.records.insert(slot.value, Record::Base(BaseAccount { owner })),
            balances: m.balances.insert(
                payer_slot.value,
                (m.balance_of(payer_slot) - cost) as u64,
            ),
            ..m
        }
    } else {
        m
    }
}

/// The donor's ledger entry after a successful donation: created with this
/// donation's value if the slot was empty, otherwise the running total
/// grows by `amount`, saturating. A reused entry keeps the bank it was
/// bound to by its first donation, whatever bank this call names.
pub open spec fn donated_record(m: StoreModel, ctx: DoDonation, amount: u64) -> DonationData {
    let slot = address_for(ctx.donator);
    if m.has_record(slot) && m.records[slot.value] is Donation {
        let prior = m.records[slot.value]->Donation_0;
        let bound = if prior.amount == 0 {
            DonationData {
                donation_bank: ctx.donation_bank,
                donator: ctx.donator,
                amount: prior.amount,
            }
        } else {
            prior
        };
        DonationData { amount: sat_add64(bound.amount, amount), ..bound }
    } else {
        DonationData { donation_bank: ctx.donation_bank, donator: ctx.donator, amount }
    }
}

/// What a donation returns on the store `m`: the amount must be positive,
/// the donor's derived slot must not be occupied by a bank record, and the
/// host must accept moving `amount` from the donor to the bank.
pub open spec fn donation_result(m: StoreModel, ctx: DoDonation, amount: u64) -> Result<
    DonationEvent,
    DonationError,
> {
    let slot = address_for(ctx.donator);
    if amount == 0 {
        Err(DonationError::InvalidAmount)
    } else if m.has_record(slot) && m.records[slot.value] is Base {
        Err(DonationError::AccountAlreadyExists)
    } else if !m.transfer_allowed(slot, ctx.donation_bank, amount) {
        Err(DonationError::TransferError)
    } else {
        Ok(DonationEvent { donation_bank: ctx.donation_bank, donator: ctx.donator, amount })
    }
}

/// The store after a donation: the value has moved from the donor to the
/// bank named this call, the donor's ledger entry holds the grown total,
/// and a donation event is appended. On any failure the store is
/// unchanged: the move and the bookkeeping commit together or not at all.
pub open spec fn donation_post(m: StoreModel, ctx: DoDonation, amount: u64) -> StoreModel {
    if donation_result(m, ctx, amount) is Ok {
        let slot = address_for(ctx.donator);
        let moved = m.transferred(slot, ctx.donation_bank, amount);
        StoreModel {
            records: moved.records.insert(
                slot.value,
                Record::Donation(donated_record(m, ctx, amount)),
            ),
            events: moved.events.push(
                LedgerEvent::Donation(
                    DonationEvent {
                        donation_bank: ctx.donation_bank,
                        donator: ctx.donator,
                        amount,
                    },
                ),
            ),
            ..moved
        }
    } else {
        m
    }
}

/// What the bank at `bank` holds above its reserve floor, clamped at zero.
pub open spec fn withdrawable_of(m: StoreModel, bank: Address) -> u64 {
    sat_sub64(m.balance_of(bank), m.reserve_for(BASE_ACCOUNT_LEN))
}

/// What a withdrawal returns on the store `m`: the signer must be the
/// bank's owner, and the bank must hold value above its reserve floor.
pub open spec fn withdraw_result(m: StoreModel, ctx: Withdraw) -> Result<
    WithdrawEvent,
    DonationError,
>
    recommends
        m.is_bank(ctx.donation_bank),
{
    if ctx.owner != m.owner_of(ctx.donation_bank) {
        Err(DonationError::AuthorizationFailure)
    } else if withdrawable_of(m, ctx.donation_bank) == 0 {
        Err(DonationError::NoFundsForWithdrawal)
    } else {
        Ok(
            WithdrawEvent {
                donation_bank: ctx.donation_bank,
                destination: ctx.destination,
                amount: withdrawable_of(m, ctx.donation_bank),
            },
        )
    }
}

/// Whether the destination can represent its credit: always true when the
/// bank pays itself, else the credited balance must fit.
pub open spec fn withdraw_fits(m: StoreModel, ctx: Withdraw) -> bool {
    ||| ctx.destination == ctx.donation_bank
    ||| m.balance_of(ctx.destination) + withdrawable_of(m, ctx.donation_bank) <= u64::MAX
}

/// The store after a withdrawal: the destination is credited with the
/// withdrawable amount and the bank's balance is set to that same amount
/// — the literal contract of the operation; the reserve floor is not what
/// remains behind. A withdraw event is appended; no ledger entry changes.
pub open spec fn withdraw_post(m: StoreModel, ctx: Withdraw) -> StoreModel
    recommends
        m.is_bank(ctx.donation_bank),
        withdraw_fits(m, ctx),
{
    if withdraw_result(m, ctx) is Ok {
        let w = withdrawable_of(m, ctx.donation_bank);
        let dest_credit: u64 = if ctx.destination == ctx.donation_bank {
            w
        } else {
            (m.balance_of(ctx.destination) + w) as u64
        };
        StoreModel {
            balances: m.balances.insert(ctx.destination.value, dest_credit).insert(
                ctx.donation_bank.value,
                w,
            ),
            events: m.events.push(
                LedgerEvent::Withdraw(
                    WithdrawEvent {
                        donation_bank: ctx.donation_bank,
                        destination: ctx.destination,
                        amount: w,
                    },
                ),
            ),
            ..m
        }
    } else {
        m
    }
}

/// Establishes a donation bank owned by `owner` at the slot derived from
/// `owner`'s identity, with `ctx.payer` paying the host's storage
/// reservation cost. Fails with `AccountAlreadyExists` if the slot is
/// occupied — a second call with the same owner can never create a
/// duplicate — and with `TransferError` if the payer cannot pay. No event
/// is emitted.
pub fn initialize(store: &mut LedgerStore, ctx: Initialize, owner: Pubkey) -> (r: Result<
    (),
    DonationError,
>)
    ensures
        r == initialize_result(old(store)@, ctx, owner),
        final(store)@ == initialize_post(old(store)@, ctx, owner),
{
    let slot = derive_address(&owner);
    if store.get_record(slot).is_some() {
        return Err(DonationError::AccountAlreadyExists);
    }
    let payer_slot = derive_address(&ctx.payer);
    let cost = store.minimum_reserve(BASE_ACCOUNT_LEN);
    let held = store.current_balance(payer_slot);
    if held < cost {
        return Err(DonationError::TransferError);
    }
    store.funds.insert(payer_slot.value, held - cost);
    store.slots.insert(slot.value, Record::Base(BaseAccount { owner }));
    proof {
        assert(store@ =~= initialize_post(old(store)@, ctx, owner));
    }
    Ok(())
}

/// Donates `amount` from `ctx.donator` to the bank at `ctx.donation_bank`:
/// moves the value through the host's atomic transfer, then grows the
/// donor's cumulative ledger entry (creating and binding it on the first
/// donation), and appends a donation event carrying this donation's
/// amount. Fails with `InvalidAmount` when `amount` is zero, with
/// `AccountAlreadyExists` when the donor's derived slot is occupied by a
/// bank record, and with `TransferError` when the host refuses the move;
/// every failure leaves the store untouched.
pub fn do_donation(store: &mut LedgerStore, ctx: DoDonation, amount: u64) -> (r: Result<
    DonationEvent,
    DonationError,
>)
    requires
        old(store)@.is_bank(ctx.donation_bank),
    ensures
        r == donation_result(old(store)@, ctx, amount),
        final(store)@ == donation_post(old(store)@, ctx, amount),
{
    if amount == 0 {
        return Err(DonationError::InvalidAmount);
    }
    let slot = derive_address(&ctx.donator);
    let existing = store.get_record(slot);
    match existing {
        Some(Record::Base(_)) => {
            return Err(DonationError::AccountAlreadyExists);
        },
        _ => {},
    }
    match store.transfer(slot, ctx.donation_bank, amount) {
        Ok(_) => {},
        Err(e) => {
            return Err(e);
        },
    }
    let entry = match existing {
        Some(Record::Donation(prior)) => {
            let bound = if prior.amount == 0 {
                DonationData {
                    donation_bank: ctx.donation_bank,
                    donator: ctx.donator,
                    amount: prior.amount,
                }
            } else {
                prior
            };
            DonationData {
                donation_bank: bound.donation_bank,
                donator: bound.donator,
                amount: bound.amount.saturating_add(amount),
            }
        },
        _ => DonationData { donation_bank: ctx.donation_bank, donator: ctx.donator, amount },
    };
    store.slots.insert(slot.value, Record::Donation(entry));
    let event = DonationEvent { donation_bank: ctx.donation_bank, donator: ctx.donator, amount };
    store.events.push(LedgerEvent::Donation(event));
    proof {
        assert(store@ =~= donation_post(old(store)@, ctx, amount));
    }
    Ok(event)
}

/// Withdraws everything above the reserve floor from the bank at
/// `ctx.donation_bank` into `ctx.destination`, after checking that
/// `ctx.owner` is the bank's owner. The destination gains the withdrawable
/// amount and the bank's balance is set to that same amount — the
/// operation's literal contract. Fails with `AuthorizationFailure` on a
/// signer mismatch and with `NoFundsForWithdrawal` when nothing stands
/// above the reserve; failures leave the store untouched. Donor ledger
/// entries are never touched: they record lifetime contributions.
pub fn withdraw(store: &mut LedgerStore, ctx: Withdraw) -> (r: Result<
    WithdrawEvent,
    DonationError,
>)
    requires
        old(store)@.is_bank(ctx.donation_bank),
        old(store)@.is_bank(ctx.destination),
        withdraw_fits(old(store)@, ctx),
    ensures
        r == withdraw_result(old(store)@, ctx),
        final(store)@ == withdraw_post(old(store)@, ctx),
{
    let acct = match store.get_record(ctx.donation_bank) {
        Some(Record::Base(a)) => a,
        _ => {
            proof {
                assert(false);
            }
            vstd::pervasive::unreached()
        },
    };
    if !authorize(&ctx.owner, &acct.owner) {
        return Err(DonationError::AuthorizationFailure);
    }
    let reserve = store.minimum_reserve(BASE_ACCOUNT_LEN);
    let held = store.current_balance(ctx.donation_bank);
    let amount = held.saturating_sub(reserve);
    if amount == 0 {
        return Err(DonationError::NoFundsForWithdrawal);
    }
    let dest_held = store.current_balance(ctx.destination);
    let dest_credit = if ctx.destination == ctx.donation_bank {
        amount
    } else {
        dest_held + amount
    };
    store.funds.insert(ctx.destination.value, dest_credit);
    store.funds.insert(ctx.donation_bank.value, amount);
    let event = WithdrawEvent {
        donation_bank: ctx.donation_bank,
        destination: ctx.destination,
        amount,
    };
    store.events.push(LedgerEvent::Withdraw(event));
    proof {
        assert(store@ =~= withdraw_post(old(store)@, ctx));
    }
    Ok(event)
}

} // verus!
