//! Laws relating several operations, proved over the transition specs that
//! the operations' own contracts are stated in.

use vstd::prelude::*;
use crate::keys::{Pubkey, Address, address_for};
use crate::accounts::{DonationData, Record, BASE_ACCOUNT_LEN};
use crate::errors::DonationError;
use crate::events::DonationEvent;
use crate::store::{StoreModel, sat_add64};
use crate::ledger::{
    Initialize,
    DoDonation,
    Withdraw,
    initialize_result,
    initialize_post,
    donation_result,
    donation_post,
    withdraw_result,
    withdraw_post,
};

verus! {

/// Every accepted donation moves exactly its amount: the bank's balance
/// grows by `amount` as the host observes it, and the donor's cumulative
/// total grows by `amount` too, clamping at the largest representable
/// value instead of wrapping — so the total never decreases.
pub proof fn lemma_donation_grows_bank_and_total(m: StoreModel, ctx: DoDonation, amount: u64)
    requires
        m.is_bank(ctx.donation_bank),
        donation_result(m, ctx, amount) is Ok,
    ensures
        ({
            let post = donation_post(m, ctx, amount);
            let slot = address_for(ctx.donator);
            let prior = if m.has_record(slot) {
                m.records[slot.value]->Donation_0.amount
            } else {
                0
            };
            &&& post.balance_of(ctx.donation_bank) == m.balance_of(ctx.donation_bank) + amount
            &&& post.records[slot.value] is Donation
            &&& post.records[slot.value]->Donation_0.amount == sat_add64(prior, amount)
            &&& post.records[slot.value]->Donation_0.amount >= prior
        }),
{
    let slot = address_for(ctx.donator);
    assert(slot.value != ctx.donation_bank.value);
}

/// A donation of zero always fails with `InvalidAmount` and changes
/// neither a balance nor the ledger.
pub proof fn lemma_zero_donation_rejected(m: StoreModel, ctx: DoDonation)
    ensures
        donation_result(m, ctx, 0) == Err::<DonationEvent, DonationError>(
            DonationError::InvalidAmount,
        ),
        donation_post(m, ctx, 0) == m,
{
}

/// A withdrawal finding nothing above the reserve floor — the balance at
/// or below it — fails with `NoFundsForWithdrawal` and leaves every
/// balance as it was.
pub proof fn lemma_withdraw_without_surplus_fails(m: StoreModel, ctx: Withdraw)
    requires
        m.is_bank(ctx.donation_bank),
        ctx.owner == m.owner_of(ctx.donation_bank),
        m.balance_of(ctx.donation_bank) <= m.reserve_for(BASE_ACCOUNT_LEN),
    ensures
        withdraw_result(m, ctx) == Err::<crate::events::WithdrawEvent, DonationError>(
            DonationError::NoFundsForWithdrawal,
        ),
        withdraw_post(m, ctx) == m,
{
}

/// A donor's first successful donation binds its ledger entry for good:
/// later donations grow the total but never change which bank or which
/// donor the entry names, whatever bank the later call passes.
pub proof fn lemma_first_binding_permanent(m: StoreModel, ctx: DoDonation, amount: u64)
    requires
        m.has_record(address_for(ctx.donator)),
        m.records[address_for(ctx.donator).value] is Donation,
        m.records[address_for(ctx.donator).value]->Donation_0.amount > 0,
        donation_result(m, ctx, amount) is Ok,
    ensures
        ({
            let slot = address_for(ctx.donator);
            let prior = m.records[slot.value]->Donation_0;
            let post = donation_post(m, ctx, amount);
            &&& post.records[slot.value] is Donation
            &&& post.records[slot.value]->Donation_0.donation_bank == prior.donation_bank
            &&& post.records[slot.value]->Donation_0.donator == prior.donator
        }),
{
}

/// Withdrawals never touch donor ledger entries: the per-donor totals are
/// a lifetime-contribution record, independent of the bank being drained.
pub proof fn lemma_withdraw_preserves_ledger(m: StoreModel, ctx: Withdraw)
    ensures
        withdraw_post(m, ctx).records == m.records,
{
}

/// Establishing a bank is not idempotent: once a first call for `owner`
/// has succeeded, any second call for the same owner — whoever pays —
/// fails with `AccountAlreadyExists` and changes nothing, so no duplicate
/// bank is ever created.
pub proof fn lemma_initialize_twice_second_fails(
    m: StoreModel,
    first: Initialize,
    second: Initialize,
    owner: Pubkey,
)
    requires
        initialize_result(m, first, owner) is Ok,
    ensures
        ({
            let after = initialize_post(m, first, owner);
            &&& initialize_result(after, second, owner) == Err::<(), DonationError>(
                DonationError::AccountAlreadyExists,
            )
            &&& initialize_post(after, second, owner) == after
        }),
{
}

/// Donations from two distinct donors to the same bank compose: each
/// succeeds whichever runs first, and the bank's final balance is its
/// initial balance plus both amounts, in either order. The serialized
/// interleaving the host provides is therefore order-indifferent.
pub proof fn lemma_distinct_donors_accumulate(
    m: StoreModel,
    bank: Address,
    first_donor: Pubkey,
    first_amount: u64,
    second_donor: Pubkey,
    second_amount: u64,
)
    requires
        first_donor != second_donor,
        address_for(first_donor) != bank,
        address_for(second_donor) != bank,
        first_amount > 0,
        second_amount > 0,
        m.balance_of(address_for(first_donor)) >= first_amount,
        m.balance_of(address_for(second_donor)) >= second_amount,
        m.balance_of(bank) + first_amount + second_amount <= u64::MAX,
        m.has_record(address_for(first_donor)) ==> m.records[address_for(first_donor).value]
            is Donation,
        m.has_record(address_for(second_donor)) ==> m.records[address_for(second_donor).value]
            is Donation,
    ensures
        ({
            let c1 = DoDonation { donation_bank: bank, donator: first_donor };
            let c2 = DoDonation { donation_bank: bank, donator: second_donor };
            &&& donation_result(m, c1, first_amount) is Ok
            &&& donation_result(donation_post(m, c1, first_amount), c2, second_amount) is Ok
            &&& donation_post(donation_post(m, c1, first_amount), c2, second_amount).balance_of(
                bank,
            ) == m.balance_of(bank) + first_amount + second_amount
            &&& donation_result(m, c2, second_amount) is Ok
            &&& donation_result(donation_post(m, c2, second_amount), c1, first_amount) is Ok
            &&& donation_post(donation_post(m, c2, second_amount), c1, first_amount).balance_of(
                bank,
            ) == m.balance_of(bank) + first_amount + second_amount
        }),
{
    assert(address_for(first_donor).value != address_for(second_donor).value);
}

/// Sequential donations from one donor to one bank pile onto a single
/// ledger entry: starting from a donor with no entry, two donations
/// succeed, create exactly one record — at the donor's derived slot — and
/// leave its total at the sum of the two amounts, still bound to the bank
/// the first donation named.
pub proof fn lemma_repeat_donation_accumulates(
    m: StoreModel,
    bank: Address,
    donor: Pubkey,
    first_amount: u64,
    second_amount: u64,
)
    requires
        first_amount > 0,
        second_amount > 0,
        address_for(donor) != bank,
        !m.has_record(address_for(donor)),
        m.balance_of(address_for(donor)) >= first_amount + second_amount,
        m.balance_of(bank) + first_amount + second_amount <= u64::MAX,
    ensures
        ({
            let c = DoDonation { donation_bank: bank, donator: donor };
            let once = donation_post(m, c, first_amount);
            let twice = donation_post(once, c, second_amount);
            &&& donation_result(m, c, first_amount) is Ok
            &&& donation_result(once, c, second_amount) is Ok
            &&& twice.records.dom() == m.records.dom().insert(address_for(donor).value)
            &&& twice.records[address_for(donor).value] == Record::Donation(
                DonationData {
                    donation_bank: bank,
                    donator: donor,
                    amount: (first_amount + second_amount) as u64,
                },
            )
        }),
{
    let c = DoDonation { donation_bank: bank, donator: donor };
    let once = donation_post(m, c, first_amount);
    let twice = donation_post(once, c, second_amount);
    assert(twice.records.dom() =~= m.records.dom().insert(address_for(donor).value));
}

} // verus!
