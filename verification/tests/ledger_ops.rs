use donation_ledger::{
    Pubkey, Address, derive_address, DonationError, LedgerStore, Initialize, DoDonation, Withdraw,
    initialize, do_donation, withdraw, Record, DonationData, DonationEvent, WithdrawEvent,
    LedgerEvent, BASE_ACCOUNT_LEN,
};

fn key(id: u64) -> Pubkey {
    Pubkey { id }
}

/// A store whose reserve floor is a flat `rent_base`, with a funded payer
/// and one bank established for `owner`.
fn store_with_bank(rent_base: u64, owner: Pubkey) -> (LedgerStore, Address) {
    let mut store = LedgerStore::new(rent_base, 0);
    let payer = key(1_000_000);
    store.credit(derive_address(&payer), u64::MAX);
    initialize(&mut store, Initialize { payer }, owner).unwrap();
    (store, derive_address(&owner))
}

#[test]
fn donation_moves_value_and_grows_total() {
    let owner = key(1);
    let (mut store, bank) = store_with_bank(50, owner);
    let donor = key(3);
    let donor_slot = derive_address(&donor);
    store.credit(donor_slot, 500);
    let bank_before = store.current_balance(bank);

    let event = do_donation(&mut store, DoDonation { donation_bank: bank, donator: donor }, 300)
        .unwrap();

    assert_eq!(event, DonationEvent { donation_bank: bank, donator: donor, amount: 300 });
    assert_eq!(store.current_balance(bank), bank_before + 300);
    assert_eq!(store.current_balance(donor_slot), 200);
    assert_eq!(
        store.get_record(donor_slot),
        Some(Record::Donation(DonationData { donation_bank: bank, donator: donor, amount: 300 }))
    );
}

#[test]
fn zero_donation_fails_and_changes_nothing() {
    let owner = key(1);
    let (mut store, bank) = store_with_bank(50, owner);
    let donor = key(3);
    let donor_slot = derive_address(&donor);
    store.credit(donor_slot, 500);
    let bank_before = store.current_balance(bank);
    let events_before = store.events.len();

    let r = do_donation(&mut store, DoDonation { donation_bank: bank, donator: donor }, 0);

    assert_eq!(r, Err(DonationError::InvalidAmount));
    assert_eq!(store.current_balance(bank), bank_before);
    assert_eq!(store.current_balance(donor_slot), 500);
    assert_eq!(store.get_record(donor_slot), None);
    assert_eq!(store.events.len(), events_before);
}

#[test]
fn underfunded_donation_fails_and_changes_nothing() {
    let owner = key(1);
    let (mut store, bank) = store_with_bank(50, owner);
    let donor = key(3);
    let donor_slot = derive_address(&donor);
    store.credit(donor_slot, 100);

    let r = do_donation(&mut store, DoDonation { donation_bank: bank, donator: donor }, 101);

    assert_eq!(r, Err(DonationError::TransferError));
    assert_eq!(store.current_balance(donor_slot), 100);
    assert_eq!(store.get_record(donor_slot), None);
}

#[test]
fn initialize_twice_fails_with_account_already_exists() {
    let owner = key(1);
    let payer = key(2);
    let mut store = LedgerStore::new(50, 0);
    store.credit(derive_address(&payer), 1_000);

    let first = initialize(&mut store, Initialize { payer }, owner);
    assert_eq!(first, Ok(()));

    let records_before = store.slots.len();
    let payer_before = store.current_balance(derive_address(&payer));
    let second = initialize(&mut store, Initialize { payer }, owner);

    assert_eq!(second, Err(DonationError::AccountAlreadyExists));
    assert_eq!(store.slots.len(), records_before);
    assert_eq!(store.current_balance(derive_address(&payer)), payer_before);
    assert_eq!(
        store.get_record(derive_address(&owner)),
        Some(Record::Base(donation_ledger::BaseAccount { owner }))
    );
}

#[test]
fn initialize_with_poor_payer_fails() {
    let owner = key(1);
    let payer = key(2);
    let mut store = LedgerStore::new(50, 0);
    store.credit(derive_address(&payer), 49);

    let r = initialize(&mut store, Initialize { payer }, owner);

    assert_eq!(r, Err(DonationError::TransferError));
    assert_eq!(store.get_record(derive_address(&owner)), None);
    assert_eq!(store.current_balance(derive_address(&payer)), 49);
}

#[test]
fn withdraw_at_reserve_fails_and_changes_nothing() {
    let owner = key(1);
    let (mut store, bank) = store_with_bank(100, owner);
    let donor = key(3);
    store.credit(derive_address(&donor), 100);
    do_donation(&mut store, DoDonation { donation_bank: bank, donator: donor }, 100).unwrap();
    let dest_owner = key(4);
    let dest = establish_destination(&mut store, dest_owner);
    let dest_before = store.current_balance(dest);

    let r = withdraw(
        &mut store,
        Withdraw { donation_bank: bank, owner, destination: dest },
    );

    assert_eq!(r, Err(DonationError::NoFundsForWithdrawal));
    assert_eq!(store.current_balance(bank), 100);
    assert_eq!(store.current_balance(dest), dest_before);
}

#[test]
fn withdraw_below_reserve_fails() {
    let owner = key(1);
    let (mut store, bank) = store_with_bank(100, owner);
    let donor = key(3);
    store.credit(derive_address(&donor), 40);
    do_donation(&mut store, DoDonation { donation_bank: bank, donator: donor }, 40).unwrap();
    let dest = establish_destination(&mut store, key(4));

    let r = withdraw(
        &mut store,
        Withdraw { donation_bank: bank, owner, destination: dest },
    );

    assert_eq!(r, Err(DonationError::NoFundsForWithdrawal));
    assert_eq!(store.current_balance(bank), 40);
}

fn establish_destination(store: &mut LedgerStore, owner: Pubkey) -> Address {
    let payer = key(999_999);
    store.credit(derive_address(&payer), u64::MAX);
    initialize(store, Initialize { payer }, owner).unwrap();
    derive_address(&owner)
}

#[test]
fn withdraw_reserve_plus_500_moves_500_and_leaves_500() {
    let owner = key(1);
    let (mut store, bank) = store_with_bank(50, owner);
    let donor = key(3);
    store.credit(derive_address(&donor), 550);
    do_donation(&mut store, DoDonation { donation_bank: bank, donator: donor }, 550).unwrap();
    assert_eq!(store.current_balance(bank), 550);
    let dest = establish_destination(&mut store, key(4));
    let dest_before = store.current_balance(dest);

    let event = withdraw(
        &mut store,
        Withdraw { donation_bank: bank, owner, destination: dest },
    )
    .unwrap();

    assert_eq!(event, WithdrawEvent { donation_bank: bank, destination: dest, amount: 500 });
    assert_eq!(store.current_balance(dest), dest_before + 500);
    // the literal contract: the bank is left holding the withdrawn amount,
    // not the reserve floor
    assert_eq!(store.current_balance(bank), 500);
}

#[test]
fn withdraw_with_wrong_signer_fails() {
    let owner = key(1);
    let (mut store, bank) = store_with_bank(50, owner);
    let donor = key(3);
    store.credit(derive_address(&donor), 600);
    do_donation(&mut store, DoDonation { donation_bank: bank, donator: donor }, 600).unwrap();
    let dest = establish_destination(&mut store, key(4));
    let impostor = key(5);

    let r = withdraw(
        &mut store,
        Withdraw { donation_bank: bank, owner: impostor, destination: dest },
    );

    assert_eq!(r, Err(DonationError::AuthorizationFailure));
    assert_eq!(store.current_balance(bank), 600);
}

#[test]
fn two_donors_both_reflected_in_either_order() {
    let owner = key(1);
    let first_donor = key(3);
    let second_donor = key(4);

    let mut totals = Vec::new();
    for order in [[first_donor, second_donor], [second_donor, first_donor]] {
        let (mut store, bank) = store_with_bank(50, owner);
        let amounts = if order[0] == first_donor { [700, 300] } else { [300, 700] };
        for (donor, amount) in order.iter().zip(amounts) {
            store.credit(derive_address(donor), amount);
            do_donation(&mut store, DoDonation { donation_bank: bank, donator: *donor }, amount)
                .unwrap();
        }
        totals.push(store.current_balance(bank));
    }

    assert_eq!(totals, vec![1_000, 1_000]);
}

#[test]
fn repeat_donation_keeps_single_record_with_sum() {
    let owner = key(1);
    let (mut store, bank) = store_with_bank(50, owner);
    let donor = key(3);
    let donor_slot = derive_address(&donor);
    store.credit(donor_slot, 350);
    let records_before = store.slots.len();

    do_donation(&mut store, DoDonation { donation_bank: bank, donator: donor }, 100).unwrap();
    do_donation(&mut store, DoDonation { donation_bank: bank, donator: donor }, 250).unwrap();

    assert_eq!(store.slots.len(), records_before + 1);
    assert_eq!(
        store.get_record(donor_slot),
        Some(Record::Donation(DonationData { donation_bank: bank, donator: donor, amount: 350 }))
    );
}

#[test]
fn full_scenario_initialize_donate_withdraw() {
    let owner = key(1);
    let payer = key(2);
    let donor = key(3);
    let mut store = LedgerStore::new(50, 0);
    store.credit(derive_address(&payer), 10_000);

    initialize(&mut store, Initialize { payer }, owner).unwrap();
    let bank = derive_address(&owner);

    store.credit(derive_address(&donor), 1_000);
    do_donation(&mut store, DoDonation { donation_bank: bank, donator: donor }, 1_000).unwrap();

    let dest = establish_destination(&mut store, key(7));
    let dest_before = store.current_balance(dest);
    withdraw(&mut store, Withdraw { donation_bank: bank, owner, destination: dest }).unwrap();

    assert_eq!(store.current_balance(bank), 950);
    assert_eq!(store.current_balance(dest), dest_before + 950);
    assert_eq!(
        store.get_record(derive_address(&donor)),
        Some(Record::Donation(DonationData { donation_bank: bank, donator: donor, amount: 1_000 }))
    );
}

#[test]
fn event_log_records_each_successful_operation() {
    let owner = key(1);
    let (mut store, bank) = store_with_bank(50, owner);
    let donor = key(3);
    store.credit(derive_address(&donor), 550);
    let events_before = store.events.len();
    assert_eq!(events_before, 0);

    do_donation(&mut store, DoDonation { donation_bank: bank, donator: donor }, 550).unwrap();
    let dest = establish_destination(&mut store, key(4));
    withdraw(&mut store, Withdraw { donation_bank: bank, owner, destination: dest }).unwrap();

    assert_eq!(
        store.events,
        vec![
            LedgerEvent::Donation(DonationEvent { donation_bank: bank, donator: donor, amount: 550 }),
            LedgerEvent::Withdraw(WithdrawEvent { donation_bank: bank, destination: dest, amount: 500 }),
        ]
    );
}

#[test]
fn donor_total_saturates_and_keeps_first_binding() {
    let owner = key(1);
    let (mut store, bank) = store_with_bank(50, owner);
    let donor = key(3);
    let donor_slot = derive_address(&donor);
    store.credit(donor_slot, u64::MAX);
    do_donation(&mut store, DoDonation { donation_bank: bank, donator: donor }, u64::MAX).unwrap();

    // a second bank: the ledger entry stays bound to the first bank even
    // though this donation names another, while the value moves to the
    // bank named in this call
    let other_owner = key(4);
    let other_bank = establish_destination(&mut store, other_owner);
    store.credit(donor_slot, 100);
    do_donation(&mut store, DoDonation { donation_bank: other_bank, donator: donor }, 100).unwrap();

    assert_eq!(
        store.get_record(donor_slot),
        Some(Record::Donation(DonationData {
            donation_bank: bank,
            donator: donor,
            amount: u64::MAX,
        }))
    );
    assert_eq!(store.current_balance(other_bank), 100);
}

#[test]
fn donation_to_slot_occupied_by_bank_fails() {
    // the owner's own identity derives to the bank's slot, so the owner
    // cannot hold a donor ledger entry
    let owner = key(1);
    let (mut store, bank) = store_with_bank(50, owner);
    store.credit(derive_address(&owner), 500);

    let r = do_donation(&mut store, DoDonation { donation_bank: bank, donator: owner }, 100);

    assert_eq!(r, Err(DonationError::AccountAlreadyExists));
    assert_eq!(store.current_balance(derive_address(&owner)), 500);
}

#[test]
fn withdraw_to_self_leaves_withdrawable() {
    let owner = key(1);
    let (mut store, bank) = store_with_bank(50, owner);
    let donor = key(3);
    store.credit(derive_address(&donor), 550);
    do_donation(&mut store, DoDonation { donation_bank: bank, donator: donor }, 550).unwrap();

    let event = withdraw(
        &mut store,
        Withdraw { donation_bank: bank, owner, destination: bank },
    )
    .unwrap();

    assert_eq!(event.amount, 500);
    assert_eq!(store.current_balance(bank), 500);
}

#[test]
fn reserve_uses_base_account_footprint() {
    // rent_base 7, rent_per_byte 3, footprint 40 bytes
    let mut store = LedgerStore::new(7, 3);
    assert_eq!(store.minimum_reserve(BASE_ACCOUNT_LEN), 7 + 3 * 40);

    let owner = key(1);
    let payer = key(2);
    store.credit(derive_address(&payer), 1_000);
    initialize(&mut store, Initialize { payer }, owner).unwrap();
    // the payer paid exactly the reserve for one bank record
    assert_eq!(store.current_balance(derive_address(&payer)), 1_000 - 127);
}
