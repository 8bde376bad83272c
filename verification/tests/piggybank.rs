use ccdpiggybank::Address;
use ccdpiggybank::AccountAddress;
use ccdpiggybank::Amount;
use ccdpiggybank::ContractAddress;
use ccdpiggybank::PiggyBank;
use ccdpiggybank::PiggyBankState;
use ccdpiggybank::SmashError;
use ccdpiggybank::TransferRequest;

/// A test account.
fn alice() -> AccountAddress {
    AccountAddress([0u8; 32])
}

/// Another test account.
fn james() -> AccountAddress {
    AccountAddress([1u8; 32])
}

fn setup_bank() -> PiggyBank {
    PiggyBank::init(alice())
}

#[test]
fn test_init() {
    let bank = setup_bank();

    assert_eq!(
        bank.view().0,
        Amount::zero(),
        "Piggy bank is not initialized with balance of zero"
    );
    assert_eq!(bank.view().1, PiggyBankState::Intact);
}

#[test]
fn test_insert_intact() {
    let mut bank = setup_bank();
    let insert_amount = Amount::from_ccd(10);

    let update = bank.insert(insert_amount);

    assert!(update.is_ok(), "Inserting into intact piggy bank failed");
    assert_eq!(
        bank.view().0,
        insert_amount,
        "Piggy bank balance does not match amount inserted"
    );
}

#[test]
fn test_smash_intact() {
    let mut bank = setup_bank();

    bank.smash(&Address::Account(alice()), true)
        .expect("Owner is allowed to smash intact piggy bank");

    let (balance, state) = bank.view();
    assert_eq!(state, PiggyBankState::Smashed, "Piggy bank is not smashed");
    assert_eq!(
        balance,
        Amount::zero(),
        "Piggy bank has non-zero balance after being smashed"
    );
    assert_eq!(
        bank.transfers,
        vec![TransferRequest { to: alice(), amount: Amount::zero() }],
        "The piggy bank made incorrect transfers when smashed"
    );
}

#[test]
fn test_insert_smashed_rejected() {
    let mut bank = setup_bank();
    bank.insert(Amount::from_ccd(10)).expect("deposit into intact bank");
    bank.smash(&Address::Account(alice()), true).expect("owner smash");

    let update = bank.insert(Amount::from_ccd(3));

    assert!(update.is_err(), "deposit into a smashed bank must fail");
    assert_eq!(bank.view().0, Amount::zero(), "rejected deposit must be fully reverted");
    assert_eq!(bank.view().1, PiggyBankState::Smashed);
}

#[test]
fn test_smash_not_owner() {
    let mut bank = setup_bank();
    bank.insert(Amount::from_ccd(10)).expect("deposit into intact bank");

    let update = bank.smash(&Address::Account(james()), true);

    assert_eq!(update, Err(SmashError::NotOwner));
    assert_eq!(bank.view().0, Amount::from_ccd(10), "balance must be unchanged");
    assert_eq!(bank.view().1, PiggyBankState::Intact, "state must be unchanged");
    assert!(bank.transfers.is_empty(), "no transfer may leave the bank");
}

#[test]
fn test_smash_by_contract_address_rejected() {
    let mut bank = setup_bank();
    let caller = Address::Contract(ContractAddress { index: 0, subindex: 0 });

    let update = bank.smash(&caller, true);

    assert_eq!(update, Err(SmashError::NotOwner));
    assert_eq!(bank.view().1, PiggyBankState::Intact);
}

#[test]
fn test_smash_already_smashed() {
    let mut bank = setup_bank();
    bank.smash(&Address::Account(alice()), true).expect("first smash succeeds");

    let update = bank.smash(&Address::Account(alice()), true);

    assert_eq!(update, Err(SmashError::AlreadySmashed));
    assert_eq!(bank.view().0, Amount::zero());
    assert_eq!(bank.view().1, PiggyBankState::Smashed);
    assert_eq!(bank.transfers.len(), 1, "the failed smash must not transfer again");
}

#[test]
fn test_smash_transfer_failure_rolls_back() {
    let mut bank = setup_bank();
    bank.insert(Amount::from_ccd(10)).expect("deposit into intact bank");

    let update = bank.smash(&Address::Account(alice()), false);

    assert_eq!(update, Err(SmashError::TransferError));
    assert_eq!(bank.view().1, PiggyBankState::Intact, "the state transition must not survive");
    assert_eq!(bank.view().0, Amount::from_ccd(10), "the balance must be unchanged");
    assert!(bank.transfers.is_empty(), "no transfer may be committed");

    // The owner may simply resubmit.
    bank.smash(&Address::Account(alice()), true).expect("resubmitted smash succeeds");
    assert_eq!(bank.view().1, PiggyBankState::Smashed);
}

#[test]
fn test_example_scenario() {
    let mut bank = setup_bank();
    assert_eq!(bank.view(), (Amount::zero(), PiggyBankState::Intact));

    bank.insert(Amount::from_ccd(10)).expect("deposit of 10 succeeds");
    assert_eq!(bank.view(), (Amount::from_ccd(10), PiggyBankState::Intact));

    let by_james = bank.smash(&Address::Account(james()), true);
    assert_eq!(by_james, Err(SmashError::NotOwner));
    assert_eq!(bank.view(), (Amount::from_ccd(10), PiggyBankState::Intact));

    bank.smash(&Address::Account(alice()), true).expect("owner smash succeeds");
    assert_eq!(bank.view(), (Amount::zero(), PiggyBankState::Smashed));
    assert_eq!(
        bank.transfers,
        vec![TransferRequest { to: alice(), amount: Amount::from_ccd(10) }],
        "the whole balance goes to the owner"
    );

    let again = bank.smash(&Address::Account(alice()), true);
    assert_eq!(again, Err(SmashError::AlreadySmashed));
}

#[test]
fn test_view_after_sequence_of_deposits() {
    let mut bank = setup_bank();
    bank.insert(Amount::from_micro_ccd(1)).expect("deposit");
    bank.insert(Amount::from_micro_ccd(2)).expect("deposit");
    bank.insert(Amount::zero()).expect("zero deposit is accepted");
    bank.insert(Amount::from_micro_ccd(4)).expect("deposit");

    assert_eq!(bank.view().0, Amount::from_micro_ccd(7), "balance is the sum of all deposits");
    assert_eq!(bank.view().1, PiggyBankState::Intact);
}

#[test]
fn test_from_ccd_scales() {
    assert_eq!(Amount::from_ccd(10).micro_ccd, 10_000_000);
    assert_eq!(Amount::from_ccd(0).micro_ccd, 0);
    assert_eq!(Amount::zero().micro_ccd, 0);
    assert_eq!(Amount::from_micro_ccd(42).micro_ccd, 42);
}

#[test]
fn test_matches_account() {
    assert!(Address::Account(alice()).matches_account(&alice()));
    assert!(!Address::Account(james()).matches_account(&alice()));
    let contract = Address::Contract(ContractAddress { index: 7, subindex: 0 });
    assert!(!contract.matches_account(&alice()));
}

#[test]
fn test_state_codec() {
    assert_eq!(ccdpiggybank::codec::state_to_bytes(&PiggyBankState::Intact), vec![0u8]);
    assert_eq!(ccdpiggybank::codec::state_to_bytes(&PiggyBankState::Smashed), vec![1u8]);

    assert_eq!(
        ccdpiggybank::codec::state_from_bytes(&[0u8]),
        Some(PiggyBankState::Intact)
    );
    assert_eq!(
        ccdpiggybank::codec::state_from_bytes(&[1u8]),
        Some(PiggyBankState::Smashed)
    );
    assert_eq!(ccdpiggybank::codec::state_from_bytes(&[2u8]), None);
    assert_eq!(ccdpiggybank::codec::state_from_bytes(&[]), None);
    assert_eq!(ccdpiggybank::codec::state_from_bytes(&[0u8, 0u8]), None);
}

#[test]
fn test_error_codec() {
    assert_eq!(ccdpiggybank::codec::error_to_bytes(&SmashError::NotOwner), vec![0u8]);
    assert_eq!(ccdpiggybank::codec::error_to_bytes(&SmashError::AlreadySmashed), vec![1u8]);
    assert_eq!(ccdpiggybank::codec::error_to_bytes(&SmashError::TransferError), vec![2u8]);

    assert_eq!(
        ccdpiggybank::codec::error_from_bytes(&[0u8]),
        Some(SmashError::NotOwner)
    );
    assert_eq!(
        ccdpiggybank::codec::error_from_bytes(&[1u8]),
        Some(SmashError::AlreadySmashed)
    );
    assert_eq!(
        ccdpiggybank::codec::error_from_bytes(&[2u8]),
        Some(SmashError::TransferError)
    );
    assert_eq!(ccdpiggybank::codec::error_from_bytes(&[3u8]), None);
    assert_eq!(ccdpiggybank::codec::error_from_bytes(&[]), None);
}

#[test]
fn test_view_codec() {
    let encoded = ccdpiggybank::codec::view_to_bytes(Amount::from_ccd(10), &PiggyBankState::Intact);
    // 10 CCD is 10_000_000 micro CCD, little endian, then the state tag.
    assert_eq!(encoded, vec![0x80, 0x96, 0x98, 0, 0, 0, 0, 0, 0]);

    let decoded = ccdpiggybank::codec::view_from_bytes(&encoded);
    assert_eq!(decoded, Some((Amount::from_ccd(10), PiggyBankState::Intact)));

    let smashed = ccdpiggybank::codec::view_to_bytes(Amount::zero(), &PiggyBankState::Smashed);
    assert_eq!(smashed, vec![0, 0, 0, 0, 0, 0, 0, 0, 1]);
    assert_eq!(
        ccdpiggybank::codec::view_from_bytes(&smashed),
        Some((Amount::zero(), PiggyBankState::Smashed))
    );

    assert_eq!(ccdpiggybank::codec::view_from_bytes(&[0u8; 8]), None);
    assert_eq!(ccdpiggybank::codec::view_from_bytes(&[0u8; 10]), None);
    // A nine-byte input whose last byte is no valid state tag.
    assert_eq!(ccdpiggybank::codec::view_from_bytes(&[0, 0, 0, 0, 0, 0, 0, 0, 9]), None);
}
