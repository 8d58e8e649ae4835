use anchor_vault::derivation::authorize;
use anchor_vault::derivation::check_derived;
use anchor_vault::derivation::derive_address;
use anchor_vault::derivation::STATE_TAG;
use anchor_vault::derivation::VAULT_TAG;
use anchor_vault::guards::check_deposit;
use anchor_vault::guards::check_withdraw;
use anchor_vault::guards::sweep_amount;
use anchor_vault::Address;
use anchor_vault::Ledger;
use anchor_vault::VaultError;

#[test]
fn new_ledger_is_empty() {
    let program = Address::new([5u8; 32]);
    let ledger = Ledger::new(program, 10, 20);
    assert_eq!(ledger.program(), program);
    assert_eq!(ledger.rent_floor(), 10);
    assert_eq!(ledger.record_deposit(), 20);
    assert_eq!(ledger.lamports(&Address::new([1u8; 32])), 0);
    assert_eq!(ledger.lamports(&program), 0);
    assert_eq!(ledger.record(&Address::new([1u8; 32])), None);
}

#[test]
fn credit_adds_to_one_balance() {
    let a = Address::new([1u8; 32]);
    let b = Address::new([2u8; 32]);
    let mut ledger = Ledger::new(Address::new([5u8; 32]), 10, 20);
    assert!(ledger.credit(&a, 7));
    assert!(ledger.credit(&a, 8));
    assert!(ledger.credit(&b, 1));
    assert_eq!(ledger.lamports(&a), 15);
    assert_eq!(ledger.lamports(&b), 1);
    assert!(!ledger.credit(&a, u64::MAX - 14));
    assert_eq!(ledger.lamports(&a), 15);
    assert!(ledger.credit(&a, u64::MAX - 15));
    assert_eq!(ledger.lamports(&a), u64::MAX);
}

#[test]
fn snapshot_is_a_copy() {
    let a = Address::new([1u8; 32]);
    let mut ledger = Ledger::new(Address::new([5u8; 32]), 10, 20);
    assert!(ledger.credit(&a, 7));
    let copy = ledger.snapshot();
    assert!(ledger.credit(&a, 1));
    assert_eq!(copy.lamports(&a), 7);
    assert_eq!(ledger.lamports(&a), 8);
    assert_eq!(copy.rent_floor(), 10);
    assert_eq!(copy.record_deposit(), 20);
    assert_eq!(copy.program(), ledger.program());
}

#[test]
fn address_keeps_its_bytes() {
    let mut bytes = [0u8; 32];
    bytes[31] = 1;
    let a = Address::new(bytes);
    assert_eq!(a.to_bytes(), bytes);
    assert!(a.same_as(&Address::new(bytes)));
    assert!(!a.same_as(&Address::new([0u8; 32])));
}

#[test]
fn check_deposit_tests_the_balance_before_the_amount() {
    assert_eq!(check_deposit(0, 11, 10), Ok(()));
    assert_eq!(check_deposit(0, 10, 10), Err(VaultError::InvalidAmount));
    assert_eq!(check_deposit(0, 0, 0), Err(VaultError::InvalidAmount));
    assert_eq!(check_deposit(0, 1, 0), Ok(()));
    assert_eq!(check_deposit(1, 11, 10), Err(VaultError::VaultAlreadyExists));
    assert_eq!(check_deposit(1, 5, 10), Err(VaultError::VaultAlreadyExists));
    assert_eq!(check_deposit(0, u64::MAX, u64::MAX), Err(VaultError::InvalidAmount));
}

#[test]
fn check_withdraw_allows_up_to_the_balance() {
    assert_eq!(check_withdraw(10, 10), Ok(()));
    assert_eq!(check_withdraw(10, 0), Ok(()));
    assert_eq!(check_withdraw(0, 0), Ok(()));
    assert_eq!(check_withdraw(10, 11), Err(VaultError::InsufficientAmount));
    assert_eq!(check_withdraw(0, 1), Err(VaultError::InsufficientAmount));
}

#[test]
fn sweep_amount_is_the_whole_balance() {
    assert_eq!(sweep_amount(0), None);
    assert_eq!(sweep_amount(1), Some(1));
    assert_eq!(sweep_amount(u64::MAX), Some(u64::MAX));
}

#[test]
fn messages_of_the_errors() {
    assert_eq!(VaultError::VaultAlreadyExists.message(), "Vault already exists");
    assert_eq!(VaultError::InvalidAmount.message(), "Invalid amount");
    assert_eq!(VaultError::InsufficientAmount.message(), "Insufficent Amount");
    assert_eq!(VaultError::DuplicateInitialization.message(), "Vault is already initialized");
    assert_eq!(
        VaultError::AuthorizationMismatch.message(),
        "Account does not match its derivation"
    );
    assert_eq!(VaultError::TransferFailed.message(), "Transfer failed");
}

#[test]
fn check_derived_accepts_the_derived_address_only() {
    let owner = Address::new([1u8; 32]);
    let program = Address::new([5u8; 32]);
    let (vault, bump) = derive_address(&VAULT_TAG, &owner, &program).unwrap();
    assert_eq!(check_derived(&VAULT_TAG, &owner, &program, &vault), Some(bump));
    assert_eq!(check_derived(&STATE_TAG, &owner, &program, &vault), None);
    assert_eq!(check_derived(&VAULT_TAG, &owner, &program, &owner), None);
    assert_eq!(check_derived(&VAULT_TAG, &program, &owner, &vault), None);
}

#[test]
fn authority_proof_controls_the_account_it_derives() {
    let owner = Address::new([1u8; 32]);
    let program = Address::new([5u8; 32]);
    let (vault, bump) = derive_address(&VAULT_TAG, &owner, &program).unwrap();
    let proof = authorize(&VAULT_TAG, &owner, bump);
    assert_eq!(proof.tag, b"vault".to_vec());
    assert_eq!(proof.owner, owner);
    assert_eq!(proof.bump, bump);
    assert!(proof.controls(&program, &vault));
    assert!(!proof.controls(&program, &owner));
    assert!(!proof.controls(&owner, &vault));
    assert!(!authorize(&VAULT_TAG, &owner, bump.wrapping_sub(1)).controls(&program, &vault));
    assert!(!authorize(&STATE_TAG, &owner, bump).controls(&program, &vault));
    assert!(!authorize(&VAULT_TAG, &program, bump).controls(&program, &vault));
}
