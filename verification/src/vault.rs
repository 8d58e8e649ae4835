//! The four operations on a vault: open it, fund it, draw on it, close it.
//!
//! Each operation first tests the accounts it was given against the
//! derivations for the owner, then the state of the vault, and moves funds
//! only where every test has passed. An operation that fails leaves the
//! ledger as it found it.

use crate::accounts::resolve_vault;
use crate::accounts::vault_authority;
use crate::accounts::Close;
use crate::accounts::Initialize;
use crate::accounts::VaultAction;
use crate::derivation::authorize;
use crate::derivation::check_derived;
use crate::derivation::derived_bump;
use crate::derivation::STATE_TAG;
use crate::derivation::VAULT_TAG;
use crate::error::VaultError;
use crate::guards::check_deposit;
use crate::guards::check_withdraw;
use crate::guards::deposit_guard;
use crate::guards::sweep_amount;
use crate::guards::withdraw_guard;
use crate::ledger::Ledger;
use crate::ledger::LedgerView;
use crate::ledger::VaultState;
use vstd::prelude::*;

verus! {

/// The ledger once the vault's balance, if it holds any, has gone to the
/// owner.
pub open spec fn close_swept(ledger: LedgerView, accounts: Close) -> LedgerView {
    if ledger.balance(accounts.vault) > 0 {
        ledger.transferred(accounts.vault, accounts.signer, ledger.balance(accounts.vault))
    } else {
        ledger
    }
}

/// What closing a vault returns. The accounts must be the owner's and the
/// record must exist; the ledger must be able to move the vault's balance,
/// and then the record's storage deposit, to the owner.
pub open spec fn close_result(ledger: LedgerView, accounts: Close) -> Result<(), VaultError> {
    let swept = close_swept(ledger, accounts);
    if vault_authority(ledger, accounts.signer, accounts.vault, accounts.vault_state) is None {
        Err(VaultError::AuthorizationMismatch)
    } else if ledger.balance(accounts.vault) > 0 && !ledger.can_transfer(
        accounts.vault,
        accounts.signer,
        ledger.balance(accounts.vault),
    ) {
        Err(VaultError::TransferFailed)
    } else if !swept.can_transfer(
        accounts.vault_state,
        accounts.signer,
        swept.balance(accounts.vault_state),
    ) {
        Err(VaultError::TransferFailed)
    } else {
        Ok(())
    }
}

/// The ledger after a vault was closed: the vault swept, the record's
/// storage deposit refunded to the owner, and the record gone. A refused
/// call leaves the ledger as it was.
pub open spec fn close_effect(ledger: LedgerView, accounts: Close) -> LedgerView {
    let swept = close_swept(ledger, accounts);
    if close_result(ledger, accounts) is Ok {
        swept.transferred(
            accounts.vault_state,
            accounts.signer,
            swept.balance(accounts.vault_state),
        ).with_record(accounts.vault_state, None)
    } else {
        ledger
    }
}

/// Closes the owner's vault: sweeps what the vault holds to the owner, then
/// destroys the record account and refunds its storage deposit to the owner.
pub fn close(ledger: &mut Ledger, accounts: &Close) -> (closed: Result<(), VaultError>)
    requires
        old(ledger).wf(),
    ensures
        final(ledger).wf(),
        closed == close_result(old(ledger)@, *accounts),
        final(ledger)@ == close_effect(old(ledger)@, *accounts),
{
    let bump = match resolve_vault(ledger, &accounts.signer, &accounts.vault, &accounts.vault_state)
    {
        Some(bump) => bump,
        None => {
            return Err(VaultError::AuthorizationMismatch);
        },
    };
    let mut work = ledger.snapshot();
    match sweep_amount(work.lamports(&accounts.vault)) {
        Some(sweep) => {
            let proof = authorize(VAULT_TAG.as_slice(), &accounts.signer, bump);
            match work.transfer_with_authority(&proof, &accounts.vault, &accounts.signer, sweep) {
                Ok(()) => {},
                Err(refused) => {
                    return Err(refused);
                },
            }
        },
        None => {},
    }
    let deposit = work.lamports(&accounts.vault_state);
    match work.transfer(&accounts.vault_state, &accounts.signer, deposit) {
        Ok(()) => {},
        Err(refused) => {
            return Err(refused);
        },
    }
    work.destroy_record(&accounts.vault_state);
    *ledger = work;
    Ok(())
}

/// What a withdrawal returns. The accounts must be the owner's and the
/// record must exist; the vault must hold the amount; and the ledger must be
/// able to move it to the owner.
pub open spec fn withdraw_result(ledger: LedgerView, accounts: VaultAction, amount: u64) -> Result<
    (),
    VaultError,
> {
    if vault_authority(ledger, accounts.signer, accounts.vault, accounts.vault_state) is None {
        Err(VaultError::AuthorizationMismatch)
    } else if withdraw_guard(ledger.balance(accounts.vault), amount) is Err {
        withdraw_guard(ledger.balance(accounts.vault), amount)
    } else if !ledger.can_transfer(accounts.vault, accounts.signer, amount) {
        Err(VaultError::TransferFailed)
    } else {
        Ok(())
    }
}

/// The ledger after a withdrawal: the amount moved from the vault to the
/// owner. A refused call leaves the ledger as it was.
pub open spec fn withdraw_effect(ledger: LedgerView, accounts: VaultAction, amount: u64)
    -> LedgerView {
    if withdraw_result(ledger, accounts, amount) is Ok {
        ledger.transferred(accounts.vault, accounts.signer, amount)
    } else {
        ledger
    }
}

/// Moves `amount` from the owner's vault to the owner, on the word of the
/// authority proof made of the vault's tag, the owner and the vault's bump.
pub fn withdraw(ledger: &mut Ledger, accounts: &VaultAction, amount: u64) -> (withdrawn: Result<
    (),
    VaultError,
>)
    requires
        old(ledger).wf(),
    ensures
        final(ledger).wf(),
        withdrawn == withdraw_result(old(ledger)@, *accounts, amount),
        final(ledger)@ == withdraw_effect(old(ledger)@, *accounts, amount),
{
    let bump = match resolve_vault(ledger, &accounts.signer, &accounts.vault, &accounts.vault_state)
    {
        Some(bump) => bump,
        None => {
            return Err(VaultError::AuthorizationMismatch);
        },
    };
    match check_withdraw(ledger.lamports(&accounts.vault), amount) {
        Ok(()) => {},
        Err(refused) => {
            return Err(refused);
        },
    }
    let proof = authorize(VAULT_TAG.as_slice(), &accounts.signer, bump);
    ledger.transfer_with_authority(&proof, &accounts.vault, &accounts.signer, amount)
}

/// What a deposit returns. The accounts must be the owner's and the record
/// must exist; the vault must be empty and the amount must exceed the
/// rent-exempt floor; and the ledger must be able to move the amount out of
/// the owner's account.
pub open spec fn deposit_result(ledger: LedgerView, accounts: VaultAction, amount: u64) -> Result<
    (),
    VaultError,
> {
    if vault_authority(ledger, accounts.signer, accounts.vault, accounts.vault_state) is None {
        Err(VaultError::AuthorizationMismatch)
    } else if deposit_guard(ledger.balance(accounts.vault), amount, ledger.rent_floor) is Err {
        deposit_guard(ledger.balance(accounts.vault), amount, ledger.rent_floor)
    } else if !ledger.can_transfer(accounts.signer, accounts.vault, amount) {
        Err(VaultError::TransferFailed)
    } else {
        Ok(())
    }
}

/// The ledger after a deposit: the amount moved from the owner to the vault.
/// A refused call leaves the ledger as it was.
pub open spec fn deposit_effect(ledger: LedgerView, accounts: VaultAction, amount: u64)
    -> LedgerView {
    if deposit_result(ledger, accounts, amount) is Ok {
        ledger.transferred(accounts.signer, accounts.vault, amount)
    } else {
        ledger
    }
}

/// Moves `amount` from the owner into the owner's empty vault. The owner
/// pays as the signer of the call: no authority proof is needed.
pub fn deposit(ledger: &mut Ledger, accounts: &VaultAction, amount: u64) -> (deposited: Result<
    (),
    VaultError,
>)
    requires
        old(ledger).wf(),
    ensures
        final(ledger).wf(),
        deposited == deposit_result(old(ledger)@, *accounts, amount),
        final(ledger)@ == deposit_effect(old(ledger)@, *accounts, amount),
{
    if resolve_vault(ledger, &accounts.signer, &accounts.vault, &accounts.vault_state).is_none() {
        return Err(VaultError::AuthorizationMismatch);
    }
    match check_deposit(ledger.lamports(&accounts.vault), amount, ledger.rent_floor()) {
        Ok(()) => {},
        Err(refused) => {
            return Err(refused);
        },
    }
    ledger.transfer(&accounts.signer, &accounts.vault, amount)
}

/// What the owner pays to have the record created: the storage deposit, less
/// what the record's address already holds.
pub open spec fn record_funding(ledger: LedgerView, accounts: Initialize) -> u64 {
    if ledger.balance(accounts.vault_state) >= ledger.record_deposit {
        0
    } else {
        (ledger.record_deposit - ledger.balance(accounts.vault_state)) as u64
    }
}

/// What opening a vault returns. The record account must be the one derived
/// for the owner; no record may exist yet; and the ledger must be able to
/// move the storage deposit out of the owner's account.
pub open spec fn initialize_result(ledger: LedgerView, accounts: Initialize) -> Result<
    (),
    VaultError,
> {
    if derived_bump(STATE_TAG@, accounts.signer, ledger.program, accounts.vault_state) is None {
        Err(VaultError::AuthorizationMismatch)
    } else if ledger.record(accounts.vault_state) is Some {
        Err(VaultError::DuplicateInitialization)
    } else if !ledger.can_transfer(
        accounts.signer,
        accounts.vault_state,
        record_funding(ledger, accounts),
    ) {
        Err(VaultError::TransferFailed)
    } else {
        Ok(())
    }
}

/// The ledger after a vault was opened: the storage deposit paid by the
/// owner, and the record created with the bump of its own derivation. A
/// refused call leaves the ledger as it was.
pub open spec fn initialize_effect(ledger: LedgerView, accounts: Initialize) -> LedgerView {
    if initialize_result(ledger, accounts) is Ok {
        ledger.transferred(
            accounts.signer,
            accounts.vault_state,
            record_funding(ledger, accounts),
        ).with_record(
            accounts.vault_state,
            Some(
                VaultState {
                    bump: derived_bump(
                        STATE_TAG@,
                        accounts.signer,
                        ledger.program,
                        accounts.vault_state,
                    )->0,
                },
            ),
        )
    } else {
        ledger
    }
}

/// Opens the owner's vault: creates the record account at its derived
/// address and stores in it the bump of that derivation.
pub fn initialize(ledger: &mut Ledger, accounts: &Initialize) -> (opened: Result<(), VaultError>)
    requires
        old(ledger).wf(),
    ensures
        final(ledger).wf(),
        opened == initialize_result(old(ledger)@, *accounts),
        final(ledger)@ == initialize_effect(old(ledger)@, *accounts),
{
    let program = ledger.program();
    let bump = match check_derived(
        STATE_TAG.as_slice(),
        &accounts.signer,
        &program,
        &accounts.vault_state,
    ) {
        Some(bump) => bump,
        None => {
            return Err(VaultError::AuthorizationMismatch);
        },
    };
    if ledger.record(&accounts.vault_state).is_some() {
        return Err(VaultError::DuplicateInitialization);
    }
    let funding = ledger.record_deposit().saturating_sub(ledger.lamports(&accounts.vault_state));
    match ledger.transfer(&accounts.signer, &accounts.vault_state, funding) {
        Ok(()) => {},
        Err(refused) => {
            return Err(refused);
        },
    }
    ledger.create_record(&accounts.vault_state, VaultState { bump });
    Ok(())
}

} // verus!
