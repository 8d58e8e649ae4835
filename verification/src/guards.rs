//! The conditions that a vault's balance and an amount must meet before any
//! funds move.

use crate::error::VaultError;
use vstd::prelude::*;

verus! {

/// What the checks before a deposit return: the vault must be empty, and the
/// amount must exceed the rent-exempt floor. The balance is tested first.
pub open spec fn deposit_guard(vault_lamports: u64, amount: u64, rent_floor: u64) -> Result<
    (),
    VaultError,
> {
    if vault_lamports != 0 {
        Err(VaultError::VaultAlreadyExists)
    } else if amount <= rent_floor {
        Err(VaultError::InvalidAmount)
    } else {
        Ok(())
    }
}

/// What the check before a withdrawal returns: the vault must hold the amount.
pub open spec fn withdraw_guard(vault_lamports: u64, amount: u64) -> Result<(), VaultError> {
    if vault_lamports < amount {
        Err(VaultError::InsufficientAmount)
    } else {
        Ok(())
    }
}

/// What closing a vault sweeps to its owner: the whole balance, or nothing
/// where the vault is empty.
pub open spec fn sweep_of(vault_lamports: u64) -> Option<u64> {
    if vault_lamports > 0 {
        Some(vault_lamports)
    } else {
        None
    }
}

/// Checks a deposit of `amount` into a vault that holds `vault_lamports`.
pub fn check_deposit(vault_lamports: u64, amount: u64, rent_floor: u64) -> (checked: Result<
    (),
    VaultError,
>)
    ensures
        checked == deposit_guard(vault_lamports, amount, rent_floor),
{
    if vault_lamports != 0 {
        Err(VaultError::VaultAlreadyExists)
    } else if amount <= rent_floor {
        Err(VaultError::InvalidAmount)
    } else {
        Ok(())
    }
}

/// Checks a withdrawal of `amount` from a vault that holds `vault_lamports`.
pub fn check_withdraw(vault_lamports: u64, amount: u64) -> (checked: Result<(), VaultError>)
    ensures
        checked == withdraw_guard(vault_lamports, amount),
{
    if vault_lamports < amount {
        Err(VaultError::InsufficientAmount)
    } else {
        Ok(())
    }
}

/// The amount to sweep out of a vault that holds `vault_lamports` when it is
/// closed.
pub fn sweep_amount(vault_lamports: u64) -> (sweep: Option<u64>)
    ensures
        sweep == sweep_of(vault_lamports),
{
    if vault_lamports > 0 {
        Some(vault_lamports)
    } else {
        None
    }
}

} // verus!
