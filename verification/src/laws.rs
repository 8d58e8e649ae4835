//! What holds of the vault operations on every ledger.
//!
//! The laws speak of the ledger as a mathematical value and of the results
//! and effects that the operations' contracts promise.

use crate::accounts::derived_address;
use crate::accounts::vault_authority;
use crate::accounts::Close;
use crate::accounts::Initialize;
use crate::accounts::VaultAction;
use crate::address::lemma_address_by_view;
use crate::address::Address;
use crate::derivation::derivation_view;
use crate::derivation::program_address;
use crate::derivation::AuthorityProofView;
use crate::derivation::VAULT_TAG;
use crate::error::VaultError;
use crate::ledger::LedgerView;
use crate::vault::close_effect;
use crate::vault::close_result;
use crate::vault::deposit_effect;
use crate::vault::deposit_result;
use crate::vault::initialize_effect;
use crate::vault::initialize_result;
use crate::vault::withdraw_effect;
use crate::vault::withdraw_result;
use vstd::prelude::*;

verus! {

/// The same tag, owner and program derive the same address and bump,
/// whenever and however often the derivation is made.
pub proof fn derivation_is_deterministic(
    tag: Seq<u8>,
    owner: Address,
    program: Address,
    first: Option<(Address, u8)>,
    second: Option<(Address, u8)>,
)
    requires
        derivation_view(first) == program_address(tag, owner@, program@),
        derivation_view(second) == program_address(tag, owner@, program@),
    ensures
        first == second,
{
    match (first, second) {
        (Some((one, _)), Some((other, _))) => {
            lemma_address_by_view(one, other);
        },
        _ => {},
    }
}

/// An authority proof controls at most one account, and the seeds of a proof
/// that controls an account admit no other bump: funds leave a derived
/// account only on the word of the tag, the owner and the bump from which
/// its address derives.
pub proof fn authority_is_bound_to_its_seeds(
    one: AuthorityProofView,
    other: AuthorityProofView,
    program: Address,
    account: Address,
    second: Address,
)
    requires
        one.controls(program, account),
    ensures
        one.controls(program, second) ==> second == account,
        other.tag == one.tag && other.owner == one.owner && other.controls(program, account)
            ==> other.bump == one.bump,
{
    lemma_address_by_view(account, second);
}

/// Opening a vault grants the owner authority over it: once the record was
/// created, the vault account derived for the owner and the record account
/// pass the test that every later call makes.
pub proof fn opened_vault_grants_authority(
    ledger: LedgerView,
    accounts: Initialize,
    vault: Address,
)
    requires
        initialize_result(ledger, accounts) is Ok,
        derived_address(VAULT_TAG@, accounts.signer, ledger.program) == Some(vault@),
    ensures
        vault_authority(
            initialize_effect(ledger, accounts),
            accounts.signer,
            vault,
            accounts.vault_state,
        ) is Some,
{
}

/// Once a vault has been opened, whether by this call or before it, opening
/// it again is refused as a duplicate, and the record keeps its bump.
pub proof fn initialize_twice_is_refused(ledger: LedgerView, accounts: Initialize)
    requires
        initialize_result(ledger, accounts) is Ok || initialize_result(ledger, accounts) == Err::<
            (),
            VaultError,
        >(VaultError::DuplicateInitialization),
    ensures
        initialize_result(initialize_effect(ledger, accounts), accounts) == Err::<(), VaultError>(
            VaultError::DuplicateInitialization,
        ),
        initialize_effect(initialize_effect(ledger, accounts), accounts) == initialize_effect(
            ledger,
            accounts,
        ),
        initialize_effect(ledger, accounts).record(accounts.vault_state) is Some,
{
}

/// A deposit above the rent-exempt floor into the owner's empty vault, which
/// the owner can pay, succeeds: the vault then holds exactly the amount, the
/// owner holds as much less, and no other balance and no record has
/// changed. A further deposit of any amount is refused, because the vault
/// holds funds.
pub proof fn deposit_fills_empty_vault(
    ledger: LedgerView,
    accounts: VaultAction,
    amount: u64,
    again: u64,
)
    requires
        vault_authority(ledger, accounts.signer, accounts.vault, accounts.vault_state) is Some,
        accounts.signer != accounts.vault,
        ledger.balance(accounts.vault) == 0,
        amount > ledger.rent_floor,
        ledger.balance(accounts.signer) >= amount,
    ensures
        deposit_result(ledger, accounts, amount) is Ok,
        deposit_effect(ledger, accounts, amount).balance(accounts.vault) == amount,
        deposit_effect(ledger, accounts, amount).balance(accounts.signer) == ledger.balance(
            accounts.signer,
        ) - amount,
        forall|other: Address|
            other != accounts.signer && other != accounts.vault ==> deposit_effect(
                ledger,
                accounts,
                amount,
            ).balance(other) == ledger.balance(other),
        deposit_effect(ledger, accounts, amount).records == ledger.records,
        deposit_result(deposit_effect(ledger, accounts, amount), accounts, again) == Err::<
            (),
            VaultError,
        >(VaultError::VaultAlreadyExists),
{
}

/// A deposit that does not exceed the rent-exempt floor, into the owner's
/// empty vault, is refused as an invalid amount, and nothing changes.
pub proof fn deposit_at_or_below_floor_is_refused(
    ledger: LedgerView,
    accounts: VaultAction,
    amount: u64,
)
    requires
        vault_authority(ledger, accounts.signer, accounts.vault, accounts.vault_state) is Some,
        ledger.balance(accounts.vault) == 0,
        amount <= ledger.rent_floor,
    ensures
        deposit_result(ledger, accounts, amount) == Err::<(), VaultError>(
            VaultError::InvalidAmount,
        ),
        deposit_effect(ledger, accounts, amount) == ledger,
{
}

/// A withdrawal of no more than the vault holds, which the owner's balance
/// has room for, succeeds: the vault then holds as much less, the owner as
/// much more, and no other balance and no record has changed.
pub proof fn withdraw_moves_funds_to_owner(ledger: LedgerView, accounts: VaultAction, amount: u64)
    requires
        vault_authority(ledger, accounts.signer, accounts.vault, accounts.vault_state) is Some,
        accounts.signer != accounts.vault,
        amount <= ledger.balance(accounts.vault),
        ledger.balance(accounts.signer) + amount <= u64::MAX,
    ensures
        withdraw_result(ledger, accounts, amount) is Ok,
        withdraw_effect(ledger, accounts, amount).balance(accounts.vault) == ledger.balance(
            accounts.vault,
        ) - amount,
        withdraw_effect(ledger, accounts, amount).balance(accounts.signer) == ledger.balance(
            accounts.signer,
        ) + amount,
        forall|other: Address|
            other != accounts.signer && other != accounts.vault ==> withdraw_effect(
                ledger,
                accounts,
                amount,
            ).balance(other) == ledger.balance(other),
        withdraw_effect(ledger, accounts, amount).records == ledger.records,
{
}

/// A withdrawal of more than the owner's vault holds is refused as
/// insufficient, and nothing changes.
pub proof fn withdraw_beyond_balance_is_refused(
    ledger: LedgerView,
    accounts: VaultAction,
    amount: u64,
)
    requires
        vault_authority(ledger, accounts.signer, accounts.vault, accounts.vault_state) is Some,
        amount > ledger.balance(accounts.vault),
    ensures
        withdraw_result(ledger, accounts, amount) == Err::<(), VaultError>(
            VaultError::InsufficientAmount,
        ),
        withdraw_effect(ledger, accounts, amount) == ledger,
{
}

/// Closing the owner's vault, where the owner's balance has room for what
/// comes back, succeeds: the vault is left empty, the owner holds more by the
/// vault's balance and by the record's storage deposit, the record is gone
/// and its account empty, and no other balance and no other record has
/// changed. Closing again is refused, for want of a record.
pub proof fn close_returns_everything(ledger: LedgerView, accounts: Close)
    requires
        vault_authority(ledger, accounts.signer, accounts.vault, accounts.vault_state) is Some,
        accounts.signer != accounts.vault,
        accounts.signer != accounts.vault_state,
        accounts.vault != accounts.vault_state,
        ledger.balance(accounts.signer) + ledger.balance(accounts.vault) + ledger.balance(
            accounts.vault_state,
        ) <= u64::MAX,
    ensures
        close_result(ledger, accounts) is Ok,
        close_effect(ledger, accounts).balance(accounts.vault) == 0,
        close_effect(ledger, accounts).balance(accounts.vault_state) == 0,
        close_effect(ledger, accounts).balance(accounts.signer) == ledger.balance(accounts.signer)
            + ledger.balance(accounts.vault) + ledger.balance(accounts.vault_state),
        close_effect(ledger, accounts).record(accounts.vault_state) is None,
        forall|other: Address|
            other != accounts.signer && other != accounts.vault && other != accounts.vault_state
                ==> close_effect(ledger, accounts).balance(other) == ledger.balance(other),
        forall|other: Address|
            other != accounts.vault_state ==> close_effect(ledger, accounts).record(other)
                == ledger.record(other),
        close_result(close_effect(ledger, accounts), accounts) == Err::<(), VaultError>(
            VaultError::AuthorizationMismatch,
        ),
{
}

/// Without a record at the address that a call names for it, deposits,
/// withdrawals and closing are refused as unauthorized: only an opened vault
/// can be used.
pub proof fn unopened_vault_refuses_calls(
    ledger: LedgerView,
    signer: Address,
    vault: Address,
    vault_state: Address,
    amount: u64,
)
    requires
        ledger.record(vault_state) is None,
    ensures
        deposit_result(ledger, VaultAction { signer, vault, vault_state }, amount) == Err::<
            (),
            VaultError,
        >(VaultError::AuthorizationMismatch),
        withdraw_result(ledger, VaultAction { signer, vault, vault_state }, amount) == Err::<
            (),
            VaultError,
        >(VaultError::AuthorizationMismatch),
        close_result(ledger, Close { signer, vault, vault_state }) == Err::<(), VaultError>(
            VaultError::AuthorizationMismatch,
        ),
{
}

/// A call that is refused, for whatever reason, leaves the ledger as it was.
pub proof fn refused_call_changes_nothing(
    ledger: LedgerView,
    opening: Initialize,
    action: VaultAction,
    closing: Close,
    amount: u64,
)
    ensures
        initialize_result(ledger, opening) is Err ==> initialize_effect(ledger, opening) == ledger,
        deposit_result(ledger, action, amount) is Err ==> deposit_effect(ledger, action, amount)
            == ledger,
        withdraw_result(ledger, action, amount) is Err ==> withdraw_effect(ledger, action, amount)
            == ledger,
        close_result(ledger, closing) is Err ==> close_effect(ledger, closing) == ledger,
{
}

} // verus!
