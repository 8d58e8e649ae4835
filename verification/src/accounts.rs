//! The accounts that a call names, and the test that they are the ones
//! derived for the owner who signed it.

use crate::address::Address;
use crate::derivation::check_derived;
use crate::derivation::derive_address;
use crate::derivation::derived_bump;
use crate::derivation::program_address;
use crate::derivation::STATE_TAG;
use crate::derivation::VAULT_TAG;
use crate::ledger::Ledger;
use crate::ledger::LedgerView;
use crate::ledger::VaultState;
use vstd::prelude::*;

verus! {

/// The accounts of a call that opens a vault.
#[derive(Clone, Copy, Debug, PartialEq, Eq)]
pub struct Initialize {
    /// The owner, who signed the call.
    pub signer: Address,
    /// The record account to create.
    pub vault_state: Address,
}

/// The accounts of a deposit or a withdrawal.
#[derive(Clone, Copy, Debug, PartialEq, Eq)]
pub struct VaultAction {
    /// The owner, who signed the call.
    pub signer: Address,
    /// The account that holds the owner's funds.
    pub vault: Address,
    /// The owner's record account.
    pub vault_state: Address,
}

/// The accounts of a call that closes a vault.
#[derive(Clone, Copy, Debug, PartialEq, Eq)]
pub struct Close {
    /// The owner, who signed the call.
    pub signer: Address,
    /// The account that holds the owner's funds.
    pub vault: Address,
    /// The owner's record account, which the call destroys.
    pub vault_state: Address,
}

/// The address derived from `tag` and `owner` under `program`, by its bytes.
pub open spec fn derived_address(tag: Seq<u8>, owner: Address, program: Address) -> Option<
    Seq<u8>,
> {
    match program_address(tag, owner@, program@) {
        Some((address, _)) => Some(address),
        None => None,
    }
}

/// The authority over a vault that a call is granted: the vault's bump,
/// where the vault account is the one derived for the signer
/// (`vault_bump`), a record exists (`record`), and the record stores the
/// bump with which its own address derives for the signer (`record_bump`).
/// Nothing where any of the three fails.
pub open spec fn authority_of(
    vault_bump: Option<u8>,
    record: Option<VaultState>,
    record_bump: Option<u8>,
) -> Option<u8> {
    match (vault_bump, record, record_bump) {
        (Some(bump), Some(state), Some(derived)) => if state.bump == derived {
            Some(bump)
        } else {
            None
        },
        _ => None,
    }
}

/// Decides on the authority over a vault from the outcome of the two
/// derivations and the record that the ledger holds.
pub fn grant_authority(
    vault_bump: Option<u8>,
    record: Option<VaultState>,
    record_bump: Option<u8>,
) -> (granted: Option<u8>)
    ensures
        granted == authority_of(vault_bump, record, record_bump),
{
    match (vault_bump, record, record_bump) {
        (Some(bump), Some(state), Some(derived)) => {
            if state.bump == derived {
                Some(bump)
            } else {
                None
            }
        },
        _ => None,
    }
}

/// The bump of the vault where `vault` and `vault_state` are the accounts of
/// the owner `signer` on `ledger`; nothing where they are not.
pub open spec fn vault_authority(
    ledger: LedgerView,
    signer: Address,
    vault: Address,
    vault_state: Address,
) -> Option<u8> {
    authority_of(
        derived_bump(VAULT_TAG@, signer, ledger.program, vault),
        ledger.record(vault_state),
        derived_bump(STATE_TAG@, signer, ledger.program, vault_state),
    )
}

/// Tests the accounts of a call against the derivations for its signer and
/// against the signer's record, and returns the vault's bump where they match.
pub fn resolve_vault(ledger: &Ledger, signer: &Address, vault: &Address, vault_state: &Address)
    -> (bump: Option<u8>)
    requires
        ledger.wf(),
    ensures
        bump == vault_authority(ledger@, *signer, *vault, *vault_state),
{
    let program = ledger.program();
    grant_authority(
        check_derived(VAULT_TAG.as_slice(), signer, &program, vault),
        ledger.record(vault_state),
        check_derived(STATE_TAG.as_slice(), signer, &program, vault_state),
    )
}

impl Initialize {
    /// The accounts with which `owner` opens a vault under `program`, or
    /// nothing where no record address derives for the owner.
    pub fn for_owner(owner: &Address, program: &Address) -> (accounts: Option<Initialize>)
        ensures
            match accounts {
                Some(found) => found.signer == *owner && derived_address(
                    STATE_TAG@,
                    *owner,
                    *program,
                ) == Some(found.vault_state@),
                None => derived_address(STATE_TAG@, *owner, *program) is None,
            },
    {
        match derive_address(STATE_TAG.as_slice(), owner, program) {
            Some((vault_state, _)) => Some(Initialize { signer: *owner, vault_state }),
            None => None,
        }
    }
}

impl VaultAction {
    /// The accounts with which `owner` deposits and withdraws under
    /// `program`, or nothing where an address does not derive for the owner.
    pub fn for_owner(owner: &Address, program: &Address) -> (accounts: Option<VaultAction>)
        ensures
            match accounts {
                Some(found) => found.signer == *owner && derived_address(
                    VAULT_TAG@,
                    *owner,
                    *program,
                ) == Some(found.vault@) && derived_address(STATE_TAG@, *owner, *program) == Some(
                    found.vault_state@,
                ),
                None => derived_address(VAULT_TAG@, *owner, *program) is None || derived_address(
                    STATE_TAG@,
                    *owner,
                    *program,
                ) is None,
            },
    {
        let vault = match derive_address(VAULT_TAG.as_slice(), owner, program) {
            Some((vault, _)) => vault,
            None => {
                return None;
            },
        };
        match derive_address(STATE_TAG.as_slice(), owner, program) {
            Some((vault_state, _)) => Some(VaultAction { signer: *owner, vault, vault_state }),
            None => None,
        }
    }
}

impl Close {
    /// The accounts with which `owner` closes the vault under `program`, or
    /// nothing where an address does not derive for the owner.
    pub fn for_owner(owner: &Address, program: &Address) -> (accounts: Option<Close>)
        ensures
            match accounts {
                Some(found) => found.signer == *owner && derived_address(
                    VAULT_TAG@,
                    *owner,
                    *program,
                ) == Some(found.vault@) && derived_address(STATE_TAG@, *owner, *program) == Some(
                    found.vault_state@,
                ),
                None => derived_address(VAULT_TAG@, *owner, *program) is None || derived_address(
                    STATE_TAG@,
                    *owner,
                    *program,
                ) is None,
            },
    {
        match VaultAction::for_owner(owner, program) {
            Some(found) => Some(
                Close { signer: found.signer, vault: found.vault, vault_state: found.vault_state },
            ),
            None => None,
        }
    }
}

} // verus!
