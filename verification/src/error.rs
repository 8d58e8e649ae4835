//! The ways in which a vault operation fails.

use vstd::prelude::*;

verus! {

/// Why a vault operation was refused. A refused operation changes nothing.
#[derive(Clone, Copy, Debug, PartialEq, Eq, Structural)]
pub enum VaultError {
    /// A record account already exists for the owner.
    DuplicateInitialization,
    /// A deposit was attempted against a vault that holds funds.
    VaultAlreadyExists,
    /// A deposit does not exceed the rent-exempt floor.
    InvalidAmount,
    /// A withdrawal exceeds the vault's balance.
    InsufficientAmount,
    /// An account named by the call is not the one derived for the owner,
    /// or the owner's record is missing or carries another bump.
    AuthorizationMismatch,
    /// The ledger refused to move the funds: the paying account holds less
    /// than the amount, or the receiving balance would leave the ledger's range.
    TransferFailed,
}

impl VaultError {
    /// The message shown to the caller for this error.
    pub fn message(&self) -> (text: &'static str)
        ensures
            text@ == self.message_text(),
    {
        match self {
            VaultError::DuplicateInitialization => "Vault is already initialized",
            VaultError::VaultAlreadyExists => "Vault already exists",
            VaultError::InvalidAmount => "Invalid amount",
            VaultError::InsufficientAmount => "Insufficent Amount",
            VaultError::AuthorizationMismatch => "Account does not match its derivation",
            VaultError::TransferFailed => "Transfer failed",
        }
    }

    /// The characters of the message for this error.
    pub open spec fn message_text(&self) -> Seq<char> {
        match self {
            VaultError::DuplicateInitialization => "Vault is already initialized"@,
            VaultError::VaultAlreadyExists => "Vault already exists"@,
            VaultError::InvalidAmount => "Invalid amount"@,
            VaultError::InsufficientAmount => "Insufficent Amount"@,
            VaultError::AuthorizationMismatch => "Account does not match its derivation"@,
            VaultError::TransferFailed => "Transfer failed"@,
        }
    }
}

} // verus!
