//! A custodial vault over program-derived accounts.
//!
//! Every owner has two accounts whose addresses are derived from the owner's
//! identity: a record account that marks the vault as open and stores its
//! derivation counter, and a vault account that holds the owner's funds. The
//! crate states, and proves, who may open, fund, drain and close a vault, and
//! what each of these does to the balances involved.

pub mod accounts;
pub mod address;
pub mod derivation;
pub mod error;
pub mod guards;
pub mod laws;
pub mod ledger;
pub mod vault;

pub use accounts::Close;
pub use accounts::Initialize;
pub use accounts::VaultAction;
pub use address::Address;
pub use error::VaultError;
pub use ledger::Ledger;
pub use ledger::VaultState;
pub use vault::close;
pub use vault::deposit;
pub use vault::initialize;
pub use vault::withdraw;
