//! A minimal custodial piggy bank.
//!
//! An owner deposits native value, anyone may add to it, and only the owner
//! may withdraw the entire balance in one irreversible action ("smash").
//! The crate verifies the two-state lifecycle (`Intact` -> `Smashed`), the
//! authorization gate binding `smash` to the owner, the atomicity of the
//! state transition with the outbound transfer, and the error reporting
//! that lets a caller distinguish why an operation was rejected.
//!
//! The host execution environment (ledger balances, identity resolution,
//! persisted storage, the transfer primitive) stays outside: every operation
//! here is a pure function of the facts the host supplies at call time.

pub mod account;
pub mod amount;
pub mod codec;
pub mod contract;
pub mod host;
pub mod model;
pub mod state;

pub use account::AccountAddress;
pub use account::Address;
pub use account::ContractAddress;
pub use amount::Amount;
pub use contract::init;
pub use contract::piggy_insert;
pub use contract::piggy_smash;
pub use contract::piggy_view;
pub use contract::TransferRequest;
pub use host::PiggyBank;
pub use state::InsertError;
pub use state::PiggyBankState;
pub use state::SmashError;
