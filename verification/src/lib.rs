//! Pulsar Bridge's core contract: the on-chain record of bridged deposits,
//! their lifecycle from `Pending` to a terminal status, and the admin
//! controls around it (pause, two-step admin transfer, relay-signer
//! rotation, timelocked upgrades).
//!
//! The contract runs against an `Env` that holds its storage, the ledger it
//! runs in and who authorized the invocation; every entry point states, over
//! the views of that environment, exactly when it succeeds, what it writes
//! and which events it publishes.
pub mod admin;
pub mod contract;
pub mod env;
pub mod errors;
pub mod events;
pub mod laws;
pub mod storage;
pub mod table;
pub mod types;
pub mod validation;

pub use contract::PulsarCoreContract;
pub use env::Env;
pub use errors::Error;
pub use types::{Address, LedgerInfo, PendingUpgrade, Transaction, TransactionStatus};
