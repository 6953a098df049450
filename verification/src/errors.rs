use vstd::prelude::*;

verus! {

/// Every way an entry point of the contract can be refused.
#[derive(Clone, Copy, Debug, PartialEq, Eq, Structural, PartialOrd, Ord)]
pub enum Error {
    NotInitialized,
    AlreadyInitialized,
    Unauthorized,
    ContractPaused,
    InvalidInput,
    InvalidStrkey,
    TransactionNotFound,
    TransactionAlreadyExists,
    InvalidStateTransition,
    SchemaVersionMismatch,
    NoPendingAdmin,
    NoPendingUpgrade,
    UpgradeTimelockNotElapsed,
}

} // verus!
