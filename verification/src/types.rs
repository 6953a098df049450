use vstd::prelude::*;

verus! {

/// Current storage/event schema version; the value `initialize` records.
pub const SCHEMA_VERSION: u32 = 1;

/// Largest accepted byte length of any free-form string field (chain ids,
/// foreign-chain sender addresses, failure reasons).
pub const MAX_STRING_LEN: u32 = 256;

/// Lifecycle of a bridged deposit. The allowed edges are those of
/// `storage::assert_transition`.
#[derive(Clone, Copy, Debug, PartialEq, Eq, Structural)]
pub enum TransactionStatus {
    Pending,
    Confirmed,
    Completed,
    Failed,
    Refunded,
}

/// An account or contract on the ledger, identified by its strkey text
/// (`G...` for accounts, `C...` for contracts).
#[derive(Debug, PartialEq, Eq)]
pub struct Address {
    pub strkey: String,
}

impl View for Address {
    type V = Seq<char>;

    open spec fn view(&self) -> Seq<char> {
        self.strkey@
    }
}

impl Clone for Address {
    fn clone(&self) -> (res: Self)
        ensures
            res == *self,
    {
        Address { strkey: self.strkey.clone() }
    }
}

impl Address {
    /// Builds an address from its strkey text.
    pub fn from_strkey(strkey: &str) -> (res: Self)
        ensures
            res@ == strkey@,
    {
        Address { strkey: strkey.to_owned() }
    }

    /// Whether the two values name the same ledger entity.
    pub fn same_as(&self, other: &Address) -> (res: bool)
        ensures
            res == (self@ == other@),
    {
        self.strkey == other.strkey
    }
}

/// The record of a single bridged deposit. `transaction_id` is the
/// idempotency key chosen by the off-chain relay.
#[derive(Debug, PartialEq, Eq)]
pub struct Transaction {
    pub transaction_id: String,
    pub sender: String,
    pub recipient: Address,
    pub amount: i128,
    pub source_chain: String,
    pub dest_chain: String,
    pub status: TransactionStatus,
    pub created_at: u64,
    pub updated_at: u64,
}

impl Clone for Transaction {
    fn clone(&self) -> (res: Self)
        ensures
            res == *self,
    {
        Transaction {
            transaction_id: self.transaction_id.clone(),
            sender: self.sender.clone(),
            recipient: self.recipient.clone(),
            amount: self.amount,
            source_chain: self.source_chain.clone(),
            dest_chain: self.dest_chain.clone(),
            status: self.status,
            created_at: self.created_at,
            updated_at: self.updated_at,
        }
    }
}

/// A WASM upgrade recorded by `propose_upgrade`, executable from ledger
/// `earliest_ledger` on.
#[derive(Clone, Copy, Debug, PartialEq, Eq)]
pub struct PendingUpgrade {
    pub new_wasm_hash: [u8; 32],
    pub expected_schema_version: u32,
    pub earliest_ledger: u32,
}

/// The ledger an invocation runs in.
#[derive(Clone, Copy, Debug, PartialEq, Eq)]
pub struct LedgerInfo {
    pub timestamp: u64,
    pub sequence: u32,
}

} // verus!
