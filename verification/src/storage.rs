use vstd::prelude::*;

use crate::env::{Env, EnvView};
use crate::errors::Error;
use crate::table::{find_last, keyed_map, upsert, Keyed};
use crate::types::{Address, PendingUpgrade, Transaction, TransactionStatus};

verus! {

/// Lifetime, in ledgers, of the temporary fence `register_callback` sets
/// (about 24 hours at 5 seconds a ledger).
pub const CALLBACK_SEEN_TTL: u32 = 17_280;

/// Ledgers that must pass between `propose_upgrade` and `execute_upgrade`
/// (about 48 hours).
pub const UPGRADE_TIMELOCK_LEDGERS: u32 = 34_560;

/// Temporary idempotency fence of `register_callback`: readable up to and
/// including ledger `live_until`.
#[derive(Debug)]
pub struct CallbackFence {
    pub transaction_id: String,
    pub live_until: u64,
}

impl Keyed for Transaction {
    open spec fn key(&self) -> Seq<char> {
        self.transaction_id@
    }

    fn key_text(&self) -> (r: &String) {
        &self.transaction_id
    }
}

impl Keyed for CallbackFence {
    open spec fn key(&self) -> Seq<char> {
        self.transaction_id@
    }

    fn key_text(&self) -> (r: &String) {
        &self.transaction_id
    }
}

/// The contract's storage: the instance entries (configuration), the
/// persistent transaction records and the temporary callback fences.
pub struct Storage {
    pub admin: Option<Address>,
    pub pending_admin: Option<Address>,
    pub relay_signer: Option<Address>,
    pub paused: Option<bool>,
    pub schema_version: Option<u32>,
    pub pending_upgrade: Option<PendingUpgrade>,
    pub transactions: Vec<Transaction>,
    pub callback_seen: Vec<CallbackFence>,
}

pub struct StorageView {
    pub admin: Option<Address>,
    pub pending_admin: Option<Address>,
    pub relay_signer: Option<Address>,
    pub paused: Option<bool>,
    pub schema_version: Option<u32>,
    pub pending_upgrade: Option<PendingUpgrade>,
    /// Transaction records by transaction id.
    pub transactions: Map<Seq<char>, Transaction>,
    /// Callback fences by transaction id.
    pub callback_seen: Map<Seq<char>, CallbackFence>,
}

impl View for Storage {
    type V = StorageView;

    open spec fn view(&self) -> StorageView {
        StorageView {
            admin: self.admin,
            pending_admin: self.pending_admin,
            relay_signer: self.relay_signer,
            paused: self.paused,
            schema_version: self.schema_version,
            pending_upgrade: self.pending_upgrade,
            transactions: keyed_map(self.transactions@),
            callback_seen: keyed_map(self.callback_seen@),
        }
    }
}

impl StorageView {
    pub open spec fn empty() -> StorageView {
        StorageView {
            admin: None,
            pending_admin: None,
            relay_signer: None,
            paused: None,
            schema_version: None,
            pending_upgrade: None,
            transactions: Map::empty(),
            callback_seen: Map::empty(),
        }
    }

    /// The pause flag; an unset flag reads as not paused.
    pub open spec fn paused_flag(self) -> bool {
        self.paused == Some(true)
    }

    /// The record stored under `id`.
    pub open spec fn tx(self, id: Seq<char>) -> Option<Transaction> {
        if self.transactions.contains_key(id) {
            Some(self.transactions[id])
        } else {
            None
        }
    }

    /// Whether the callback fence of `id` is still readable at ledger `sequence`.
    pub open spec fn fence_live(self, id: Seq<char>, sequence: u32) -> bool {
        self.callback_seen.contains_key(id) && self.callback_seen[id].live_until >= sequence
    }
}

impl Storage {
    pub fn empty() -> (s: Storage)
        ensures
            s@ == StorageView::empty(),
    {
        let s = Storage {
            admin: None,
            pending_admin: None,
            relay_signer: None,
            paused: None,
            schema_version: None,
            pending_upgrade: None,
            transactions: Vec::new(),
            callback_seen: Vec::new(),
        };
        assert(s@.transactions =~= Map::empty());
        assert(s@.callback_seen =~= Map::empty());
        s
    }
}

/// The state machine of a deposit:
/// Pending -> Confirmed -> Completed,
/// Pending | Confirmed -> Failed,
/// Pending | Confirmed -> Refunded.
pub open spec fn transition_allowed(from: TransactionStatus, to: TransactionStatus) -> bool {
    match (from, to) {
        (TransactionStatus::Pending, TransactionStatus::Confirmed) => true,
        (TransactionStatus::Pending, TransactionStatus::Failed) => true,
        (TransactionStatus::Pending, TransactionStatus::Refunded) => true,
        (TransactionStatus::Confirmed, TransactionStatus::Completed) => true,
        (TransactionStatus::Confirmed, TransactionStatus::Failed) => true,
        (TransactionStatus::Confirmed, TransactionStatus::Refunded) => true,
        _ => false,
    }
}

pub fn has_admin(env: &Env) -> (r: bool)
    ensures
        r == env@.storage.admin is Some,
{
    env.storage.admin.is_some()
}

pub fn get_admin(env: &Env) -> (r: Result<Address, Error>)
    ensures
        r == match env@.storage.admin {
            Some(a) => Ok(a),
            None => Err(Error::NotInitialized),
        },
{
    match &env.storage.admin {
        Some(a) => Ok(a.clone()),
        None => Err(Error::NotInitialized),
    }
}

pub fn set_admin(env: &mut Env, admin: &Address)
    ensures
        final(env)@ == old(env)@.with_storage(
            StorageView { admin: Some(*admin), ..old(env)@.storage },
        ),
{
    env.storage.admin = Some(admin.clone());
}

pub fn get_pending_admin(env: &Env) -> (r: Result<Address, Error>)
    ensures
        r == match env@.storage.pending_admin {
            Some(a) => Ok(a),
            None => Err(Error::NoPendingAdmin),
        },
{
    match &env.storage.pending_admin {
        Some(a) => Ok(a.clone()),
        None => Err(Error::NoPendingAdmin),
    }
}

pub fn set_pending_admin(env: &mut Env, pending_admin: &Address)
    ensures
        final(env)@ == old(env)@.with_storage(
            StorageView { pending_admin: Some(*pending_admin), ..old(env)@.storage },
        ),
{
    env.storage.pending_admin = Some(pending_admin.clone());
}

pub fn clear_pending_admin(env: &mut Env)
    ensures
        final(env)@ == old(env)@.with_storage(
            StorageView { pending_admin: None, ..old(env)@.storage },
        ),
{
    env.storage.pending_admin = None;
}

pub fn get_relay_signer(env: &Env) -> (r: Result<Address, Error>)
    ensures
        r == match env@.storage.relay_signer {
            Some(a) => Ok(a),
            None => Err(Error::NotInitialized),
        },
{
    match &env.storage.relay_signer {
        Some(a) => Ok(a.clone()),
        None => Err(Error::NotInitialized),
    }
}

pub fn set_relay_signer(env: &mut Env, relay_signer: &Address)
    ensures
        final(env)@ == old(env)@.with_storage(
            StorageView { relay_signer: Some(*relay_signer), ..old(env)@.storage },
        ),
{
    env.storage.relay_signer = Some(relay_signer.clone());
}

pub fn is_paused(env: &Env) -> (r: bool)
    ensures
        r == env@.storage.paused_flag(),
{
    match env.storage.paused {
        Some(p) => p,
        None => false,
    }
}

pub fn set_paused(env: &mut Env, paused: bool)
    ensures
        final(env)@ == old(env)@.with_storage(
            StorageView { paused: Some(paused), ..old(env)@.storage },
        ),
{
    env.storage.paused = Some(paused);
}

pub fn require_not_paused(env: &Env) -> (r: Result<(), Error>)
    ensures
        r == if env@.storage.paused_flag() {
            Err(Error::ContractPaused)
        } else {
            Ok(())
        },
{
    if is_paused(env) {
        return Err(Error::ContractPaused);
    }
    Ok(())
}

pub fn get_schema_version(env: &Env) -> (r: Result<u32, Error>)
    ensures
        r == match env@.storage.schema_version {
            Some(v) => Ok(v),
            None => Err(Error::NotInitialized),
        },
{
    match env.storage.schema_version {
        Some(v) => Ok(v),
        None => Err(Error::NotInitialized),
    }
}

pub fn set_schema_version(env: &mut Env, version: u32)
    ensures
        final(env)@ == old(env)@.with_storage(
            StorageView { schema_version: Some(version), ..old(env)@.storage },
        ),
{
    env.storage.schema_version = Some(version);
}

pub fn get_pending_upgrade(env: &Env) -> (r: Result<PendingUpgrade, Error>)
    ensures
        r == match env@.storage.pending_upgrade {
            Some(p) => Ok(p),
            None => Err(Error::NoPendingUpgrade),
        },
{
    match env.storage.pending_upgrade {
        Some(p) => Ok(p),
        None => Err(Error::NoPendingUpgrade),
    }
}

pub fn set_pending_upgrade(env: &mut Env, pending: &PendingUpgrade)
    ensures
        final(env)@ == old(env)@.with_storage(
            StorageView { pending_upgrade: Some(*pending), ..old(env)@.storage },
        ),
{
    env.storage.pending_upgrade = Some(*pending);
}

pub fn clear_pending_upgrade(env: &mut Env)
    ensures
        final(env)@ == old(env)@.with_storage(
            StorageView { pending_upgrade: None, ..old(env)@.storage },
        ),
{
    env.storage.pending_upgrade = None;
}

pub fn has_transaction(env: &Env, transaction_id: &String) -> (r: bool)
    ensures
        r == env@.storage.transactions.contains_key(transaction_id@),
{
    find_last(&env.storage.transactions, transaction_id).is_some()
}

pub fn get_transaction(env: &Env, transaction_id: &String) -> (r: Result<Transaction, Error>)
    ensures
        r == match env@.storage.tx(transaction_id@) {
            Some(t) => Ok(t),
            None => Err(Error::TransactionNotFound),
        },
        r matches Ok(t) ==> t.transaction_id@ == transaction_id@,
{
    match find_last(&env.storage.transactions, transaction_id) {
        Some(i) => Ok(env.storage.transactions[i].clone()),
        None => Err(Error::TransactionNotFound),
    }
}

pub fn set_transaction(env: &mut Env, tx: &Transaction)
    ensures
        final(env)@ == old(env)@.with_storage(
            StorageView {
                transactions: old(env)@.storage.transactions.insert(tx.transaction_id@, *tx),
                ..old(env)@.storage
            },
        ),
{
    upsert(&mut env.storage.transactions, tx.clone());
}

/// Whether the callback fence of `transaction_id` is still readable.
pub fn has_callback_fence(env: &Env, transaction_id: &String) -> (r: bool)
    ensures
        r == env@.storage.fence_live(transaction_id@, env@.ledger.sequence),
{
    match find_last(&env.storage.callback_seen, transaction_id) {
        Some(i) => env.storage.callback_seen[i].live_until >= env.ledger.sequence as u64,
        None => false,
    }
}

/// Refuses every status change that the state machine does not allow.
pub fn assert_transition(from: &TransactionStatus, to: &TransactionStatus) -> (r: Result<(), Error>)
    ensures
        r == if transition_allowed(*from, *to) {
            Ok::<(), Error>(())
        } else {
            Err(Error::InvalidStateTransition)
        },
{
    let allowed = match (from, to) {
        (TransactionStatus::Pending, TransactionStatus::Confirmed) => true,
        (TransactionStatus::Pending, TransactionStatus::Failed) => true,
        (TransactionStatus::Pending, TransactionStatus::Refunded) => true,
        (TransactionStatus::Confirmed, TransactionStatus::Completed) => true,
        (TransactionStatus::Confirmed, TransactionStatus::Failed) => true,
        (TransactionStatus::Confirmed, TransactionStatus::Refunded) => true,
        _ => false,
    };
    if allowed {
        Ok(())
    } else {
        Err(Error::InvalidStateTransition)
    }
}

/// Idempotency guard of `register_callback`. A call is a duplicate when the
/// transaction is already completed (the durable guard) or when its fence is
/// still readable (the temporary guard). Otherwise the fence is set for
/// `CALLBACK_SEEN_TTL` ledgers and the call is not a duplicate.
pub fn check_and_mark_callback_seen(
    env: &mut Env,
    transaction_id: &String,
    already_completed: bool,
) -> (duplicate: bool)
    ensures
        duplicate == (already_completed || old(env)@.storage.fence_live(
            transaction_id@,
            old(env)@.ledger.sequence,
        )),
        final(env)@ == if duplicate {
            old(env)@
        } else {
            old(env)@.with_storage(
                StorageView {
                    callback_seen: old(env)@.storage.callback_seen.insert(
                        transaction_id@,
                        CallbackFence {
                            transaction_id: *transaction_id,
                            live_until: (old(env)@.ledger.sequence + CALLBACK_SEEN_TTL) as u64,
                        },
                    ),
                    ..old(env)@.storage
                },
            )
        },
{
    if already_completed {
        return true;
    }
    if has_callback_fence(env, transaction_id) {
        return true;
    }
    let live_until: u64 = env.ledger.sequence as u64 + CALLBACK_SEEN_TTL as u64;
    upsert(
        &mut env.storage.callback_seen,
        CallbackFence { transaction_id: transaction_id.clone(), live_until },
    );
    false
}

} // verus!
