//! The contract's entry points. Each one is an invocation: it starts from a
//! fresh event log and, when it fails, writes nothing.
use vstd::prelude::*;

use crate::admin::{
    self, accept_admin_auth_log, accept_admin_outcome, admin_auth_log, execute_upgrade_outcome,
    execute_upgrade_reaches_bump, pause_outcome, propose_admin_outcome, propose_upgrade_outcome,
    propose_upgrade_reaches_timelock, set_relay_signer_outcome,
};
use crate::env::{after, result_of, Effect, Env, EnvView};
use crate::errors::Error;
use crate::events::{
    self, ContractEvent, Initialized, TransactionCompleted, TransactionConfirmed, TransactionFailed,
    TransactionRefunded, TransactionRegistered,
};
use crate::storage::{
    self, transition_allowed, CallbackFence, StorageView, CALLBACK_SEEN_TTL,
    UPGRADE_TIMELOCK_LEDGERS,
};
use crate::types::{Address, PendingUpgrade, Transaction, TransactionStatus, SCHEMA_VERSION};
use crate::validation::{self, valid_string_len};

verus! {

broadcast use {crate::env::lemma_push_is_concat, crate::env::lemma_concat_empty};

/// The bridge's on-chain record of deposits and their lifecycle.
pub struct PulsarCoreContract;

/// The relay signer, when it authorized the invocation and the contract is
/// not paused.
pub open spec fn relay_gate(m: EnvView) -> Result<Address, Error> {
    match m.storage.relay_signer {
        None => Err(Error::NotInitialized),
        Some(r) => if !m.authorizes(r) {
            Err(Error::Unauthorized)
        } else if m.storage.paused_flag() {
            Err(Error::ContractPaused)
        } else {
            Ok(r)
        },
    }
}

/// The authorization a relay-signer operation requires.
pub open spec fn relay_auth_log(m: EnvView) -> Seq<Address> {
    match m.storage.relay_signer {
        None => Seq::empty(),
        Some(r) => seq![r],
    }
}

pub open spec fn initialize_outcome(m: EnvView, admin: Address, relay_signer: Address) -> Result<
    Effect,
    Error,
> {
    if m.storage.admin is Some {
        Err(Error::AlreadyInitialized)
    } else {
        Ok(
            Effect::writes(
                StorageView {
                    admin: Some(admin),
                    relay_signer: Some(relay_signer),
                    paused: Some(false),
                    schema_version: Some(SCHEMA_VERSION),
                    ..m.storage
                },
                seq![
                    ContractEvent::Initialized(
                        Initialized { admin, relay_signer, schema_version: SCHEMA_VERSION },
                    ),
                ],
            ),
        )
    }
}

/// The record `register_transaction` creates.
pub open spec fn registered_transaction(
    transaction_id: String,
    sender: String,
    recipient: Address,
    amount: i128,
    source_chain: String,
    dest_chain: String,
    now: u64,
) -> Transaction {
    Transaction {
        transaction_id,
        sender,
        recipient,
        amount,
        source_chain,
        dest_chain,
        status: TransactionStatus::Pending,
        created_at: now,
        updated_at: now,
    }
}

pub open spec fn register_outcome(
    m: EnvView,
    transaction_id: String,
    sender: String,
    recipient: Address,
    amount: i128,
    source_chain: String,
    dest_chain: String,
) -> Result<Effect, Error> {
    match relay_gate(m) {
        Err(e) => Err(e),
        Ok(_) => if !(valid_string_len(transaction_id@) && valid_string_len(sender@)
            && valid_string_len(source_chain@) && valid_string_len(dest_chain@) && amount > 0) {
            Err(Error::InvalidInput)
        } else if m.storage.transactions.contains_key(transaction_id@) {
            Err(Error::TransactionAlreadyExists)
        } else {
            let now = m.ledger.timestamp;
            Ok(
                Effect::writes(
                    StorageView {
                        transactions: m.storage.transactions.insert(
                            transaction_id@,
                            registered_transaction(
                                transaction_id,
                                sender,
                                recipient,
                                amount,
                                source_chain,
                                dest_chain,
                                now,
                            ),
                        ),
                        ..m.storage
                    },
                    seq![
                        ContractEvent::TransactionRegistered(
                            TransactionRegistered {
                                transaction_id,
                                sender,
                                recipient,
                                amount,
                                source_chain,
                                dest_chain,
                                created_at: now,
                            },
                        ),
                    ],
                ),
            )
        },
    }
}

/// The storage after the record of `id` moves to `to`, when the state
/// machine allows it.
pub open spec fn transition_outcome(m: EnvView, id: Seq<char>, to: TransactionStatus) -> Result<
    StorageView,
    Error,
> {
    match m.storage.tx(id) {
        None => Err(Error::TransactionNotFound),
        Some(tx) => if transition_allowed(tx.status, to) {
            Ok(
                StorageView {
                    transactions: m.storage.transactions.insert(
                        id,
                        Transaction { status: to, updated_at: m.ledger.timestamp, ..tx },
                    ),
                    ..m.storage
                },
            )
        } else {
            Err(Error::InvalidStateTransition)
        },
    }
}

/// A relay-signer status change publishing `event` once it succeeds.
pub open spec fn relay_transition_outcome(
    m: EnvView,
    id: Seq<char>,
    to: TransactionStatus,
    event: ContractEvent,
) -> Result<Effect, Error> {
    match relay_gate(m) {
        Err(e) => Err(e),
        Ok(_) => match transition_outcome(m, id, to) {
            Err(e) => Err(e),
            Ok(s) => Ok(Effect::writes(s, seq![event])),
        },
    }
}

pub open spec fn confirm_outcome(m: EnvView, transaction_id: String) -> Result<Effect, Error> {
    relay_transition_outcome(
        m,
        transaction_id@,
        TransactionStatus::Confirmed,
        ContractEvent::TransactionConfirmed(
            TransactionConfirmed { transaction_id, updated_at: m.ledger.timestamp },
        ),
    )
}

pub open spec fn fail_outcome(m: EnvView, transaction_id: String, reason: String) -> Result<
    Effect,
    Error,
> {
    match relay_gate(m) {
        Err(e) => Err(e),
        Ok(_) => if !valid_string_len(reason@) {
            Err(Error::InvalidInput)
        } else {
            relay_transition_outcome(
                m,
                transaction_id@,
                TransactionStatus::Failed,
                ContractEvent::TransactionFailed(
                    TransactionFailed { transaction_id, reason, updated_at: m.ledger.timestamp },
                ),
            )
        },
    }
}

pub open spec fn refund_outcome(m: EnvView, transaction_id: String) -> Result<Effect, Error> {
    relay_transition_outcome(
        m,
        transaction_id@,
        TransactionStatus::Refunded,
        ContractEvent::TransactionRefunded(
            TransactionRefunded { transaction_id, updated_at: m.ledger.timestamp },
        ),
    )
}

/// Whether a completion callback for `id` is a duplicate delivery: the
/// record is already completed, or the fence of an earlier delivery is
/// still readable.
pub open spec fn callback_is_duplicate(m: EnvView, id: Seq<char>) -> bool {
    (m.storage.tx(id) matches Some(tx) && tx.status == TransactionStatus::Completed)
        || m.storage.fence_live(id, m.ledger.sequence)
}

pub open spec fn callback_outcome(m: EnvView, transaction_id: String) -> Result<Effect, Error> {
    match relay_gate(m) {
        Err(e) => Err(e),
        Ok(_) => match m.storage.tx(transaction_id@) {
            None => Err(Error::TransactionNotFound),
            Some(tx) => if callback_is_duplicate(m, transaction_id@) {
                Ok(Effect::writes(m.storage, Seq::empty()))
            } else {
                match transition_outcome(m, transaction_id@, TransactionStatus::Completed) {
                    Err(e) => Err(e),
                    Ok(s) => Ok(
                        Effect::writes(
                            StorageView {
                                callback_seen: s.callback_seen.insert(
                                    transaction_id@,
                                    CallbackFence {
                                        transaction_id,
                                        live_until: (m.ledger.sequence + CALLBACK_SEEN_TTL) as u64,
                                    },
                                ),
                                ..s
                            },
                            seq![
                                ContractEvent::TransactionCompleted(
                                    TransactionCompleted {
                                        transaction_id,
                                        updated_at: m.ledger.timestamp,
                                    },
                                ),
                            ],
                        ),
                    ),
                }
            },
        },
    }
}

/// The relay signer's checks that open every lifecycle entry point.
fn require_relay(env: &mut Env) -> (r: Result<Address, Error>)
    ensures
        r == relay_gate(old(env)@),
        final(env)@ == (EnvView {
            auth_log: old(env)@.auth_log + relay_auth_log(old(env)@),
            ..old(env)@
        }),
{
    let relay_signer = storage::get_relay_signer(env)?;
    env.require_auth(&relay_signer)?;
    storage::require_not_paused(env)?;
    Ok(relay_signer)
}

impl PulsarCoreContract {
    /// One-time setup: records the admin and the relay signer, unpaused, at
    /// schema version `SCHEMA_VERSION`.
    pub fn initialize(env: &mut Env, admin: Address, relay_signer: Address) -> (r: Result<(), Error>)
        ensures
            r == result_of(initialize_outcome(old(env)@.fresh(), admin, relay_signer)),
            final(env)@ == after(
                old(env)@.fresh(),
                Seq::empty(),
                initialize_outcome(old(env)@.fresh(), admin, relay_signer),
            ),
    {
        env.begin_invocation();
        if storage::has_admin(env) {
            return Err(Error::AlreadyInitialized);
        }
        storage::set_admin(env, &admin);
        storage::set_relay_signer(env, &relay_signer);
        storage::set_paused(env, false);
        storage::set_schema_version(env, SCHEMA_VERSION);
        events::initialized(env, &admin, &relay_signer, SCHEMA_VERSION);
        Ok(())
    }

    /// Registers a new deposit in `Pending` status.
    pub fn register_transaction(
        env: &mut Env,
        transaction_id: String,
        sender: String,
        recipient: Address,
        amount: i128,
        source_chain: String,
        dest_chain: String,
    ) -> (r: Result<(), Error>)
        ensures
            r == result_of(
                register_outcome(
                    old(env)@.fresh(),
                    transaction_id,
                    sender,
                    recipient,
                    amount,
                    source_chain,
                    dest_chain,
                ),
            ),
            final(env)@ == after(
                old(env)@.fresh(),
                relay_auth_log(old(env)@),
                register_outcome(
                    old(env)@.fresh(),
                    transaction_id,
                    sender,
                    recipient,
                    amount,
                    source_chain,
                    dest_chain,
                ),
            ),
    {
        env.begin_invocation();
        require_relay(env)?;
        validation::validate_string_len(&transaction_id)?;
        validation::validate_string_len(&sender)?;
        validation::validate_string_len(&source_chain)?;
        validation::validate_string_len(&dest_chain)?;
        validation::validate_amount(amount)?;
        if storage::has_transaction(env, &transaction_id) {
            return Err(Error::TransactionAlreadyExists);
        }
        let now = env.ledger.timestamp;
        let tx = Transaction {
            transaction_id: transaction_id.clone(),
            sender: sender.clone(),
            recipient: recipient.clone(),
            amount,
            source_chain: source_chain.clone(),
            dest_chain: dest_chain.clone(),
            status: TransactionStatus::Pending,
            created_at: now,
            updated_at: now,
        };
        storage::set_transaction(env, &tx);
        events::transaction_registered(
            env,
            &transaction_id,
            &sender,
            &recipient,
            amount,
            &source_chain,
            &dest_chain,
            now,
        );
        Ok(())
    }

    /// Moves a `Pending` deposit to `Confirmed`.
    pub fn confirm_transaction(env: &mut Env, transaction_id: String) -> (r: Result<(), Error>)
        ensures
            r == result_of(confirm_outcome(old(env)@.fresh(), transaction_id)),
            final(env)@ == after(
                old(env)@.fresh(),
                relay_auth_log(old(env)@),
                confirm_outcome(old(env)@.fresh(), transaction_id),
            ),
    {
        env.begin_invocation();
        require_relay(env)?;
        Self::transition(env, &transaction_id, TransactionStatus::Confirmed)?;
        let now = env.ledger.timestamp;
        events::transaction_confirmed(env, &transaction_id, now);
        Ok(())
    }

    /// Idempotent completion callback: moves a `Confirmed` deposit to
    /// `Completed`; a duplicate delivery succeeds without writing or
    /// publishing anything.
    pub fn register_callback(env: &mut Env, transaction_id: String) -> (r: Result<(), Error>)
        ensures
            r == result_of(callback_outcome(old(env)@.fresh(), transaction_id)),
            final(env)@ == after(
                old(env)@.fresh(),
                relay_auth_log(old(env)@),
                callback_outcome(old(env)@.fresh(), transaction_id),
            ),
    {
        env.begin_invocation();
        require_relay(env)?;
        let tx = storage::get_transaction(env, &transaction_id)?;
        let already_completed = tx.status == TransactionStatus::Completed;
        if !already_completed && !storage::has_callback_fence(env, &transaction_id) {
            // A failed invocation leaves no write behind, the fence included,
            // so the transition is checked before the fence is set.
            storage::assert_transition(&tx.status, &TransactionStatus::Completed)?;
        }
        if storage::check_and_mark_callback_seen(env, &transaction_id, already_completed) {
            // Duplicate delivery: no write, no event.
            return Ok(());
        }
        Self::transition(env, &transaction_id, TransactionStatus::Completed)?;
        let now = env.ledger.timestamp;
        events::transaction_completed(env, &transaction_id, now);
        Ok(())
    }

    /// Moves a `Pending` or `Confirmed` deposit to `Failed`, with a reason.
    pub fn fail_transaction(env: &mut Env, transaction_id: String, reason: String) -> (r: Result<
        (),
        Error,
    >)
        ensures
            r == result_of(fail_outcome(old(env)@.fresh(), transaction_id, reason)),
            final(env)@ == after(
                old(env)@.fresh(),
                relay_auth_log(old(env)@),
                fail_outcome(old(env)@.fresh(), transaction_id, reason),
            ),
    {
        env.begin_invocation();
        require_relay(env)?;
        validation::validate_string_len(&reason)?;
        Self::transition(env, &transaction_id, TransactionStatus::Failed)?;
        let now = env.ledger.timestamp;
        events::transaction_failed(env, &transaction_id, &reason, now);
        Ok(())
    }

    /// Moves a `Pending` or `Confirmed` deposit to `Refunded`.
    pub fn refund_transaction(env: &mut Env, transaction_id: String) -> (r: Result<(), Error>)
        ensures
            r == result_of(refund_outcome(old(env)@.fresh(), transaction_id)),
            final(env)@ == after(
                old(env)@.fresh(),
                relay_auth_log(old(env)@),
                refund_outcome(old(env)@.fresh(), transaction_id),
            ),
    {
        env.begin_invocation();
        require_relay(env)?;
        Self::transition(env, &transaction_id, TransactionStatus::Refunded)?;
        let now = env.ledger.timestamp;
        events::transaction_refunded(env, &transaction_id, now);
        Ok(())
    }

    pub fn get_transaction(env: &Env, transaction_id: String) -> (r: Result<Transaction, Error>)
        ensures
            r == match env@.storage.tx(transaction_id@) {
                Some(t) => Ok(t),
                None => Err(Error::TransactionNotFound),
            },
    {
        storage::get_transaction(env, &transaction_id)
    }

    pub fn get_admin(env: &Env) -> (r: Result<Address, Error>)
        ensures
            r == match env@.storage.admin {
                Some(a) => Ok(a),
                None => Err(Error::NotInitialized),
            },
    {
        storage::get_admin(env)
    }

    pub fn get_pending_admin(env: &Env) -> (r: Result<Address, Error>)
        ensures
            r == match env@.storage.pending_admin {
                Some(a) => Ok(a),
                None => Err(Error::NoPendingAdmin),
            },
    {
        storage::get_pending_admin(env)
    }

    pub fn get_relay_signer(env: &Env) -> (r: Result<Address, Error>)
        ensures
            r == match env@.storage.relay_signer {
                Some(a) => Ok(a),
                None => Err(Error::NotInitialized),
            },
    {
        storage::get_relay_signer(env)
    }

    pub fn is_paused(env: &Env) -> (r: bool)
        ensures
            r == env@.storage.paused_flag(),
    {
        storage::is_paused(env)
    }

    pub fn schema_version(env: &Env) -> (r: Result<u32, Error>)
        ensures
            r == match env@.storage.schema_version {
                Some(v) => Ok(v),
                None => Err(Error::NotInitialized),
            },
    {
        storage::get_schema_version(env)
    }

    pub fn get_pending_upgrade(env: &Env) -> (r: Result<PendingUpgrade, Error>)
        ensures
            r == match env@.storage.pending_upgrade {
                Some(p) => Ok(p),
                None => Err(Error::NoPendingUpgrade),
            },
    {
        storage::get_pending_upgrade(env)
    }

    pub fn pause(env: &mut Env) -> (r: Result<(), Error>)
        ensures
            r == result_of(pause_outcome(old(env)@.fresh(), true)),
            final(env)@ == after(
                old(env)@.fresh(),
                admin_auth_log(old(env)@),
                pause_outcome(old(env)@.fresh(), true),
            ),
    {
        env.begin_invocation();
        admin::pause(env)
    }

    pub fn unpause(env: &mut Env) -> (r: Result<(), Error>)
        ensures
            r == result_of(pause_outcome(old(env)@.fresh(), false)),
            final(env)@ == after(
                old(env)@.fresh(),
                admin_auth_log(old(env)@),
                pause_outcome(old(env)@.fresh(), false),
            ),
    {
        env.begin_invocation();
        admin::unpause(env)
    }

    pub fn propose_admin(env: &mut Env, new_admin: Address) -> (r: Result<(), Error>)
        ensures
            r == result_of(propose_admin_outcome(old(env)@.fresh(), new_admin)),
            final(env)@ == after(
                old(env)@.fresh(),
                admin_auth_log(old(env)@),
                propose_admin_outcome(old(env)@.fresh(), new_admin),
            ),
    {
        env.begin_invocation();
        admin::propose_admin(env, new_admin)
    }

    pub fn accept_admin(env: &mut Env) -> (r: Result<(), Error>)
        ensures
            r == result_of(accept_admin_outcome(old(env)@.fresh())),
            final(env)@ == after(
                old(env)@.fresh(),
                accept_admin_auth_log(old(env)@),
                accept_admin_outcome(old(env)@.fresh()),
            ),
    {
        env.begin_invocation();
        admin::accept_admin(env)
    }

    pub fn set_relay_signer(env: &mut Env, new_relay_signer: Address) -> (r: Result<(), Error>)
        ensures
            r == result_of(set_relay_signer_outcome(old(env)@.fresh(), new_relay_signer)),
            final(env)@ == after(
                old(env)@.fresh(),
                admin_auth_log(old(env)@),
                set_relay_signer_outcome(old(env)@.fresh(), new_relay_signer),
            ),
    {
        env.begin_invocation();
        admin::set_relay_signer(env, new_relay_signer)
    }

    pub fn propose_upgrade(
        env: &mut Env,
        new_wasm_hash: [u8; 32],
        expected_schema_version: u32,
    ) -> (r: Result<(), Error>)
        requires
            propose_upgrade_reaches_timelock(old(env)@, expected_schema_version)
                ==> old(env)@.ledger.sequence + UPGRADE_TIMELOCK_LEDGERS <= u32::MAX,
        ensures
            r == result_of(
                propose_upgrade_outcome(old(env)@.fresh(), new_wasm_hash, expected_schema_version),
            ),
            final(env)@ == after(
                old(env)@.fresh(),
                admin_auth_log(old(env)@),
                propose_upgrade_outcome(old(env)@.fresh(), new_wasm_hash, expected_schema_version),
            ),
    {
        env.begin_invocation();
        admin::propose_upgrade(env, new_wasm_hash, expected_schema_version)
    }

    pub fn execute_upgrade(env: &mut Env) -> (r: Result<(), Error>)
        requires
            execute_upgrade_reaches_bump(old(env)@) ==> old(
                env,
            )@.storage.schema_version.unwrap() < u32::MAX,
        ensures
            r == result_of(execute_upgrade_outcome(old(env)@.fresh())),
            final(env)@ == after(
                old(env)@.fresh(),
                admin_auth_log(old(env)@),
                execute_upgrade_outcome(old(env)@.fresh()),
            ),
    {
        env.begin_invocation();
        admin::execute_upgrade(env)
    }

    /// Shared state-machine guard and persist step of every status change.
    fn transition(env: &mut Env, transaction_id: &String, to: TransactionStatus) -> (r: Result<
        (),
        Error,
    >)
        ensures
            r == match transition_outcome(old(env)@, transaction_id@, to) {
                Ok(_) => Ok::<(), Error>(()),
                Err(e) => Err(e),
            },
            final(env)@ == match transition_outcome(old(env)@, transaction_id@, to) {
                Ok(s) => old(env)@.with_storage(s),
                Err(_) => old(env)@,
            },
    {
        let mut tx = storage::get_transaction(env, transaction_id)?;
        storage::assert_transition(&tx.status, &to)?;
        tx.status = to;
        tx.updated_at = env.ledger.timestamp;
        storage::set_transaction(env, &tx);
        Ok(())
    }
}

} // verus!
