//! What holds of the contract across all of its entry points and across
//! successive invocations.
use vstd::prelude::*;

use crate::admin::{
    accept_admin_auth_log, accept_admin_outcome, admin_auth_log, admin_gate,
    execute_upgrade_outcome, pause_outcome, propose_admin_outcome, propose_upgrade_outcome,
    set_relay_signer_outcome,
};
use crate::contract::{
    callback_is_duplicate, callback_outcome, confirm_outcome, fail_outcome, initialize_outcome,
    refund_outcome, register_outcome, registered_transaction, relay_auth_log, relay_gate,
    transition_outcome,
};
use crate::env::{after, lemma_same_signers, result_of, Effect, EnvView};
use crate::errors::Error;
use crate::events::{ContractEvent, TransactionFailed};
use crate::storage::{transition_allowed, StorageView, UPGRADE_TIMELOCK_LEDGERS};
use crate::types::{Address, Transaction, TransactionStatus, SCHEMA_VERSION};
use crate::validation::valid_string_len;

verus! {

/// One invocation of an entry point that writes, with its arguments.
pub enum Invocation {
    Initialize { admin: Address, relay_signer: Address },
    RegisterTransaction {
        transaction_id: String,
        sender: String,
        recipient: Address,
        amount: i128,
        source_chain: String,
        dest_chain: String,
    },
    ConfirmTransaction { transaction_id: String },
    RegisterCallback { transaction_id: String },
    FailTransaction { transaction_id: String, reason: String },
    RefundTransaction { transaction_id: String },
    Pause,
    Unpause,
    ProposeAdmin { new_admin: Address },
    AcceptAdmin,
    SetRelaySigner { new_relay_signer: Address },
    ProposeUpgrade { new_wasm_hash: [u8; 32], expected_schema_version: u32 },
    ExecuteUpgrade,
}

/// How an invocation ends, from the environment it starts in.
pub open spec fn outcome(m: EnvView, call: Invocation) -> Result<Effect, Error> {
    match call {
        Invocation::Initialize { admin, relay_signer } => initialize_outcome(m, admin, relay_signer),
        Invocation::RegisterTransaction {
            transaction_id,
            sender,
            recipient,
            amount,
            source_chain,
            dest_chain,
        } => register_outcome(m, transaction_id, sender, recipient, amount, source_chain, dest_chain),
        Invocation::ConfirmTransaction { transaction_id } => confirm_outcome(m, transaction_id),
        Invocation::RegisterCallback { transaction_id } => callback_outcome(m, transaction_id),
        Invocation::FailTransaction { transaction_id, reason } => fail_outcome(
            m,
            transaction_id,
            reason,
        ),
        Invocation::RefundTransaction { transaction_id } => refund_outcome(m, transaction_id),
        Invocation::Pause => pause_outcome(m, true),
        Invocation::Unpause => pause_outcome(m, false),
        Invocation::ProposeAdmin { new_admin } => propose_admin_outcome(m, new_admin),
        Invocation::AcceptAdmin => accept_admin_outcome(m),
        Invocation::SetRelaySigner { new_relay_signer } => set_relay_signer_outcome(
            m,
            new_relay_signer,
        ),
        Invocation::ProposeUpgrade { new_wasm_hash, expected_schema_version } =>
            propose_upgrade_outcome(m, new_wasm_hash, expected_schema_version),
        Invocation::ExecuteUpgrade => execute_upgrade_outcome(m),
    }
}

/// The authorizations an invocation requires.
pub open spec fn required_auths(m: EnvView, call: Invocation) -> Seq<Address> {
    match call {
        Invocation::Initialize { .. } => Seq::empty(),
        Invocation::RegisterTransaction { .. } | Invocation::ConfirmTransaction { .. }
        | Invocation::RegisterCallback { .. } | Invocation::FailTransaction { .. }
        | Invocation::RefundTransaction { .. } => relay_auth_log(m),
        Invocation::AcceptAdmin => accept_admin_auth_log(m),
        _ => admin_auth_log(m),
    }
}

/// The environment an invocation leaves behind, as its entry point's
/// contract states it.
pub open spec fn invoke(m: EnvView, call: Invocation) -> EnvView {
    after(m.fresh(), required_auths(m, call), outcome(m.fresh(), call))
}

pub open spec fn is_relay_call(call: Invocation) -> bool {
    match call {
        Invocation::RegisterTransaction { .. } | Invocation::ConfirmTransaction { .. }
        | Invocation::RegisterCallback { .. } | Invocation::FailTransaction { .. }
        | Invocation::RefundTransaction { .. } => true,
        _ => false,
    }
}

pub open spec fn is_admin_call(call: Invocation) -> bool {
    match call {
        Invocation::Pause | Invocation::Unpause | Invocation::ProposeAdmin { .. }
        | Invocation::SetRelaySigner { .. } | Invocation::ProposeUpgrade { .. }
        | Invocation::ExecuteUpgrade => true,
        _ => false,
    }
}

pub open spec fn is_terminal(s: TransactionStatus) -> bool {
    s == TransactionStatus::Completed || s == TransactionStatus::Failed || s
        == TransactionStatus::Refunded
}

/// A stored record is keyed by its own id and carries validated fields.
pub open spec fn well_formed_record(id: Seq<char>, t: Transaction) -> bool {
    &&& t.transaction_id@ == id
    &&& valid_string_len(id)
    &&& valid_string_len(t.sender@)
    &&& valid_string_len(t.source_chain@)
    &&& valid_string_len(t.dest_chain@)
    &&& t.amount > 0
}

/// What every reachable storage satisfies: records are well formed, and a
/// callback fence only exists for a completed record.
pub open spec fn storage_invariant(s: StorageView) -> bool {
    &&& forall|id: Seq<char>| #[trigger]
        s.transactions.contains_key(id) ==> well_formed_record(id, s.transactions[id])
    &&& forall|id: Seq<char>| #[trigger]
        s.callback_seen.contains_key(id) ==> (s.tx(id) matches Some(t) && t.status
            == TransactionStatus::Completed)
}

/// Completed, Failed and Refunded are terminal: no status change leaves them.
pub proof fn lemma_terminal_statuses_are_final(from: TransactionStatus, to: TransactionStatus)
    requires
        is_terminal(from),
    ensures
        !transition_allowed(from, to),
{
}

/// No status change leads back to Pending, and no status changes to itself.
pub proof fn lemma_no_transition_back_to_pending(from: TransactionStatus, to: TransactionStatus)
    ensures
        !transition_allowed(from, TransactionStatus::Pending),
        !transition_allowed(to, to),
{
}

/// A failed invocation writes nothing, publishes nothing and does not touch
/// the contract's code.
pub proof fn lemma_failed_invocation_writes_nothing(m: EnvView, call: Invocation)
    requires
        outcome(m.fresh(), call) is Err,
    ensures
        invoke(m, call).storage == m.storage,
        invoke(m, call).events.len() == 0,
        invoke(m, call).wasm_update is None,
{
}

/// The empty storage of a new deployment satisfies the invariant.
pub proof fn lemma_empty_storage_invariant()
    ensures
        storage_invariant(StorageView::empty()),
{
}

proof fn lemma_transition_keeps_invariant(m: EnvView, id: Seq<char>, to: TransactionStatus)
    requires
        storage_invariant(m.storage),
        transition_outcome(m, id, to) is Ok,
    ensures
        storage_invariant(transition_outcome(m, id, to).unwrap()),
        to != TransactionStatus::Completed ==> !m.storage.callback_seen.contains_key(id),
{
    let s = transition_outcome(m, id, to).unwrap();
    let t = m.storage.transactions[id];
    assert forall|k: Seq<char>| #[trigger] s.transactions.contains_key(k) implies well_formed_record(
        k,
        s.transactions[k],
    ) by {
        if k != id {
            assert(m.storage.transactions.contains_key(k));
        }
    }
    assert forall|k: Seq<char>| #[trigger] s.callback_seen.contains_key(k) implies (s.tx(k) matches Some(
        t2,
    ) && t2.status == TransactionStatus::Completed) by {
        assert(m.storage.callback_seen.contains_key(k));
        if k == id {
            assert(m.storage.tx(k) matches Some(t3) && t3.status == TransactionStatus::Completed);
        }
    }
    if to != TransactionStatus::Completed && m.storage.callback_seen.contains_key(id) {
        assert(m.storage.tx(id) matches Some(t3) && t3.status == TransactionStatus::Completed);
    }
}

/// Every invocation keeps the storage invariant: each stored record has an
/// amount above zero and validated string fields, and is keyed by its own
/// id; a callback fence exists only for a completed record.
pub proof fn lemma_invariant_preserved(m: EnvView, call: Invocation)
    requires
        storage_invariant(m.storage),
    ensures
        storage_invariant(invoke(m, call).storage),
{
    let f = m.fresh();
    match call {
        Invocation::RegisterTransaction {
            transaction_id,
            sender,
            recipient,
            amount,
            source_chain,
            dest_chain,
        } => {
            if outcome(f, call) is Ok {
                let s = invoke(m, call).storage;
                let id = transaction_id@;
                assert forall|k: Seq<char>| #[trigger] s.transactions.contains_key(k) implies well_formed_record(
                    k,
                    s.transactions[k],
                ) by {
                    if k != id {
                        assert(m.storage.transactions.contains_key(k));
                    }
                }
                assert forall|k: Seq<char>| #[trigger] s.callback_seen.contains_key(k) implies (s.tx(
                    k,
                ) matches Some(t2) && t2.status == TransactionStatus::Completed) by {
                    assert(m.storage.callback_seen.contains_key(k));
                    assert(m.storage.tx(k) is Some);
                }
            }
        },
        Invocation::ConfirmTransaction { transaction_id } => {
            if outcome(f, call) is Ok {
                lemma_transition_keeps_invariant(f, transaction_id@, TransactionStatus::Confirmed);
            }
        },
        Invocation::FailTransaction { transaction_id, reason } => {
            if outcome(f, call) is Ok {
                lemma_transition_keeps_invariant(f, transaction_id@, TransactionStatus::Failed);
            }
        },
        Invocation::RefundTransaction { transaction_id } => {
            if outcome(f, call) is Ok {
                lemma_transition_keeps_invariant(f, transaction_id@, TransactionStatus::Refunded);
            }
        },
        Invocation::RegisterCallback { transaction_id } => {
            let id = transaction_id@;
            if outcome(f, call) is Ok && !callback_is_duplicate(f, id) {
                lemma_transition_keeps_invariant(f, id, TransactionStatus::Completed);
                let s = invoke(m, call).storage;
                let s1 = transition_outcome(f, id, TransactionStatus::Completed).unwrap();
                assert forall|k: Seq<char>| #[trigger] s.callback_seen.contains_key(k) implies (s.tx(
                    k,
                ) matches Some(t2) && t2.status == TransactionStatus::Completed) by {
                    if k != id {
                        assert(s1.callback_seen.contains_key(k));
                    }
                }
                assert(s.transactions == s1.transactions);
            }
        },
        _ => {},
    }
}

/// While the contract is paused, every relay-signer entry point is refused
/// with `ContractPaused` once the relay signer has authorized it.
pub proof fn lemma_pause_blocks_relay_calls(m: EnvView, call: Invocation)
    requires
        is_relay_call(call),
        m.storage.relay_signer matches Some(r) && m.authorizes(r),
        m.storage.paused_flag(),
    ensures
        outcome(m.fresh(), call) == Err::<Effect, Error>(Error::ContractPaused),
{
    lemma_same_signers(m, m.fresh(), m.storage.relay_signer.unwrap());
}

/// The pause flag has no bearing on the admin's entry points: whether they
/// succeed, and how they fail, is the same paused or not.
pub proof fn lemma_admin_calls_ignore_pause(m: EnvView, call: Invocation, paused: Option<bool>)
    requires
        is_admin_call(call) || call is AcceptAdmin,
    ensures
        result_of(outcome(m.with_storage(StorageView { paused, ..m.storage }).fresh(), call))
            == result_of(outcome(m.fresh(), call)),
{
    let m2 = m.with_storage(StorageView { paused, ..m.storage }).fresh();
    if let Some(a) = m.storage.admin {
        lemma_same_signers(m2, m.fresh(), a);
    }
    if let Some(p) = m.storage.pending_admin {
        lemma_same_signers(m2, m.fresh(), p);
    }
}

/// Relay-signer entry points are refused unless the stored relay signer
/// authorized them; admin entry points unless the stored admin did.
pub proof fn lemma_unauthorized_calls_fail(m: EnvView, call: Invocation)
    ensures
        is_relay_call(call) && (m.storage.relay_signer matches Some(r) && !m.authorizes(r))
            ==> outcome(m.fresh(), call) == Err::<Effect, Error>(Error::Unauthorized),
        is_admin_call(call) && (m.storage.admin matches Some(a) && !m.authorizes(a)) ==> outcome(
            m.fresh(),
            call,
        ) == Err::<Effect, Error>(Error::Unauthorized),
{
    if let Some(r) = m.storage.relay_signer {
        lemma_same_signers(m, m.fresh(), r);
    }
    if let Some(a) = m.storage.admin {
        lemma_same_signers(m, m.fresh(), a);
    }
}

/// `accept_admin` is authorized by the proposed admin, not by the current
/// one: without the proposed admin's authorization it is refused and the
/// admin stays as it is.
pub proof fn lemma_accept_admin_needs_proposed_admin(m: EnvView)
    requires
        m.storage.admin is Some,
        m.storage.pending_admin matches Some(p) && !m.authorizes(p),
    ensures
        outcome(m.fresh(), Invocation::AcceptAdmin) == Err::<Effect, Error>(Error::Unauthorized),
        invoke(m, Invocation::AcceptAdmin).storage.admin == m.storage.admin,
{
    lemma_same_signers(m, m.fresh(), m.storage.pending_admin.unwrap());
}

/// A record in a terminal status is never changed again, by any invocation.
pub proof fn lemma_terminal_records_are_frozen(m: EnvView, call: Invocation, id: Seq<char>)
    requires
        m.storage.tx(id) matches Some(t) && is_terminal(t.status),
    ensures
        invoke(m, call).storage.tx(id) == m.storage.tx(id),
{
    let f = m.fresh();
    let t = m.storage.tx(id).unwrap();
    match call {
        Invocation::RegisterTransaction { transaction_id, .. } => {},
        Invocation::ConfirmTransaction { transaction_id } => {},
        Invocation::FailTransaction { transaction_id, reason } => {},
        Invocation::RefundTransaction { transaction_id } => {},
        Invocation::RegisterCallback { transaction_id } => {},
        _ => {},
    }
}

/// Records are never removed, a new record starts `Pending`, and a record's
/// status only ever changes along an edge of the state machine.
pub proof fn lemma_status_changes_follow_state_machine(m: EnvView, call: Invocation, id: Seq<char>)
    ensures
        m.storage.transactions.contains_key(id) ==> invoke(m, call).storage.transactions.contains_key(
            id,
        ),
        !m.storage.transactions.contains_key(id) && invoke(m, call).storage.transactions.contains_key(
            id,
        ) ==> invoke(m, call).storage.transactions[id].status == TransactionStatus::Pending,
        m.storage.transactions.contains_key(id) && invoke(m, call).storage.transactions[id].status
            != m.storage.transactions[id].status ==> transition_allowed(
            m.storage.transactions[id].status,
            invoke(m, call).storage.transactions[id].status,
        ),
{
}

/// A successful registration stores the deposit as `Pending`, with its
/// fields as given and both timestamps set to the ledger time; registering
/// the same id again is refused with `TransactionAlreadyExists`.
pub proof fn lemma_registration_is_recorded_once(
    m: EnvView,
    m2: EnvView,
    transaction_id: String,
    sender: String,
    recipient: Address,
    amount: i128,
    source_chain: String,
    dest_chain: String,
    call2: Invocation,
)
    requires
        outcome(
            m.fresh(),
            Invocation::RegisterTransaction {
                transaction_id,
                sender,
                recipient,
                amount,
                source_chain,
                dest_chain,
            },
        ) is Ok,
        m2.storage == invoke(
            m,
            Invocation::RegisterTransaction {
                transaction_id,
                sender,
                recipient,
                amount,
                source_chain,
                dest_chain,
            },
        ).storage,
        relay_gate(m2) is Ok,
        call2 matches Invocation::RegisterTransaction {
            transaction_id: id2,
            sender: sender2,
            amount: amount2,
            source_chain: source2,
            dest_chain: dest2,
            ..
        } && id2@ == transaction_id@ && valid_string_len(sender2@) && valid_string_len(
            source2@,
        ) && valid_string_len(dest2@) && amount2 > 0,
    ensures
        m2.storage.tx(transaction_id@) == Some(
            registered_transaction(
                transaction_id,
                sender,
                recipient,
                amount,
                source_chain,
                dest_chain,
                m.ledger.timestamp,
            ),
        ),
        outcome(m2.fresh(), call2) == Err::<Effect, Error>(Error::TransactionAlreadyExists),
{
    lemma_same_signers(m2, m2.fresh(), m2.storage.relay_signer.unwrap());
}

/// The completion callback is idempotent: once a delivery for an id has
/// succeeded, every later delivery for that id (at any later ledger, with the
/// storage the first one left) succeeds without writing or publishing
/// anything, whether or not the temporary fence has expired meanwhile.
pub proof fn lemma_callback_replay_is_noop(
    m: EnvView,
    m2: EnvView,
    transaction_id: String,
    replayed_id: String,
)
    requires
        storage_invariant(m.storage),
        outcome(m.fresh(), Invocation::RegisterCallback { transaction_id }) is Ok,
        m2.storage == invoke(m, Invocation::RegisterCallback { transaction_id }).storage,
        relay_gate(m2) is Ok,
        replayed_id@ == transaction_id@,
    ensures
        outcome(m2.fresh(), Invocation::RegisterCallback { transaction_id: replayed_id }) == Ok::<
            Effect,
            Error,
        >(Effect::writes(m2.storage, Seq::empty())),
        invoke(m2, Invocation::RegisterCallback { transaction_id: replayed_id }).storage
            == m2.storage,
        invoke(m2, Invocation::RegisterCallback { transaction_id: replayed_id }).events.len() == 0,
{
    let f = m.fresh();
    let id = transaction_id@;
    if callback_is_duplicate(f, id) {
        if !(f.storage.tx(id) matches Some(t) && t.status == TransactionStatus::Completed) {
            assert(f.storage.callback_seen.contains_key(id));
        }
    }
    assert(m2.storage.tx(id) matches Some(t) && t.status == TransactionStatus::Completed);
    lemma_same_signers(m2, m2.fresh(), m2.storage.relay_signer.unwrap());
}

/// `initialize` succeeds once: it records the admin and relay signer,
/// unpaused, at schema version `SCHEMA_VERSION`, and every later call is
/// refused with `AlreadyInitialized`.
pub proof fn lemma_initialize_only_once(
    m: EnvView,
    m2: EnvView,
    admin: Address,
    relay_signer: Address,
    call2: Invocation,
)
    requires
        outcome(m.fresh(), Invocation::Initialize { admin, relay_signer }) is Ok,
        m2.storage == invoke(m, Invocation::Initialize { admin, relay_signer }).storage,
        call2 is Initialize,
    ensures
        m2.storage.admin == Some(admin),
        m2.storage.relay_signer == Some(relay_signer),
        !m2.storage.paused_flag(),
        m2.storage.schema_version == Some(SCHEMA_VERSION),
        outcome(m2.fresh(), call2) == Err::<Effect, Error>(Error::AlreadyInitialized),
{
}

/// The two-step admin transfer: a proposal leaves the admin unchanged and
/// records the proposed address; the proposed address's acceptance makes it
/// the admin and consumes the proposal, so that accepting again is refused
/// with `NoPendingAdmin`.
pub proof fn lemma_admin_transfer(m: EnvView, m2: EnvView, m3: EnvView, new_admin: Address)
    requires
        outcome(m.fresh(), Invocation::ProposeAdmin { new_admin }) is Ok,
        m2.storage == invoke(m, Invocation::ProposeAdmin { new_admin }).storage,
        m2.authorizes(new_admin),
        m3.storage == invoke(m2, Invocation::AcceptAdmin).storage,
    ensures
        m2.storage.admin == m.storage.admin,
        m2.storage.pending_admin == Some(new_admin),
        outcome(m2.fresh(), Invocation::AcceptAdmin) is Ok,
        m3.storage.admin == Some(new_admin),
        m3.storage.pending_admin is None,
        outcome(m3.fresh(), Invocation::AcceptAdmin) == Err::<Effect, Error>(Error::NoPendingAdmin),
{
    lemma_same_signers(m2, m2.fresh(), new_admin);
}

/// A proposed upgrade cannot be executed before `UPGRADE_TIMELOCK_LEDGERS`
/// ledgers have passed since its proposal; a new proposal replaces the
/// pending one and restarts the count.
pub proof fn lemma_upgrade_waits_for_timelock(
    m: EnvView,
    m2: EnvView,
    new_wasm_hash: [u8; 32],
    expected_schema_version: u32,
)
    requires
        outcome(m.fresh(), Invocation::ProposeUpgrade { new_wasm_hash, expected_schema_version })
            is Ok,
        m2.storage == invoke(
            m,
            Invocation::ProposeUpgrade { new_wasm_hash, expected_schema_version },
        ).storage,
        m.ledger.sequence + UPGRADE_TIMELOCK_LEDGERS <= u32::MAX,
        admin_gate(m2) is Ok,
        m2.ledger.sequence < m.ledger.sequence + UPGRADE_TIMELOCK_LEDGERS,
    ensures
        m2.storage.pending_upgrade matches Some(p) && p.new_wasm_hash == new_wasm_hash
            && p.expected_schema_version == expected_schema_version && p.earliest_ledger
            == m.ledger.sequence + UPGRADE_TIMELOCK_LEDGERS,
        outcome(m2.fresh(), Invocation::ExecuteUpgrade) == Err::<Effect, Error>(
            Error::UpgradeTimelockNotElapsed,
        ),
{
    lemma_same_signers(m2, m2.fresh(), m2.storage.admin.unwrap());
}

/// Once the timelock has elapsed, and with the schema version unchanged
/// since the proposal, the proposed upgrade executes: the contract's code
/// becomes the proposed WASM and the schema version moves up by one.
pub proof fn lemma_upgrade_executes_after_timelock(
    m: EnvView,
    m2: EnvView,
    new_wasm_hash: [u8; 32],
    expected_schema_version: u32,
)
    requires
        outcome(m.fresh(), Invocation::ProposeUpgrade { new_wasm_hash, expected_schema_version })
            is Ok,
        m2.storage == invoke(
            m,
            Invocation::ProposeUpgrade { new_wasm_hash, expected_schema_version },
        ).storage,
        admin_gate(m2) is Ok,
        m2.ledger.sequence >= m.ledger.sequence + UPGRADE_TIMELOCK_LEDGERS,
    ensures
        outcome(m2.fresh(), Invocation::ExecuteUpgrade) is Ok,
        invoke(m2, Invocation::ExecuteUpgrade).storage.schema_version == Some(
            (expected_schema_version + 1) as u32,
        ),
        invoke(m2, Invocation::ExecuteUpgrade).wasm_update == Some(new_wasm_hash),
{
    lemma_same_signers(m2, m2.fresh(), m2.storage.admin.unwrap());
}

/// An executed upgrade consumes its proposal: executing again is refused
/// with `NoPendingUpgrade`, and the schema version has moved up by exactly
/// one.
pub proof fn lemma_upgrade_executes_once(m: EnvView, m2: EnvView)
    requires
        outcome(m.fresh(), Invocation::ExecuteUpgrade) is Ok,
        m2.storage == invoke(m, Invocation::ExecuteUpgrade).storage,
        admin_gate(m2) is Ok,
    ensures
        m2.storage.schema_version == Some((m.storage.schema_version.unwrap() + 1) as u32),
        m2.storage.pending_upgrade is None,
        invoke(m, Invocation::ExecuteUpgrade).wasm_update == Some(
            m.storage.pending_upgrade.unwrap().new_wasm_hash,
        ),
        outcome(m2.fresh(), Invocation::ExecuteUpgrade) == Err::<Effect, Error>(
            Error::NoPendingUpgrade,
        ),
{
    lemma_same_signers(m2, m2.fresh(), m2.storage.admin.unwrap());
}

/// `unpause` undoes `pause`: the storage after both is the storage before,
/// with the pause flag cleared.
pub proof fn lemma_unpause_undoes_pause(m: EnvView, m2: EnvView)
    requires
        outcome(m.fresh(), Invocation::Pause) is Ok,
        m2.storage == invoke(m, Invocation::Pause).storage,
        admin_gate(m2) is Ok,
    ensures
        m2.storage.paused_flag(),
        invoke(m2, Invocation::Unpause).storage == (StorageView { paused: Some(false), ..m.storage }),
{
    lemma_same_signers(m2, m2.fresh(), m2.storage.admin.unwrap());
}

/// The id a relay-signer invocation acts on.
pub open spec fn target_id(call: Invocation) -> Seq<char> {
    match call {
        Invocation::RegisterTransaction { transaction_id, .. } => transaction_id@,
        Invocation::ConfirmTransaction { transaction_id } => transaction_id@,
        Invocation::RegisterCallback { transaction_id } => transaction_id@,
        Invocation::FailTransaction { transaction_id, .. } => transaction_id@,
        Invocation::RefundTransaction { transaction_id } => transaction_id@,
        _ => Seq::empty(),
    }
}

/// The relay signer's reach is bounded: its invocations never change the
/// admin, the pending admin, the relay signer, the pause flag, the schema
/// version, the pending upgrade or the contract's code, and they change no
/// record and no fence but those of the id they name.
pub proof fn lemma_relay_calls_are_bounded(m: EnvView, call: Invocation, other: Seq<char>)
    requires
        is_relay_call(call),
        other != target_id(call),
    ensures
        invoke(m, call).storage.admin == m.storage.admin,
        invoke(m, call).storage.pending_admin == m.storage.pending_admin,
        invoke(m, call).storage.relay_signer == m.storage.relay_signer,
        invoke(m, call).storage.paused == m.storage.paused,
        invoke(m, call).storage.schema_version == m.storage.schema_version,
        invoke(m, call).storage.pending_upgrade == m.storage.pending_upgrade,
        invoke(m, call).wasm_update is None,
        invoke(m, call).storage.tx(other) == m.storage.tx(other),
        invoke(m, call).storage.callback_seen.contains_key(other) == m.storage.callback_seen.contains_key(
            other,
        ),
{
}

/// Configuration entry points never touch deposit records or callback
/// fences.
pub proof fn lemma_admin_calls_leave_records(m: EnvView, call: Invocation)
    requires
        is_admin_call(call) || call is AcceptAdmin || call is Initialize,
    ensures
        invoke(m, call).storage.transactions == m.storage.transactions,
        invoke(m, call).storage.callback_seen == m.storage.callback_seen,
{
}

/// The status a lifecycle event announces, and the id it names.
pub open spec fn announced(ev: ContractEvent) -> Option<(Seq<char>, TransactionStatus)> {
    match ev {
        ContractEvent::TransactionRegistered(e) => Some(
            (e.transaction_id@, TransactionStatus::Pending),
        ),
        ContractEvent::TransactionConfirmed(e) => Some(
            (e.transaction_id@, TransactionStatus::Confirmed),
        ),
        ContractEvent::TransactionCompleted(e) => Some(
            (e.transaction_id@, TransactionStatus::Completed),
        ),
        ContractEvent::TransactionFailed(e) => Some((e.transaction_id@, TransactionStatus::Failed)),
        ContractEvent::TransactionRefunded(e) => Some(
            (e.transaction_id@, TransactionStatus::Refunded),
        ),
        _ => None,
    }
}

/// Lifecycle events mirror the records: a successful relay-signer
/// invocation either leaves its record as it was and publishes nothing, or
/// publishes exactly one event, which names the record and announces its
/// new status. With the state machine, this fixes the order in which a
/// transaction's events can appear (registered, then confirmed, then one
/// terminal event at most).
pub proof fn lemma_events_mirror_status_changes(m: EnvView, call: Invocation)
    requires
        is_relay_call(call),
        outcome(m.fresh(), call) is Ok,
    ensures
        ({
            let post = invoke(m, call);
            let id = target_id(call);
            ||| post.events.len() == 0 && post.storage.tx(id) == m.storage.tx(id)
            ||| post.events.len() == 1 && post.storage.tx(id) is Some && announced(post.events[0])
                == Some((id, post.storage.tx(id).unwrap().status))
        }),
{
}

/// The schema version only moves through `initialize`, which sets it to
/// `SCHEMA_VERSION` on an uninitialized contract, and `execute_upgrade`,
/// which moves it up by exactly one.
pub proof fn lemma_schema_version_only_moves_up(m: EnvView, call: Invocation)
    ensures
        ({
            let post = invoke(m, call).storage.schema_version;
            ||| post == m.storage.schema_version
            ||| call is Initialize && m.storage.admin is None && post == Some(SCHEMA_VERSION)
            ||| call is ExecuteUpgrade && (m.storage.schema_version matches Some(v) && post == Some(
                (v + 1) as u32,
            ))
        }),
{
}

/// Who holds a role only changes through the intended handshakes: the admin
/// only through `initialize` on an uninitialized contract, or through
/// `accept_admin`, which installs the pending admin after that admin's own
/// authorization; the relay signer only through `initialize` or through
/// `set_relay_signer`, authorized by the admin.
pub proof fn lemma_roles_change_only_by_handshake(m: EnvView, call: Invocation)
    ensures
        invoke(m, call).storage.admin != m.storage.admin ==> {
            ||| call is Initialize && m.storage.admin is None
            ||| call is AcceptAdmin && (m.storage.pending_admin matches Some(p) && m.authorizes(p)
                && invoke(m, call).storage.admin == Some(p))
        },
        invoke(m, call).storage.relay_signer != m.storage.relay_signer ==> {
            ||| call is Initialize && m.storage.admin is None
            ||| call is SetRelaySigner && (m.storage.admin matches Some(a) && m.authorizes(a))
        },
{
    if let Some(p) = m.storage.pending_admin {
        lemma_same_signers(m, m.fresh(), p);
    }
    if let Some(a) = m.storage.admin {
        lemma_same_signers(m, m.fresh(), a);
    }
}

/// Registration succeeds whenever nothing refuses it: once the relay
/// signer's checks pass, every string field is 1 to `MAX_STRING_LEN` bytes
/// long, the amount is above zero (any such `i128`) and the id is not stored
/// yet, the deposit is stored `Pending` with exactly the given sender,
/// recipient, amount and chains.
pub proof fn lemma_registration_succeeds_when_valid(
    m: EnvView,
    transaction_id: String,
    sender: String,
    recipient: Address,
    amount: i128,
    source_chain: String,
    dest_chain: String,
)
    requires
        relay_gate(m) is Ok,
        valid_string_len(transaction_id@),
        valid_string_len(sender@),
        valid_string_len(source_chain@),
        valid_string_len(dest_chain@),
        amount > 0,
        !m.storage.transactions.contains_key(transaction_id@),
    ensures
        ({
            let call = Invocation::RegisterTransaction {
                transaction_id,
                sender,
                recipient,
                amount,
                source_chain,
                dest_chain,
            };
            let post = invoke(m, call).storage;
            &&& outcome(m.fresh(), call) is Ok
            &&& post.tx(transaction_id@) matches Some(t)
            &&& t.status == TransactionStatus::Pending
            &&& t.amount == amount
            &&& t.sender == sender
            &&& t.recipient == recipient
            &&& t.source_chain == source_chain
            &&& t.dest_chain == dest_chain
            &&& t.created_at == m.ledger.timestamp
            &&& t.updated_at == m.ledger.timestamp
        }),
{
    lemma_same_signers(m, m.fresh(), m.storage.relay_signer.unwrap());
}

/// A status change stamps the record with the time of the invocation that
/// made it: whenever an invocation changes the status of a stored record,
/// the record's `updated_at` becomes the ledger timestamp of that
/// invocation, and every field but the status and `updated_at` (the id, the
/// parties, the amount, the chains and `created_at`) stays as it was.
pub proof fn lemma_status_change_stamps_invocation_time(m: EnvView, call: Invocation, id: Seq<char>)
    requires
        m.storage.tx(id) matches Some(t) && (invoke(m, call).storage.tx(id) matches Some(t2)
            && t2.status != t.status),
    ensures
        ({
            let t = m.storage.tx(id).unwrap();
            let t2 = invoke(m, call).storage.tx(id).unwrap();
            &&& t2.updated_at == m.ledger.timestamp
            &&& t2.transaction_id == t.transaction_id
            &&& t2.sender == t.sender
            &&& t2.recipient == t.recipient
            &&& t2.amount == t.amount
            &&& t2.source_chain == t.source_chain
            &&& t2.dest_chain == t.dest_chain
            &&& t2.created_at == t.created_at
        }),
{
}

/// The time a lifecycle event carries: `created_at` of a registration,
/// `updated_at` of a status change.
pub open spec fn event_time(ev: ContractEvent) -> Option<u64> {
    match ev {
        ContractEvent::TransactionRegistered(e) => Some(e.created_at),
        ContractEvent::TransactionConfirmed(e) => Some(e.updated_at),
        ContractEvent::TransactionCompleted(e) => Some(e.updated_at),
        ContractEvent::TransactionFailed(e) => Some(e.updated_at),
        ContractEvent::TransactionRefunded(e) => Some(e.updated_at),
        _ => None,
    }
}

/// Every lifecycle event carries the time of the invocation that published
/// it, which is also the `updated_at` the record it names holds afterwards.
pub proof fn lemma_events_carry_invocation_time(m: EnvView, call: Invocation)
    requires
        is_relay_call(call),
        outcome(m.fresh(), call) is Ok,
    ensures
        forall|i: int|
            0 <= i < invoke(m, call).events.len() ==> {
                let ev = #[trigger] invoke(m, call).events[i];
                &&& event_time(ev) == Some(m.ledger.timestamp)
                &&& invoke(m, call).storage.tx(target_id(call)) matches Some(t)
                &&& t.updated_at == m.ledger.timestamp
            },
{
}

/// A failure is published with the reason it was given: a successful
/// `fail_transaction` publishes exactly one event, `tx_fail`, naming the
/// transaction, carrying the `reason` argument unchanged and the time of the
/// invocation.
pub proof fn lemma_failure_reason_is_published(m: EnvView, transaction_id: String, reason: String)
    requires
        outcome(m.fresh(), Invocation::FailTransaction { transaction_id, reason }) is Ok,
    ensures
        invoke(m, Invocation::FailTransaction { transaction_id, reason }).events == seq![
            ContractEvent::TransactionFailed(
                TransactionFailed { transaction_id, reason, updated_at: m.ledger.timestamp },
            ),
        ],
{
}

} // verus!
