use pulsar_core_contract::admin;
use pulsar_core_contract::events::{
    ContractEvent, TransactionCompleted, TransactionConfirmed, TransactionRegistered,
};
use pulsar_core_contract::storage::{CALLBACK_SEEN_TTL, UPGRADE_TIMELOCK_LEDGERS};
use pulsar_core_contract::{
    Address, Env, Error, LedgerInfo, PendingUpgrade, PulsarCoreContract, Transaction,
    TransactionStatus,
};

struct Harness {
    env: Env,
    admin: Address,
    relay_signer: Address,
}

fn generate(n: u32) -> Address {
    Address::from_strkey(&format!("G{:055}", n))
}

fn text(s: &str) -> String {
    s.to_string()
}

fn fresh_env() -> Env {
    Env::new(LedgerInfo { timestamp: 0, sequence: 0 })
}

fn setup() -> Harness {
    let mut env = fresh_env();
    env.mock_all_auths();
    let admin = generate(1);
    let relay_signer = generate(2);
    PulsarCoreContract::initialize(&mut env, admin.clone(), relay_signer.clone()).unwrap();
    Harness { env, admin, relay_signer }
}

fn register(h: &mut Harness, id: &str, amount: i128) -> Result<(), Error> {
    PulsarCoreContract::register_transaction(
        &mut h.env,
        text(id),
        text("GABC123SENDERADDR"),
        generate(99),
        amount,
        text("ethereum"),
        text("stellar"),
    )
}

fn register_default(h: &mut Harness) -> String {
    register(h, "tx-1", 1_000).unwrap();
    text("tx-1")
}

fn status(h: &Harness, id: &String) -> TransactionStatus {
    PulsarCoreContract::get_transaction(&h.env, id.clone()).unwrap().status
}

fn hash(b: u8) -> [u8; 32] {
    [b; 32]
}

// --- initialize ---

#[test]
fn test_initialize_sets_state() {
    let h = setup();
    assert_eq!(PulsarCoreContract::get_admin(&h.env), Ok(h.admin.clone()));
    assert_eq!(PulsarCoreContract::get_relay_signer(&h.env), Ok(h.relay_signer.clone()));
    assert!(!PulsarCoreContract::is_paused(&h.env));
    assert_eq!(PulsarCoreContract::schema_version(&h.env), Ok(1));
}

#[test]
fn test_initialize_twice_fails() {
    let mut h = setup();
    let res = PulsarCoreContract::initialize(&mut h.env, h.admin.clone(), h.relay_signer.clone());
    assert_eq!(res, Err(Error::AlreadyInitialized));
}

#[test]
fn test_schema_version_before_initialize_fails() {
    let env = fresh_env();
    assert_eq!(PulsarCoreContract::schema_version(&env), Err(Error::NotInitialized));
}

// --- register_transaction ---

#[test]
fn test_get_transaction_not_found() {
    let h = setup();
    let res = PulsarCoreContract::get_transaction(&h.env, text("does-not-exist"));
    assert_eq!(res, Err(Error::TransactionNotFound));
}

#[test]
fn test_register_transaction_happy_path() {
    let mut h = setup();
    let id = register_default(&mut h);
    let tx = PulsarCoreContract::get_transaction(&h.env, id).unwrap();
    assert_eq!(tx.status, TransactionStatus::Pending);
    assert_eq!(tx.amount, 1_000_i128);
}

#[test]
fn test_register_transaction_emits_tx_reg_event() {
    let mut h = setup();
    let created_at = h.env.ledger.timestamp;
    PulsarCoreContract::register_transaction(
        &mut h.env,
        text("tx-event"),
        text("GABC123SENDERADDR"),
        generate(7),
        1_000_i128,
        text("ethereum"),
        text("stellar"),
    )
    .unwrap();
    let expected = ContractEvent::TransactionRegistered(TransactionRegistered {
        transaction_id: text("tx-event"),
        sender: text("GABC123SENDERADDR"),
        recipient: generate(7),
        amount: 1_000_i128,
        source_chain: text("ethereum"),
        dest_chain: text("stellar"),
        created_at,
    });
    assert_eq!(h.env.events, vec![expected]);
}

#[test]
fn test_register_transaction_duplicate_id_fails() {
    let mut h = setup();
    register_default(&mut h);
    let res = register(&mut h, "tx-1", 1_000);
    assert_eq!(res, Err(Error::TransactionAlreadyExists));
}

#[test]
fn test_register_transaction_rejects_non_positive_amount() {
    let mut h = setup();
    let res = register(&mut h, "tx-bad-amount", 0);
    assert_eq!(res, Err(Error::InvalidInput));
}

#[test]
fn test_register_transaction_rejects_empty_string_field() {
    let mut h = setup();
    let res = PulsarCoreContract::register_transaction(
        &mut h.env,
        text("tx-empty-sender"),
        text(""),
        generate(7),
        1_000_i128,
        text("ethereum"),
        text("stellar"),
    );
    assert_eq!(res, Err(Error::InvalidInput));
}

#[test]
fn test_register_transaction_requires_relay_signer_auth() {
    let mut h = setup();
    h.env.set_auths(vec![]);
    let res = register(&mut h, "tx-unauth", 1_000);
    assert!(res.is_err());
}

#[test]
fn test_register_transaction_fails_when_paused() {
    let mut h = setup();
    PulsarCoreContract::pause(&mut h.env).unwrap();
    let res = register(&mut h, "tx-paused", 1_000);
    assert_eq!(res, Err(Error::ContractPaused));
}

#[test]
fn test_confirm_transaction_requires_relay_signer_auth() {
    let mut h = setup();
    let id = register_default(&mut h);
    h.env.set_auths(vec![]);
    let res = PulsarCoreContract::confirm_transaction(&mut h.env, id.clone());
    assert!(res.is_err());
    assert_eq!(status(&h, &id), TransactionStatus::Pending);
}

#[test]
fn test_confirm_transaction_fails_when_paused() {
    let mut h = setup();
    let id = register_default(&mut h);
    PulsarCoreContract::pause(&mut h.env).unwrap();
    let res = PulsarCoreContract::confirm_transaction(&mut h.env, id.clone());
    assert_eq!(res, Err(Error::ContractPaused));
    assert_eq!(status(&h, &id), TransactionStatus::Pending);
}

#[test]
fn test_register_callback_requires_relay_signer_auth() {
    let mut h = setup();
    let id = register_default(&mut h);
    PulsarCoreContract::confirm_transaction(&mut h.env, id.clone()).unwrap();
    h.env.set_auths(vec![]);
    let res = PulsarCoreContract::register_callback(&mut h.env, id.clone());
    assert!(res.is_err());
    assert_eq!(status(&h, &id), TransactionStatus::Confirmed);
}

#[test]
fn test_fail_transaction_requires_relay_signer_auth() {
    let mut h = setup();
    let id = register_default(&mut h);
    h.env.set_auths(vec![]);
    let res = PulsarCoreContract::fail_transaction(&mut h.env, id.clone(), text("bad deposit"));
    assert!(res.is_err());
    assert_eq!(status(&h, &id), TransactionStatus::Pending);
}

#[test]
fn test_fail_transaction_fails_when_paused() {
    let mut h = setup();
    let id = register_default(&mut h);
    PulsarCoreContract::pause(&mut h.env).unwrap();
    let res = PulsarCoreContract::fail_transaction(&mut h.env, id.clone(), text("bad deposit"));
    assert_eq!(res, Err(Error::ContractPaused));
    assert_eq!(status(&h, &id), TransactionStatus::Pending);
}

#[test]
fn test_refund_transaction_requires_relay_signer_auth() {
    let mut h = setup();
    let id = register_default(&mut h);
    h.env.set_auths(vec![]);
    let res = PulsarCoreContract::refund_transaction(&mut h.env, id.clone());
    assert!(res.is_err());
    assert_eq!(status(&h, &id), TransactionStatus::Pending);
}

#[test]
fn test_refund_transaction_fails_when_paused() {
    let mut h = setup();
    let id = register_default(&mut h);
    PulsarCoreContract::pause(&mut h.env).unwrap();
    let res = PulsarCoreContract::refund_transaction(&mut h.env, id.clone());
    assert_eq!(res, Err(Error::ContractPaused));
    assert_eq!(status(&h, &id), TransactionStatus::Pending);
}

// --- state machine ---

#[test]
fn test_full_lifecycle_pending_to_completed() {
    let mut h = setup();
    let id = register_default(&mut h);
    PulsarCoreContract::confirm_transaction(&mut h.env, id.clone()).unwrap();
    assert_eq!(status(&h, &id), TransactionStatus::Confirmed);
    PulsarCoreContract::register_callback(&mut h.env, id.clone()).unwrap();
    assert_eq!(status(&h, &id), TransactionStatus::Completed);
}

#[test]
fn test_cannot_complete_before_confirmed() {
    let mut h = setup();
    let id = register_default(&mut h);
    let res = PulsarCoreContract::register_callback(&mut h.env, id);
    assert_eq!(res, Err(Error::InvalidStateTransition));
}

#[test]
fn test_cannot_confirm_a_completed_transaction() {
    let mut h = setup();
    let id = register_default(&mut h);
    PulsarCoreContract::confirm_transaction(&mut h.env, id.clone()).unwrap();
    PulsarCoreContract::register_callback(&mut h.env, id.clone()).unwrap();
    let res = PulsarCoreContract::confirm_transaction(&mut h.env, id);
    assert_eq!(res, Err(Error::InvalidStateTransition));
}

#[test]
fn test_pending_can_be_failed_and_refunded_respectively() {
    let mut h = setup();
    let id_fail = register_default(&mut h);
    PulsarCoreContract::fail_transaction(&mut h.env, id_fail.clone(), text("source chain reorg"))
        .unwrap();
    assert_eq!(status(&h, &id_fail), TransactionStatus::Failed);

    register(&mut h, "tx-2", 500).unwrap();
    let id2 = text("tx-2");
    PulsarCoreContract::refund_transaction(&mut h.env, id2.clone()).unwrap();
    assert_eq!(status(&h, &id2), TransactionStatus::Refunded);
}

#[test]
fn test_terminal_states_reject_further_transitions() {
    let mut h = setup();
    let id = register_default(&mut h);
    PulsarCoreContract::fail_transaction(&mut h.env, id.clone(), text("bad deposit")).unwrap();
    let res = PulsarCoreContract::confirm_transaction(&mut h.env, id);
    assert_eq!(res, Err(Error::InvalidStateTransition));
}

// --- idempotency ---

#[test]
fn test_register_callback_is_idempotent() {
    let mut h = setup();
    let id = register_default(&mut h);
    PulsarCoreContract::confirm_transaction(&mut h.env, id.clone()).unwrap();
    PulsarCoreContract::register_callback(&mut h.env, id.clone()).unwrap();
    PulsarCoreContract::register_callback(&mut h.env, id.clone()).unwrap();
    assert_eq!(status(&h, &id), TransactionStatus::Completed);
}

#[test]
fn test_register_callback_idempotent_after_temp_fence_expires() {
    let mut h = setup();
    let id = register_default(&mut h);
    PulsarCoreContract::confirm_transaction(&mut h.env, id.clone()).unwrap();
    PulsarCoreContract::register_callback(&mut h.env, id.clone()).unwrap();
    assert_eq!(status(&h, &id), TransactionStatus::Completed);

    h.env.ledger.sequence += 17_281;

    PulsarCoreContract::register_callback(&mut h.env, id.clone()).unwrap();
    assert_eq!(status(&h, &id), TransactionStatus::Completed);
}

// --- pause / admin ---

#[test]
fn test_pause_blocks_relay_actions_but_admin_can_unpause() {
    let mut h = setup();
    let id = register_default(&mut h);
    PulsarCoreContract::confirm_transaction(&mut h.env, id.clone()).unwrap();

    PulsarCoreContract::pause(&mut h.env).unwrap();
    let res = PulsarCoreContract::register_callback(&mut h.env, id.clone());
    assert_eq!(res, Err(Error::ContractPaused));

    PulsarCoreContract::unpause(&mut h.env).unwrap();
    PulsarCoreContract::register_callback(&mut h.env, id.clone()).unwrap();
    assert_eq!(status(&h, &id), TransactionStatus::Completed);
}

#[test]
fn test_pause_requires_admin_auth() {
    let mut h = setup();
    h.env.set_auths(vec![]);
    let res = PulsarCoreContract::pause(&mut h.env);
    assert!(res.is_err());
}

#[test]
fn test_unpause_requires_admin_auth() {
    let mut h = setup();
    PulsarCoreContract::pause(&mut h.env).unwrap();
    h.env.set_auths(vec![]);
    let res = PulsarCoreContract::unpause(&mut h.env);
    assert!(res.is_err());
    assert!(PulsarCoreContract::is_paused(&h.env));
}

#[test]
fn test_propose_and_accept_admin_transfer() {
    let mut h = setup();
    let new_admin = generate(3);

    PulsarCoreContract::propose_admin(&mut h.env, new_admin.clone()).unwrap();
    assert_eq!(PulsarCoreContract::get_pending_admin(&h.env), Ok(new_admin.clone()));
    assert_eq!(PulsarCoreContract::get_admin(&h.env), Ok(h.admin.clone()));

    PulsarCoreContract::accept_admin(&mut h.env).unwrap();
    assert_eq!(PulsarCoreContract::get_admin(&h.env), Ok(new_admin));
    let res = PulsarCoreContract::get_pending_admin(&h.env);
    assert_eq!(res, Err(Error::NoPendingAdmin));
}

#[test]
fn test_propose_admin_requires_admin_auth() {
    let mut h = setup();
    let new_admin = generate(3);
    h.env.set_auths(vec![]);
    let res = PulsarCoreContract::propose_admin(&mut h.env, new_admin);
    assert!(res.is_err());
}

#[test]
fn test_accept_admin_requires_proposed_admin_auth() {
    let mut h = setup();
    let new_admin = generate(3);
    PulsarCoreContract::propose_admin(&mut h.env, new_admin).unwrap();

    h.env.set_auths(vec![]);
    let res = PulsarCoreContract::accept_admin(&mut h.env);
    assert!(res.is_err());
    assert_eq!(PulsarCoreContract::get_admin(&h.env), Ok(h.admin.clone()));
}

#[test]
fn test_accept_admin_fails_without_pending_admin() {
    let mut h = setup();
    let res = PulsarCoreContract::accept_admin(&mut h.env);
    assert_eq!(res, Err(Error::NoPendingAdmin));
}

#[test]
fn test_set_relay_signer_rotates_signer() {
    let mut h = setup();
    let new_signer = generate(4);
    PulsarCoreContract::set_relay_signer(&mut h.env, new_signer.clone()).unwrap();
    assert_eq!(PulsarCoreContract::get_relay_signer(&h.env), Ok(new_signer));
}

#[test]
fn test_set_relay_signer_requires_admin_auth() {
    let mut h = setup();
    let new_signer = generate(4);
    h.env.set_auths(vec![]);
    let res = PulsarCoreContract::set_relay_signer(&mut h.env, new_signer);
    assert!(res.is_err());
    assert_eq!(PulsarCoreContract::get_relay_signer(&h.env), Ok(h.relay_signer.clone()));
}

// --- upgrade timelock / schema version guard ---

#[test]
fn test_propose_upgrade_requires_admin_auth() {
    let mut h = setup();
    h.env.set_auths(vec![]);
    let res = PulsarCoreContract::propose_upgrade(&mut h.env, hash(32), 1);
    assert!(res.is_err());
}

#[test]
fn test_execute_upgrade_requires_admin_auth() {
    let mut h = setup();
    PulsarCoreContract::propose_upgrade(&mut h.env, hash(5), 1).unwrap();
    h.env.ledger.sequence += UPGRADE_TIMELOCK_LEDGERS;

    h.env.set_auths(vec![]);
    let res = PulsarCoreContract::execute_upgrade(&mut h.env);
    assert!(res.is_err());
    assert_eq!(PulsarCoreContract::schema_version(&h.env), Ok(1));
}

#[test]
fn test_propose_upgrade_wrong_schema_version_fails() {
    let mut h = setup();
    let res = PulsarCoreContract::propose_upgrade(&mut h.env, hash(32), 2);
    assert_eq!(res, Err(Error::SchemaVersionMismatch));
    let pending = PulsarCoreContract::get_pending_upgrade(&h.env);
    assert_eq!(pending, Err(Error::NoPendingUpgrade));
}

#[test]
fn test_execute_upgrade_fails_without_pending_upgrade() {
    let mut h = setup();
    let res = PulsarCoreContract::execute_upgrade(&mut h.env);
    assert_eq!(res, Err(Error::NoPendingUpgrade));
}

#[test]
fn test_execute_upgrade_before_timelock_elapses_fails() {
    let mut h = setup();
    PulsarCoreContract::propose_upgrade(&mut h.env, hash(5), 1).unwrap();

    let res = PulsarCoreContract::execute_upgrade(&mut h.env);
    assert_eq!(res, Err(Error::UpgradeTimelockNotElapsed));
    assert_eq!(PulsarCoreContract::schema_version(&h.env), Ok(1));

    h.env.ledger.sequence += UPGRADE_TIMELOCK_LEDGERS - 1;
    let res = PulsarCoreContract::execute_upgrade(&mut h.env);
    assert_eq!(res, Err(Error::UpgradeTimelockNotElapsed));
}

#[test]
fn test_propose_upgrade_overwrites_pending_proposal_and_resets_timelock() {
    let mut h = setup();
    let first_hash = hash(1);
    PulsarCoreContract::propose_upgrade(&mut h.env, first_hash, 1).unwrap();

    h.env.ledger.sequence += UPGRADE_TIMELOCK_LEDGERS - 1;

    let second_hash = hash(2);
    PulsarCoreContract::propose_upgrade(&mut h.env, second_hash, 1).unwrap();

    let pending = PulsarCoreContract::get_pending_upgrade(&h.env).unwrap();
    assert_eq!(pending.new_wasm_hash, second_hash);
    let res = PulsarCoreContract::execute_upgrade(&mut h.env);
    assert_eq!(res, Err(Error::UpgradeTimelockNotElapsed));
}

#[test]
fn test_execute_upgrade_after_timelock_bumps_schema_version_and_rejects_replay() {
    let mut h = setup();
    let new_wasm_hash = hash(9);
    PulsarCoreContract::propose_upgrade(&mut h.env, new_wasm_hash, 1).unwrap();

    h.env.ledger.sequence += UPGRADE_TIMELOCK_LEDGERS;

    assert_eq!(PulsarCoreContract::schema_version(&h.env), Ok(1));
    PulsarCoreContract::execute_upgrade(&mut h.env).unwrap();
    assert_eq!(PulsarCoreContract::schema_version(&h.env), Ok(2));

    let res: Result<(), Error> = admin::execute_upgrade(&mut h.env);
    assert_eq!(res, Err(Error::NoPendingUpgrade));
}

// --- further cases: laws on concrete values, edge cases, every error ---

#[test]
fn registered_record_holds_the_given_fields() {
    let mut h = setup();
    h.env.ledger.timestamp = 1_700_000_000;
    register(&mut h, "tx-fields", 42).unwrap();
    let tx = PulsarCoreContract::get_transaction(&h.env, text("tx-fields")).unwrap();
    assert_eq!(
        tx,
        Transaction {
            transaction_id: text("tx-fields"),
            sender: text("GABC123SENDERADDR"),
            recipient: generate(99),
            amount: 42,
            source_chain: text("ethereum"),
            dest_chain: text("stellar"),
            status: TransactionStatus::Pending,
            created_at: 1_700_000_000,
            updated_at: 1_700_000_000,
        }
    );
}

#[test]
fn transitions_stamp_the_ledger_time_and_keep_created_at() {
    let mut h = setup();
    h.env.ledger.timestamp = 10;
    let id = register_default(&mut h);
    h.env.ledger.timestamp = 25;
    PulsarCoreContract::confirm_transaction(&mut h.env, id.clone()).unwrap();
    let tx = PulsarCoreContract::get_transaction(&h.env, id).unwrap();
    assert_eq!(tx.created_at, 10);
    assert_eq!(tx.updated_at, 25);
    assert_eq!(tx.status, TransactionStatus::Confirmed);
}

#[test]
fn duplicate_callback_publishes_no_event() {
    let mut h = setup();
    let id = register_default(&mut h);
    PulsarCoreContract::confirm_transaction(&mut h.env, id.clone()).unwrap();
    PulsarCoreContract::register_callback(&mut h.env, id.clone()).unwrap();
    assert_eq!(h.env.events.len(), 1);
    PulsarCoreContract::register_callback(&mut h.env, id.clone()).unwrap();
    assert!(h.env.events.is_empty());
    h.env.ledger.sequence += CALLBACK_SEEN_TTL + 1;
    PulsarCoreContract::register_callback(&mut h.env, id).unwrap();
    assert!(h.env.events.is_empty());
}

#[test]
fn failed_callback_leaves_no_fence_behind() {
    let mut h = setup();
    let id = register_default(&mut h);
    assert_eq!(
        PulsarCoreContract::register_callback(&mut h.env, id.clone()),
        Err(Error::InvalidStateTransition)
    );
    assert!(h.env.storage.callback_seen.is_empty());
    PulsarCoreContract::confirm_transaction(&mut h.env, id.clone()).unwrap();
    PulsarCoreContract::register_callback(&mut h.env, id.clone()).unwrap();
    assert_eq!(status(&h, &id), TransactionStatus::Completed);
}

#[test]
fn callback_for_unknown_transaction_is_not_found() {
    let mut h = setup();
    let res = PulsarCoreContract::register_callback(&mut h.env, text("missing"));
    assert_eq!(res, Err(Error::TransactionNotFound));
}

#[test]
fn confirmed_can_be_failed_or_refunded() {
    let mut h = setup();
    register(&mut h, "a", 1).unwrap();
    register(&mut h, "b", 1).unwrap();
    PulsarCoreContract::confirm_transaction(&mut h.env, text("a")).unwrap();
    PulsarCoreContract::confirm_transaction(&mut h.env, text("b")).unwrap();
    PulsarCoreContract::fail_transaction(&mut h.env, text("a"), text("r")).unwrap();
    PulsarCoreContract::refund_transaction(&mut h.env, text("b")).unwrap();
    assert_eq!(status(&h, &text("a")), TransactionStatus::Failed);
    assert_eq!(status(&h, &text("b")), TransactionStatus::Refunded);
}

#[test]
fn every_terminal_status_is_final() {
    let mut h = setup();
    register(&mut h, "done", 1).unwrap();
    PulsarCoreContract::confirm_transaction(&mut h.env, text("done")).unwrap();
    PulsarCoreContract::register_callback(&mut h.env, text("done")).unwrap();
    register(&mut h, "failed", 1).unwrap();
    PulsarCoreContract::fail_transaction(&mut h.env, text("failed"), text("r")).unwrap();
    register(&mut h, "refunded", 1).unwrap();
    PulsarCoreContract::refund_transaction(&mut h.env, text("refunded")).unwrap();
    for id in ["done", "failed", "refunded"] {
        let before = PulsarCoreContract::get_transaction(&h.env, text(id)).unwrap();
        assert_eq!(
            PulsarCoreContract::confirm_transaction(&mut h.env, text(id)),
            Err(Error::InvalidStateTransition)
        );
        assert_eq!(
            PulsarCoreContract::fail_transaction(&mut h.env, text(id), text("r")),
            Err(Error::InvalidStateTransition)
        );
        assert_eq!(
            PulsarCoreContract::refund_transaction(&mut h.env, text(id)),
            Err(Error::InvalidStateTransition)
        );
        assert_eq!(PulsarCoreContract::get_transaction(&h.env, text(id)).unwrap(), before);
    }
}

#[test]
fn fail_transaction_validates_the_reason() {
    let mut h = setup();
    let id = register_default(&mut h);
    let res = PulsarCoreContract::fail_transaction(&mut h.env, id.clone(), text(""));
    assert_eq!(res, Err(Error::InvalidInput));
    let long = "r".repeat(257);
    let res = PulsarCoreContract::fail_transaction(&mut h.env, id.clone(), long);
    assert_eq!(res, Err(Error::InvalidInput));
    assert_eq!(status(&h, &id), TransactionStatus::Pending);
}

#[test]
fn register_transaction_rejects_negative_amount_and_overlong_fields() {
    let mut h = setup();
    assert_eq!(register(&mut h, "neg", -5), Err(Error::InvalidInput));
    let long_id = "i".repeat(257);
    assert_eq!(register(&mut h, &long_id, 5), Err(Error::InvalidInput));
    let exact_id = "i".repeat(256);
    assert_eq!(register(&mut h, &exact_id, 5), Ok(()));
}

#[test]
fn relay_actions_before_initialize_are_not_initialized() {
    let mut env = fresh_env();
    env.mock_all_auths();
    let res = PulsarCoreContract::register_transaction(
        &mut env,
        text("t"),
        text("s"),
        generate(1),
        1,
        text("a"),
        text("b"),
    );
    assert_eq!(res, Err(Error::NotInitialized));
    assert_eq!(PulsarCoreContract::pause(&mut env), Err(Error::NotInitialized));
    assert_eq!(PulsarCoreContract::get_admin(&env), Err(Error::NotInitialized));
    assert_eq!(PulsarCoreContract::get_relay_signer(&env), Err(Error::NotInitialized));
    assert!(!PulsarCoreContract::is_paused(&env));
}

#[test]
fn only_the_named_signers_authorize() {
    let mut h = setup();
    h.env.set_auths(vec![h.admin.clone()]);
    assert_eq!(register(&mut h, "t", 1), Err(Error::Unauthorized));
    assert_eq!(h.env.auth_log, vec![h.relay_signer.clone()]);
    h.env.set_auths(vec![h.relay_signer.clone()]);
    assert_eq!(register(&mut h, "t", 1), Ok(()));
    assert_eq!(PulsarCoreContract::pause(&mut h.env), Err(Error::Unauthorized));
    assert_eq!(h.env.auth_log, vec![h.admin.clone()]);
}

#[test]
fn admin_recovery_actions_work_while_paused() {
    let mut h = setup();
    PulsarCoreContract::pause(&mut h.env).unwrap();
    let new_signer = generate(8);
    PulsarCoreContract::set_relay_signer(&mut h.env, new_signer.clone()).unwrap();
    PulsarCoreContract::propose_admin(&mut h.env, generate(9)).unwrap();
    PulsarCoreContract::accept_admin(&mut h.env).unwrap();
    PulsarCoreContract::propose_upgrade(&mut h.env, hash(3), 1).unwrap();
    assert_eq!(PulsarCoreContract::get_relay_signer(&h.env), Ok(new_signer));
    assert_eq!(PulsarCoreContract::get_admin(&h.env), Ok(generate(9)));
    assert!(PulsarCoreContract::is_paused(&h.env));
}

#[test]
fn rotated_relay_signer_replaces_the_old_key() {
    let mut h = setup();
    let new_signer = generate(8);
    PulsarCoreContract::set_relay_signer(&mut h.env, new_signer.clone()).unwrap();
    h.env.set_auths(vec![h.relay_signer.clone()]);
    assert_eq!(register(&mut h, "t", 1), Err(Error::Unauthorized));
    h.env.set_auths(vec![new_signer]);
    assert_eq!(register(&mut h, "t", 1), Ok(()));
}

#[test]
fn accept_admin_needs_the_proposed_admin_not_the_current_one() {
    let mut h = setup();
    let new_admin = generate(3);
    PulsarCoreContract::propose_admin(&mut h.env, new_admin.clone()).unwrap();
    h.env.set_auths(vec![h.admin.clone()]);
    assert_eq!(PulsarCoreContract::accept_admin(&mut h.env), Err(Error::Unauthorized));
    h.env.set_auths(vec![new_admin.clone()]);
    assert_eq!(PulsarCoreContract::accept_admin(&mut h.env), Ok(()));
    assert_eq!(PulsarCoreContract::get_admin(&h.env), Ok(new_admin));
    assert_eq!(PulsarCoreContract::accept_admin(&mut h.env), Err(Error::NoPendingAdmin));
}

#[test]
fn propose_admin_again_overwrites_the_proposal() {
    let mut h = setup();
    PulsarCoreContract::propose_admin(&mut h.env, generate(3)).unwrap();
    PulsarCoreContract::propose_admin(&mut h.env, generate(4)).unwrap();
    assert_eq!(PulsarCoreContract::get_pending_admin(&h.env), Ok(generate(4)));
}

#[test]
fn upgrade_records_the_earliest_ledger_and_switches_code() {
    let mut h = setup();
    h.env.ledger.sequence = 1_000;
    PulsarCoreContract::propose_upgrade(&mut h.env, hash(7), 1).unwrap();
    assert_eq!(
        PulsarCoreContract::get_pending_upgrade(&h.env),
        Ok(PendingUpgrade {
            new_wasm_hash: hash(7),
            expected_schema_version: 1,
            earliest_ledger: 1_000 + UPGRADE_TIMELOCK_LEDGERS,
        })
    );
    h.env.ledger.sequence = 1_000 + UPGRADE_TIMELOCK_LEDGERS;
    PulsarCoreContract::execute_upgrade(&mut h.env).unwrap();
    assert_eq!(h.env.wasm_update, Some(hash(7)));
    assert_eq!(PulsarCoreContract::get_pending_upgrade(&h.env), Err(Error::NoPendingUpgrade));
}

#[test]
fn execute_upgrade_rechecks_the_schema_version() {
    let mut h = setup();
    PulsarCoreContract::propose_upgrade(&mut h.env, hash(7), 1).unwrap();
    h.env.storage.schema_version = Some(5);
    h.env.ledger.sequence += UPGRADE_TIMELOCK_LEDGERS;
    assert_eq!(
        PulsarCoreContract::execute_upgrade(&mut h.env),
        Err(Error::SchemaVersionMismatch)
    );
    assert_eq!(PulsarCoreContract::schema_version(&h.env), Ok(5));
}

#[test]
fn unpause_undoes_pause() {
    let mut h = setup();
    PulsarCoreContract::pause(&mut h.env).unwrap();
    assert!(PulsarCoreContract::is_paused(&h.env));
    PulsarCoreContract::unpause(&mut h.env).unwrap();
    assert!(!PulsarCoreContract::is_paused(&h.env));
}

#[test]
fn initialize_publishes_init_event() {
    let mut env = fresh_env();
    PulsarCoreContract::initialize(&mut env, generate(1), generate(2)).unwrap();
    assert_eq!(env.events.len(), 1);
    assert!(env.auth_log.is_empty());
}

#[test]
fn relay_calls_touch_only_their_own_record() {
    let mut h = setup();
    register(&mut h, "mine", 1).unwrap();
    register(&mut h, "other", 2).unwrap();
    let other_before = PulsarCoreContract::get_transaction(&h.env, text("other")).unwrap();
    PulsarCoreContract::confirm_transaction(&mut h.env, text("mine")).unwrap();
    PulsarCoreContract::register_callback(&mut h.env, text("mine")).unwrap();
    assert_eq!(PulsarCoreContract::get_transaction(&h.env, text("other")).unwrap(), other_before);
    assert_eq!(PulsarCoreContract::get_admin(&h.env), Ok(h.admin.clone()));
    assert_eq!(PulsarCoreContract::get_relay_signer(&h.env), Ok(h.relay_signer.clone()));
    assert_eq!(PulsarCoreContract::schema_version(&h.env), Ok(1));
    assert!(!PulsarCoreContract::is_paused(&h.env));
    assert_eq!(h.env.wasm_update, None);
}

#[test]
fn admin_calls_leave_records_alone() {
    let mut h = setup();
    let id = register_default(&mut h);
    let before = PulsarCoreContract::get_transaction(&h.env, id.clone()).unwrap();
    PulsarCoreContract::pause(&mut h.env).unwrap();
    PulsarCoreContract::set_relay_signer(&mut h.env, generate(5)).unwrap();
    PulsarCoreContract::propose_admin(&mut h.env, generate(6)).unwrap();
    assert_eq!(PulsarCoreContract::get_transaction(&h.env, id).unwrap(), before);
}

#[test]
fn each_status_change_publishes_its_event() {
    let mut h = setup();
    h.env.ledger.timestamp = 77;
    let id = register_default(&mut h);
    PulsarCoreContract::confirm_transaction(&mut h.env, id.clone()).unwrap();
    assert_eq!(
        h.env.events,
        vec![ContractEvent::TransactionConfirmed(TransactionConfirmed {
            transaction_id: id.clone(),
            updated_at: 77,
        })]
    );
    PulsarCoreContract::register_callback(&mut h.env, id.clone()).unwrap();
    assert_eq!(
        h.env.events,
        vec![ContractEvent::TransactionCompleted(TransactionCompleted {
            transaction_id: id,
            updated_at: 77,
        })]
    );
    let res = PulsarCoreContract::confirm_transaction(&mut h.env, text("tx-1"));
    assert_eq!(res, Err(Error::InvalidStateTransition));
    assert!(h.env.events.is_empty());
}
