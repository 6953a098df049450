use vstd::prelude::*;

use crate::env::{Env, EnvView};
use crate::types::Address;

verus! {

/// `init`: emitted once, by `initialize`.
#[derive(Debug, PartialEq, Eq)]
pub struct Initialized {
    pub admin: Address,
    pub relay_signer: Address,
    pub schema_version: u32,
}

/// `tx_reg`: emitted by `register_transaction`.
#[derive(Debug, PartialEq, Eq)]
pub struct TransactionRegistered {
    pub transaction_id: String,
    pub sender: String,
    pub recipient: Address,
    pub amount: i128,
    pub source_chain: String,
    pub dest_chain: String,
    pub created_at: u64,
}

/// `tx_conf`: emitted by `confirm_transaction`.
#[derive(Debug, PartialEq, Eq)]
pub struct TransactionConfirmed {
    pub transaction_id: String,
    pub updated_at: u64,
}

/// `tx_comp`: emitted by `register_callback`, never twice for one transaction.
#[derive(Debug, PartialEq, Eq)]
pub struct TransactionCompleted {
    pub transaction_id: String,
    pub updated_at: u64,
}

/// `tx_fail`: emitted by `fail_transaction`.
#[derive(Debug, PartialEq, Eq)]
pub struct TransactionFailed {
    pub transaction_id: String,
    pub reason: String,
    pub updated_at: u64,
}

/// `tx_refund`: emitted by `refund_transaction`.
#[derive(Debug, PartialEq, Eq)]
pub struct TransactionRefunded {
    pub transaction_id: String,
    pub updated_at: u64,
}

/// `pause`: emitted by `pause` and `unpause`.
#[derive(Debug, PartialEq, Eq)]
pub struct PauseStateChanged {
    pub by: Address,
    pub paused: bool,
}

/// `admin_prop`: emitted by `propose_admin`.
#[derive(Debug, PartialEq, Eq)]
pub struct AdminTransferProposed {
    pub old_admin: Address,
    pub proposed_admin: Address,
}

/// `admin_upd`: emitted by `accept_admin`.
#[derive(Debug, PartialEq, Eq)]
pub struct AdminUpdated {
    pub old_admin: Address,
    pub new_admin: Address,
}

/// `relay_upd`: emitted by `set_relay_signer`.
#[derive(Debug, PartialEq, Eq)]
pub struct RelaySignerUpdated {
    pub old_relay_signer: Address,
    pub new_relay_signer: Address,
}

/// `upgrade_prop`: emitted by `propose_upgrade`.
#[derive(Debug, PartialEq, Eq)]
pub struct UpgradeProposed {
    pub new_wasm_hash: [u8; 32],
    pub expected_schema_version: u32,
    pub earliest_ledger: u32,
}

/// `upgrade`: emitted by `execute_upgrade`.
#[derive(Debug, PartialEq, Eq)]
pub struct ContractUpgraded {
    pub new_wasm_hash: [u8; 32],
    pub old_schema_version: u32,
    pub new_schema_version: u32,
}

/// Any event the contract publishes.
#[derive(Debug, PartialEq, Eq)]
pub enum ContractEvent {
    Initialized(Initialized),
    TransactionRegistered(TransactionRegistered),
    TransactionConfirmed(TransactionConfirmed),
    TransactionCompleted(TransactionCompleted),
    TransactionFailed(TransactionFailed),
    TransactionRefunded(TransactionRefunded),
    PauseStateChanged(PauseStateChanged),
    AdminTransferProposed(AdminTransferProposed),
    AdminUpdated(AdminUpdated),
    RelaySignerUpdated(RelaySignerUpdated),
    UpgradeProposed(UpgradeProposed),
    ContractUpgraded(ContractUpgraded),
}

/// The environment after `ev` has been published in it.
pub open spec fn published(pre: EnvView, ev: ContractEvent) -> EnvView {
    EnvView { events: pre.events.push(ev), ..pre }
}

pub fn initialized(env: &mut Env, admin: &Address, relay_signer: &Address, schema_version: u32)
    ensures
        final(env)@ == published(
            old(env)@,
            ContractEvent::Initialized(
                Initialized { admin: *admin, relay_signer: *relay_signer, schema_version },
            ),
        ),
{
    env.events.push(
        ContractEvent::Initialized(
            Initialized { admin: admin.clone(), relay_signer: relay_signer.clone(), schema_version },
        ),
    );
}

pub fn transaction_registered(
    env: &mut Env,
    transaction_id: &String,
    sender: &String,
    recipient: &Address,
    amount: i128,
    source_chain: &String,
    dest_chain: &String,
    created_at: u64,
)
    ensures
        final(env)@ == published(
            old(env)@,
            ContractEvent::TransactionRegistered(
                TransactionRegistered {
                    transaction_id: *transaction_id,
                    sender: *sender,
                    recipient: *recipient,
                    amount,
                    source_chain: *source_chain,
                    dest_chain: *dest_chain,
                    created_at,
                },
            ),
        ),
{
    env.events.push(
        ContractEvent::TransactionRegistered(
            TransactionRegistered {
                transaction_id: transaction_id.clone(),
                sender: sender.clone(),
                recipient: recipient.clone(),
                amount,
                source_chain: source_chain.clone(),
                dest_chain: dest_chain.clone(),
                created_at,
            },
        ),
    );
}

pub fn transaction_confirmed(env: &mut Env, transaction_id: &String, updated_at: u64)
    ensures
        final(env)@ == published(
            old(env)@,
            ContractEvent::TransactionConfirmed(
                TransactionConfirmed { transaction_id: *transaction_id, updated_at },
            ),
        ),
{
    env.events.push(
        ContractEvent::TransactionConfirmed(
            TransactionConfirmed { transaction_id: transaction_id.clone(), updated_at },
        ),
    );
}

pub fn transaction_completed(env: &mut Env, transaction_id: &String, updated_at: u64)
    ensures
        final(env)@ == published(
            old(env)@,
            ContractEvent::TransactionCompleted(
                TransactionCompleted { transaction_id: *transaction_id, updated_at },
            ),
        ),
{
    env.events.push(
        ContractEvent::TransactionCompleted(
            TransactionCompleted { transaction_id: transaction_id.clone(), updated_at },
        ),
    );
}

pub fn transaction_failed(env: &mut Env, transaction_id: &String, reason: &String, updated_at: u64)
    ensures
        final(env)@ == published(
            old(env)@,
            ContractEvent::TransactionFailed(
                TransactionFailed { transaction_id: *transaction_id, reason: *reason, updated_at },
            ),
        ),
{
    env.events.push(
        ContractEvent::TransactionFailed(
            TransactionFailed {
                transaction_id: transaction_id.clone(),
                reason: reason.clone(),
                updated_at,
            },
        ),
    );
}

pub fn transaction_refunded(env: &mut Env, transaction_id: &String, updated_at: u64)
    ensures
        final(env)@ == published(
            old(env)@,
            ContractEvent::TransactionRefunded(
                TransactionRefunded { transaction_id: *transaction_id, updated_at },
            ),
        ),
{
    env.events.push(
        ContractEvent::TransactionRefunded(
            TransactionRefunded { transaction_id: transaction_id.clone(), updated_at },
        ),
    );
}

pub fn pause_state_changed(env: &mut Env, by: &Address, paused: bool)
    ensures
        final(env)@ == published(
            old(env)@,
            ContractEvent::PauseStateChanged(PauseStateChanged { by: *by, paused }),
        ),
{
    env.events.push(ContractEvent::PauseStateChanged(PauseStateChanged { by: by.clone(), paused }));
}

pub fn admin_transfer_proposed(env: &mut Env, old_admin: &Address, proposed_admin: &Address)
    ensures
        final(env)@ == published(
            old(env)@,
            ContractEvent::AdminTransferProposed(
                AdminTransferProposed { old_admin: *old_admin, proposed_admin: *proposed_admin },
            ),
        ),
{
    env.events.push(
        ContractEvent::AdminTransferProposed(
            AdminTransferProposed {
                old_admin: old_admin.clone(),
                proposed_admin: proposed_admin.clone(),
            },
        ),
    );
}

pub fn admin_updated(env: &mut Env, old_admin: &Address, new_admin: &Address)
    ensures
        final(env)@ == published(
            old(env)@,
            ContractEvent::AdminUpdated(AdminUpdated { old_admin: *old_admin, new_admin: *new_admin }),
        ),
{
    env.events.push(
        ContractEvent::AdminUpdated(
            AdminUpdated { old_admin: old_admin.clone(), new_admin: new_admin.clone() },
        ),
    );
}

pub fn relay_signer_updated(env: &mut Env, old_relay_signer: &Address, new_relay_signer: &Address)
    ensures
        final(env)@ == published(
            old(env)@,
            ContractEvent::RelaySignerUpdated(
                RelaySignerUpdated {
                    old_relay_signer: *old_relay_signer,
                    new_relay_signer: *new_relay_signer,
                },
            ),
        ),
{
    env.events.push(
        ContractEvent::RelaySignerUpdated(
            RelaySignerUpdated {
                old_relay_signer: old_relay_signer.clone(),
                new_relay_signer: new_relay_signer.clone(),
            },
        ),
    );
}

pub fn upgrade_proposed(
    env: &mut Env,
    new_wasm_hash: &[u8; 32],
    expected_schema_version: u32,
    earliest_ledger: u32,
)
    ensures
        final(env)@ == published(
            old(env)@,
            ContractEvent::UpgradeProposed(
                UpgradeProposed {
                    new_wasm_hash: *new_wasm_hash,
                    expected_schema_version,
                    earliest_ledger,
                },
            ),
        ),
{
    env.events.push(
        ContractEvent::UpgradeProposed(
            UpgradeProposed { new_wasm_hash: *new_wasm_hash, expected_schema_version, earliest_ledger },
        ),
    );
}

pub fn contract_upgraded(
    env: &mut Env,
    new_wasm_hash: &[u8; 32],
    old_schema_version: u32,
    new_schema_version: u32,
)
    ensures
        final(env)@ == published(
            old(env)@,
            ContractEvent::ContractUpgraded(
                ContractUpgraded {
                    new_wasm_hash: *new_wasm_hash,
                    old_schema_version,
                    new_schema_version,
                },
            ),
        ),
{
    env.events.push(
        ContractEvent::ContractUpgraded(
            ContractUpgraded { new_wasm_hash: *new_wasm_hash, old_schema_version, new_schema_version },
        ),
    );
}

} // verus!
