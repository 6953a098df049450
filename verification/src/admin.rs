//! Admin-only operations: pause/unpause, the two-step admin transfer,
//! relay-signer rotation, and the timelocked upgrade. Each one requires the
//! stored admin's authorization before anything else (but `accept_admin`,
//! which the proposed admin authorizes).
use vstd::prelude::*;

use crate::env::{after, result_of, Effect, Env, EnvView};
use crate::errors::Error;
use crate::events::{
    self, AdminTransferProposed, AdminUpdated, ContractEvent, ContractUpgraded, PauseStateChanged,
    RelaySignerUpdated, UpgradeProposed,
};
use crate::storage::{self, StorageView, UPGRADE_TIMELOCK_LEDGERS};
use crate::types::{Address, PendingUpgrade};

verus! {

broadcast use {crate::env::lemma_push_is_concat, crate::env::lemma_concat_empty};

/// The stored admin, when it authorized the invocation.
pub open spec fn admin_gate(m: EnvView) -> Result<Address, Error> {
    match m.storage.admin {
        None => Err(Error::NotInitialized),
        Some(a) => if m.authorizes(a) {
            Ok(a)
        } else {
            Err(Error::Unauthorized)
        },
    }
}

/// The authorization an admin-only operation requires.
pub open spec fn admin_auth_log(m: EnvView) -> Seq<Address> {
    match m.storage.admin {
        None => Seq::empty(),
        Some(a) => seq![a],
    }
}

pub fn require_admin(env: &mut Env) -> (r: Result<Address, Error>)
    ensures
        r == admin_gate(old(env)@),
        final(env)@ == (EnvView {
            auth_log: old(env)@.auth_log + admin_auth_log(old(env)@),
            ..old(env)@
        }),
{
    let admin = match storage::get_admin(env) {
        Ok(a) => a,
        Err(e) => {
            assert(old(env)@.auth_log + Seq::<Address>::empty() =~= old(env)@.auth_log);
            return Err(e);
        },
    };
    let r = env.require_auth(&admin);
    assert(old(env)@.auth_log.push(admin) =~= old(env)@.auth_log + seq![admin]);
    match r {
        Ok(()) => Ok(admin),
        Err(e) => Err(e),
    }
}

pub open spec fn pause_outcome(m: EnvView, paused: bool) -> Result<Effect, Error> {
    match admin_gate(m) {
        Err(e) => Err(e),
        Ok(a) => Ok(
            Effect::writes(
                StorageView { paused: Some(paused), ..m.storage },
                seq![ContractEvent::PauseStateChanged(PauseStateChanged { by: a, paused })],
            ),
        ),
    }
}

fn set_pause_state(env: &mut Env, paused: bool) -> (r: Result<(), Error>)
    ensures
        r == result_of(pause_outcome(old(env)@, paused)),
        final(env)@ == after(old(env)@, admin_auth_log(old(env)@), pause_outcome(old(env)@, paused)),
{
    let admin = require_admin(env)?;
    storage::set_paused(env, paused);
    events::pause_state_changed(env, &admin, paused);
    Ok(())
}

pub fn pause(env: &mut Env) -> (r: Result<(), Error>)
    ensures
        r == result_of(pause_outcome(old(env)@, true)),
        final(env)@ == after(old(env)@, admin_auth_log(old(env)@), pause_outcome(old(env)@, true)),
{
    set_pause_state(env, true)
}

pub fn unpause(env: &mut Env) -> (r: Result<(), Error>)
    ensures
        r == result_of(pause_outcome(old(env)@, false)),
        final(env)@ == after(old(env)@, admin_auth_log(old(env)@), pause_outcome(old(env)@, false)),
{
    set_pause_state(env, false)
}

pub open spec fn propose_admin_outcome(m: EnvView, new_admin: Address) -> Result<Effect, Error> {
    match admin_gate(m) {
        Err(e) => Err(e),
        Ok(a) => Ok(
            Effect::writes(
                StorageView { pending_admin: Some(new_admin), ..m.storage },
                seq![
                    ContractEvent::AdminTransferProposed(
                        AdminTransferProposed { old_admin: a, proposed_admin: new_admin },
                    ),
                ],
            ),
        ),
    }
}

/// Step 1 of 2 of an admin transfer: the current admin proposes
/// `new_admin`; nothing else changes until `new_admin` accepts.
pub fn propose_admin(env: &mut Env, new_admin: Address) -> (r: Result<(), Error>)
    ensures
        r == result_of(propose_admin_outcome(old(env)@, new_admin)),
        final(env)@ == after(
            old(env)@,
            admin_auth_log(old(env)@),
            propose_admin_outcome(old(env)@, new_admin),
        ),
{
    let old_admin = require_admin(env)?;
    storage::set_pending_admin(env, &new_admin);
    events::admin_transfer_proposed(env, &old_admin, &new_admin);
    Ok(())
}

pub open spec fn accept_admin_outcome(m: EnvView) -> Result<Effect, Error> {
    match m.storage.admin {
        None => Err(Error::NotInitialized),
        Some(old_admin) => match m.storage.pending_admin {
            None => Err(Error::NoPendingAdmin),
            Some(p) => if !m.authorizes(p) {
                Err(Error::Unauthorized)
            } else {
                Ok(
                    Effect::writes(
                        StorageView { admin: Some(p), pending_admin: None, ..m.storage },
                        seq![
                            ContractEvent::AdminUpdated(
                                AdminUpdated { old_admin, new_admin: p },
                            ),
                        ],
                    ),
                )
            },
        },
    }
}

/// The authorization `accept_admin` requires: the proposed admin's.
pub open spec fn accept_admin_auth_log(m: EnvView) -> Seq<Address> {
    match (m.storage.admin, m.storage.pending_admin) {
        (Some(_), Some(p)) => seq![p],
        _ => Seq::empty(),
    }
}

/// Step 2 of 2: the proposed admin, authorizing the call itself, becomes the
/// admin and the proposal is consumed.
pub fn accept_admin(env: &mut Env) -> (r: Result<(), Error>)
    ensures
        r == result_of(accept_admin_outcome(old(env)@)),
        final(env)@ == after(old(env)@, accept_admin_auth_log(old(env)@), accept_admin_outcome(old(env)@)),
{
    assert(old(env)@.auth_log + Seq::<Address>::empty() =~= old(env)@.auth_log);
    let old_admin = storage::get_admin(env)?;
    let new_admin = storage::get_pending_admin(env)?;
    let ghost pre = env@;
    env.require_auth(&new_admin)?;
    assert(pre.auth_log.push(new_admin) =~= pre.auth_log + seq![new_admin]);
    storage::set_admin(env, &new_admin);
    storage::clear_pending_admin(env);
    events::admin_updated(env, &old_admin, &new_admin);
    Ok(())
}

pub open spec fn set_relay_signer_outcome(m: EnvView, new_relay_signer: Address) -> Result<Effect, Error> {
    match admin_gate(m) {
        Err(e) => Err(e),
        Ok(_) => match m.storage.relay_signer {
            None => Err(Error::NotInitialized),
            Some(old_relay_signer) => Ok(
                Effect::writes(
                    StorageView { relay_signer: Some(new_relay_signer), ..m.storage },
                    seq![
                        ContractEvent::RelaySignerUpdated(
                            RelaySignerUpdated { old_relay_signer, new_relay_signer },
                        ),
                    ],
                ),
            ),
        },
    }
}

/// Rotates the relay signer; works while the contract is paused, as the
/// containment path against a compromised relay key.
pub fn set_relay_signer(env: &mut Env, new_relay_signer: Address) -> (r: Result<(), Error>)
    ensures
        r == result_of(set_relay_signer_outcome(old(env)@, new_relay_signer)),
        final(env)@ == after(
            old(env)@,
            admin_auth_log(old(env)@),
            set_relay_signer_outcome(old(env)@, new_relay_signer),
        ),
{
    require_admin(env)?;
    let old_relay_signer = storage::get_relay_signer(env)?;
    storage::set_relay_signer(env, &new_relay_signer);
    events::relay_signer_updated(env, &old_relay_signer, &new_relay_signer);
    Ok(())
}

pub open spec fn propose_upgrade_outcome(
    m: EnvView,
    new_wasm_hash: [u8; 32],
    expected_schema_version: u32,
) -> Result<Effect, Error> {
    match admin_gate(m) {
        Err(e) => Err(e),
        Ok(_) => match m.storage.schema_version {
            None => Err(Error::NotInitialized),
            Some(v) => if v != expected_schema_version {
                Err(Error::SchemaVersionMismatch)
            } else {
                let earliest_ledger = (m.ledger.sequence + UPGRADE_TIMELOCK_LEDGERS) as u32;
                Ok(
                    Effect::writes(
                        StorageView {
                            pending_upgrade: Some(
                                PendingUpgrade { new_wasm_hash, expected_schema_version, earliest_ledger },
                            ),
                            ..m.storage
                        },
                        seq![
                            ContractEvent::UpgradeProposed(
                                UpgradeProposed { new_wasm_hash, expected_schema_version, earliest_ledger },
                            ),
                        ],
                    ),
                )
            },
        },
    }
}

/// Whether `propose_upgrade` gets as far as computing the earliest ledger,
/// which overflows past `u32::MAX`.
pub open spec fn propose_upgrade_reaches_timelock(m: EnvView, expected_schema_version: u32) -> bool {
    admin_gate(m) is Ok && m.storage.schema_version == Some(expected_schema_version)
}

/// Step 1 of 2 of an upgrade: records `new_wasm_hash` as pending, executable
/// from `UPGRADE_TIMELOCK_LEDGERS` ledgers on. A new proposal replaces a
/// pending one and restarts its timelock.
pub fn propose_upgrade(
    env: &mut Env,
    new_wasm_hash: [u8; 32],
    expected_schema_version: u32,
) -> (r: Result<(), Error>)
    requires
        propose_upgrade_reaches_timelock(old(env)@, expected_schema_version) ==> old(env)@.ledger.sequence
            + UPGRADE_TIMELOCK_LEDGERS <= u32::MAX,
    ensures
        r == result_of(propose_upgrade_outcome(old(env)@, new_wasm_hash, expected_schema_version)),
        final(env)@ == after(
            old(env)@,
            admin_auth_log(old(env)@),
            propose_upgrade_outcome(old(env)@, new_wasm_hash, expected_schema_version),
        ),
{
    require_admin(env)?;
    let current_version = storage::get_schema_version(env)?;
    if current_version != expected_schema_version {
        return Err(Error::SchemaVersionMismatch);
    }
    let earliest_ledger = env.ledger.sequence + UPGRADE_TIMELOCK_LEDGERS;
    storage::set_pending_upgrade(
        env,
        &PendingUpgrade { new_wasm_hash, expected_schema_version, earliest_ledger },
    );
    events::upgrade_proposed(env, &new_wasm_hash, expected_schema_version, earliest_ledger);
    Ok(())
}

pub open spec fn execute_upgrade_outcome(m: EnvView) -> Result<Effect, Error> {
    match admin_gate(m) {
        Err(e) => Err(e),
        Ok(_) => match m.storage.pending_upgrade {
            None => Err(Error::NoPendingUpgrade),
            Some(p) => if m.ledger.sequence < p.earliest_ledger {
                Err(Error::UpgradeTimelockNotElapsed)
            } else {
                match m.storage.schema_version {
                    None => Err(Error::NotInitialized),
                    Some(v) => if v != p.expected_schema_version {
                        Err(Error::SchemaVersionMismatch)
                    } else {
                        Ok(
                            Effect {
                                storage: StorageView {
                                    schema_version: Some((v + 1) as u32),
                                    pending_upgrade: None,
                                    ..m.storage
                                },
                                events: seq![
                                    ContractEvent::ContractUpgraded(
                                        ContractUpgraded {
                                            new_wasm_hash: p.new_wasm_hash,
                                            old_schema_version: v,
                                            new_schema_version: (v + 1) as u32,
                                        },
                                    ),
                                ],
                                wasm_update: Some(p.new_wasm_hash),
                            },
                        )
                    },
                }
            },
        },
    }
}

/// Whether `execute_upgrade` gets as far as bumping the schema version,
/// which overflows past `u32::MAX`.
pub open spec fn execute_upgrade_reaches_bump(m: EnvView) -> bool {
    &&& admin_gate(m) is Ok
    &&& m.storage.pending_upgrade matches Some(p)
    &&& m.ledger.sequence >= p.earliest_ledger
    &&& m.storage.schema_version == Some(p.expected_schema_version)
}

/// Step 2 of 2: once the timelock has elapsed, bumps the schema version
/// (compare-and-swap against the version recorded at proposal time), clears
/// the proposal and switches the contract's code.
pub fn execute_upgrade(env: &mut Env) -> (r: Result<(), Error>)
    requires
        execute_upgrade_reaches_bump(old(env)@) ==> old(env)@.storage.schema_version.unwrap()
            < u32::MAX,
    ensures
        r == result_of(execute_upgrade_outcome(old(env)@)),
        final(env)@ == after(old(env)@, admin_auth_log(old(env)@), execute_upgrade_outcome(old(env)@)),
{
    require_admin(env)?;
    let pending = storage::get_pending_upgrade(env)?;
    if env.ledger.sequence < pending.earliest_ledger {
        return Err(Error::UpgradeTimelockNotElapsed);
    }
    let current_version = storage::get_schema_version(env)?;
    if current_version != pending.expected_schema_version {
        return Err(Error::SchemaVersionMismatch);
    }
    let new_version = current_version + 1;
    storage::set_schema_version(env, new_version);
    storage::clear_pending_upgrade(env);
    env.update_current_contract_wasm(pending.new_wasm_hash);
    events::contract_upgraded(env, &pending.new_wasm_hash, current_version, new_version);
    Ok(())
}

} // verus!
