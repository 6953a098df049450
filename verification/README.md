# pulsar_core_contract

The core contract of Pulsar Bridge: the on-chain record of bridged deposits
and their lifecycle (`Pending` -> `Confirmed` -> `Completed`, or `Failed` /
`Refunded` from `Pending` or `Confirmed`), with the admin controls around it:
pause/unpause, a two-step admin transfer, relay-signer rotation and
timelocked, schema-version-guarded upgrades.

## Layout

- `src/` is the verified library. `contract.rs` holds the entry points of
  `PulsarCoreContract`, `admin.rs` the admin-only ones, `storage.rs` the
  storage model and the transaction state machine, `validation.rs` the input
  checks (string lengths, amounts, SEP-23 strkeys with base32 decoding and
  CRC-16/XMODEM), `events.rs` the events, `env.rs` the environment an
  invocation runs in, `table.rs` the keyed record tables, and `laws.rs` the
  properties that hold across entry points and successive invocations.
  Every entry point's contract states exactly when it succeeds, which error
  it returns otherwise, what it writes, which authorizations it requires and
  which events it publishes.
- `app/` is the Soroban contract itself: it reads the storage entries an
  invocation needs from the host, lets the library decide, then has the host
  enforce the required authorizations, writes the storage back, publishes
  the events and switches the contract's code after an upgrade.
- `tests/` exercises the library on concrete scenarios.
