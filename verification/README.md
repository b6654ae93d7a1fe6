# emitter

The verified core of a payment event emitter contract.

- `src/` is the library, verified with Verus. `PaymentEventEmitter` holds the
  contract's storage; each entry point is a method whose contract states its
  result and the new storage through the model `EmitterState` (`emitter.rs`).
  `laws.rs` proves the properties that hold across calls: read-back of
  emitted events, consecutive ids, failures changing nothing, owner-only
  access, the allow-list, pausing, the two-step ownership transfer, the
  upgrade timelock and the bounds of storage maintenance.
- `app/` is the Soroban contract around the core: it authenticates callers,
  loads and stores the state in contract storage, publishes events, extends
  entry lifetimes and installs upgrades.
- `tests/` exercises the library.
