# aethertrack

Verified core of the AetherTrack shipment-tracking contracts for Stellar
(Soroban): a shipment registry and a milestone-based payment escrow.

- `src/` — the library, verified with Verus.
  - `host.rs`: the ledger context of a call and the requests it makes of the
    host (authorization, token transfers, events).
  - `table.rs`: vectors of keyed entries read as maps.
  - `shipment_registry/`: records, identifier derivation (SHA-256 through
    `soroban-sdk`), the registry as a state machine (`model.rs`), the contract
    (`contract.rs`), the laws proved of every call (`laws.rs`), the
    reachable-state invariant (`invariants.rs`) and laws over whole runs of
    calls (`runs.rs`).
  - `payment_escrow/`: the same for the escrow (`laws.rs`, `runs.rs`).
- `tests/` — scenarios run against the compiled library.
- `app/` — the Soroban contract entry points: they load storage into the
  library, run the call, perform the recorded requests and store the result.
