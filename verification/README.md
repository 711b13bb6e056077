# bridgelet_contracts

The logic of the Bridgelet Soroban contracts, verified with Verus.

- `src/` holds one module per contract (access controller, allowlist and
  asset allowlist, audit log, batch sweep queue, claimable balance registry,
  compliance oracle, fee splitter, multisig approval, nonce registry,
  notification registry, pause guardian, rate limiter). Each contract runs
  against `env::Env`, a model of what it sees of the ledger: its storage, the
  events it published, the authorizations it demanded and the ledger
  sequence. Every entry point states in its contract what it returns, how the
  storage changes, which events it publishes and whose authorization it
  demands. A refused call changes nothing but the authorizations it demanded
  before refusing, in the contract's order. The properties that span calls
  are stated as `lemma_*` proof functions beside each contract.
- The host's collections and values (ledger `Vec` and `Map`, `Address`,
  `Symbol`, `BytesN<32>`) are handles to objects that live inside a running
  host, so the library holds plain values instead: std `Vec`, the verified
  key-value `store::Store` in place of ledger maps and keyed storage entries,
  and `primitives::{Address, Symbol, Hash32}`.
- `tests/` exercises the library on concrete values.
- `app/` turns the library into Soroban contracts: it converts between the
  host's values and the library's, keeps each contract's storage as one
  snapshot in instance storage (in place of one ledger entry per key),
  enforces the demanded authorizations (also on refused calls), publishes
  the events and makes the fee splitter's token transfers.
