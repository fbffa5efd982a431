# quorumforge_contract

QuorumForge is an N-of-M multi-signature governance contract for open-source
maintainer boards on Stellar/Soroban. Board members open proposals (pay a
contributor, transfer treasury funds, add or remove a member, change the
threshold), sign them, and a proposal is carried out as soon as its signatures
reach the threshold.

Layout:

- `src/` — the verified library (Verus). The contract's whole state is a plain
  value (`QuorumForge`); every call is a method that either refuses with an
  `Error` and changes nothing, or changes the state and returns, in order, the
  token transfers and event publications the host must carry out (`Effects`).
  - `model.rs` — the contract as a state machine over mathematical views: the
    invariant, what each call does, and runs of calls.
  - `focus.rs` — `ProposalFocus`: the board, the admin, the number of
    proposals and one proposal. Every call on one proposal works on it and is
    proved to do to any whole state it was taken from exactly what the call on
    the whole state does; the host reads and writes only these entries.
  - `forge.rs` — the whole state (`QuorumForge`), whose calls go through the
    focus, and the queries over all proposals, each proved to do exactly what
    `model.rs` says.
  - `laws.rs` — properties of single calls and of runs of calls (invariant
    kept, finished proposals never change, execution needs a quorum, ids in
    order, the admin never changes, ...).
  - `address.rs` — Stellar addresses as plain values and their XDR encoding.
  - `types.rs`, `events.rs`, `error.rs` — data, effects, refusals.
- `app/` — the Soroban contract around the library: host storage,
  `require_auth`, ledger time, token transfers and event publication. Calls on
  one proposal read only the board, admin, count and that proposal; only the
  queries that list or count all proposals read them all.
- `tests/` — the contract's scenarios run against the library.

The library holds lists of members and signatures in `std::vec::Vec` and
addresses as plain values (`Address`: kind plus 32-byte key, exchanged with the
host through its XDR encoding). A `soroban_sdk::Vec` lives in the host
environment and holds only host-convertible values, which need the
`#[contracttype]` derive of `soroban_sdk`; the library's own types cannot carry
that derive, so the lists are plain vectors and the app converts at the
boundary.
