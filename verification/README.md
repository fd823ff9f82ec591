# ping-pong

A MultiversX ping-pong contract as a verified state machine. Users deposit EGLD
once ("ping") inside a time window and take it back ("pong") after the deadline;
the owner opens and closes the contract and sets its limits.

- `src/model.rs` states the contract over mathematical values: the storage, the
  call environment, and the outcome of every endpoint.
- `src/contract.rs` holds the storage in memory and implements the endpoints;
  each is proved to do exactly what the model states, and to change nothing when
  it fails.
- `src/storage.rs`, `src/owner.rs`, `src/events.rs` and `src/lib.rs` declare the
  contract's views, owner endpoints, events and public endpoints.
- `src/biguint.rs` holds the arbitrary-precision amounts, with addition and
  comparison proved exact.
- `src/laws.rs` proves properties across calls (a pong refunds the ping, a user
  pings at most once, ping and pong windows never overlap, ...).
- `app/` is the command-line interactor that talks to a deployed contract.
