# lance

The logic of the Lance freelance marketplace, verified with Verus.

- `src/escrow_spec.rs` states the escrow contract as a state machine: each
  operation maps a state and its arguments to a failure (a numbered error,
  or an abort with its message) or to the next state with the token
  transfers and events it asks for.
  `src/escrow.rs` implements the operations on stored data and proves each
  one equal to its statement; `src/escrow_laws.rs` proves what holds across
  all calls (permitted phase changes, well-formed jobs, books that follow
  the tokens, the reentrancy lock, frozen final jobs, releases in any
  order ending in the same completed job).
- `src/reputation.rs` and `src/reputation_laws.rs`: ratings, admin updates
  and slashing, with scores kept within 0 to 10 000 basis points.
- `src/profile.rs`: badge tiers; `src/db.rs`: pool settings read from the
  environment; `src/write_recovery.rs`: paging of the recovery listing.
- `app/` holds the Soroban contracts that load and store the library's
  state on the ledger, check authorizations, move tokens and publish
  events, and the backend's database pool and HTTP route.
