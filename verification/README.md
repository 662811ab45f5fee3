# Kora marketplace

The marketplace of the Kora invoice financing protocol, with its rules verified by
Verus.

A seller lists an invoice below its face value; investors contribute in a
whitelisted token until the asking price is reached or the deadline passes. Of each
contribution `amount * fee_bps / 10_000` goes to the treasury and the rest to the
financing pool. When the asking price is reached the listing closes and the pool is
told to release the funds. The seller and the administrator may cancel an open
listing. While the protocol is paused nothing new is listed or funded.

## Layout

- `src/` — the verified library. An operation takes an `Env`, which holds what the
  invocation sees of the ledger, and either refuses, leaving the `Env` as it was, or
  brings it up to date and records the actions to carry out, in order.
  - `marketplace.rs` — the operations
  - `model.rs` — when each is refused, what is stored after it, and what it does
  - `history.rs`, `laws.rs` — sequences of requests, and what holds of them
  - `events.rs` — the events of the protocol
  - `env.rs`, `table.rs`, `types.rs`, `address.rs`, `errors.rs`, `validation.rs`
- `app/` — the Soroban contract: it reads the ledger, lets the library decide, and
  carries out the actions.
- `tests/` — tests of the library.
