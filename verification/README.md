# iron_vault

IronVault is a Solana program for token escrows and multi-asset vaults with
roles, spending limits, time-locked withdrawals and pause switches, together
with an observer service that follows the program's logs and keeps a read
model of its accounts.

The decisions of both are written in Verus and proved against their
contracts:

- `src/instructions/` — one module per instruction: given the accounts as
  plain values, each returns the new account state, the token transfer to
  perform and the event to log, or the error, with contracts that say exactly
  which.
- `src/security/` — permissions, pause flags and the token-extension policy.
- `src/policy.rs` — the rolling withdrawal window and the time-lock threshold.
- `src/events.rs`, `src/codec.rs` — the events and their byte encoding.
- `src/observer/` — log parsing, event extraction, alerts, metrics, the read
  model's projection, history paging and sync status.
- `src/laws.rs` — proof functions that state the properties spanning several
  instructions (authorization of outflows, finality of settled escrows and
  requests, pause semantics, window limits).

`app/` holds the runtime around the library: the Anchor entry points that
bind accounts and perform transfers, and the observer's RPC, WebSocket,
PostgreSQL and HTTP plumbing. `tests/` exercises the library on concrete
scenarios.
