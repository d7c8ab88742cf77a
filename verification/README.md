# Stello booking

A booking lifecycle with token escrow and atomic push settlement, verified with
Verus, and a Soroban contract around it.

- `src/` is the verified library. `contract.rs` holds the calls; for each one a
  `.._refusal` function says which error it is refused with, if any, and an
  `.._after` function what it leaves behind. `refund.rs`, `split.rs` and
  `state_machine.rs` hold the rules, `storage.rs` and `env.rs` the entries and the
  effects of an invocation, `scripted_token.rs` a token with scripted failures.
- `laws.rs`, `accounting.rs`, `indexing.rs`, `ordering.rs`, `payouts.rs` and
  `records.rs` state and prove what holds over all calls and all histories of calls.
- `app/` runs the library on the ledger: it loads the entries that a call can touch,
  asks for the signatures that the call needs, and carries out its effects.

| Actor | Calls |
|-------|-------|
| Stello wallet | `initialize`, `book`, `update_booking`, `lock_escrow` (with the traveller), `check_in`, `complete`, `execute_split`, `cancel_by_traveller`, `open_dispute`, `resolve_dispute` |
| Host | `cancel_by_host` (the fee comes from the host's wallet, not from escrow) |
| Anybody with a claimable balance | `claim_payout` |
