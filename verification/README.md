# pera

The backend of the Pera wallet: customer accounts, bill payments, currency
conversion, stablecoin sends, cards, and cash withdrawals and deposits through
partner bureaux de change, with a back office for administrators.

## Layout

- `src/` is the library, verified with Verus. Each handler's decisions live
  here as functions with contracts: request validation, PIN and KYC gates,
  fees, wallet debits, holds and refunds, ledger entries, status lifecycles,
  the text of every error and the HTTP answer it gets. Proof functions named
  `law_*` state properties that span several functions (a refund gives back
  exactly what was held; a bill payment or a send that fails costs the
  wallet nothing; a settled deposit does not move again; only a READY
  withdrawal can be collected; nothing is debited before the PIN and the
  risk check pass; a logged-out token is refused). `payment_flow` is the
  order of a charged payment as a step function from stage and event to
  next stage and action, which the bill and send handlers run.
- Calls into bcrypt, magic-crypt, uuid, rand, chrono and csv stand behind
  small trusted wrappers whose contracts say what those crates document.
- `app/` is the axum service around the library: routing, PostgreSQL through
  sqlx, the Brails provider through reqwest, e-mail through lettre, and the
  JSON shapes (serde copies of the library's types).
- `tests/` runs the library on concrete values.

## Units

Money is in minor units (`i64`), ids are `u128` (UUIDs on the wire), and
instants are microseconds since the Unix epoch (chrono times on the wire).
