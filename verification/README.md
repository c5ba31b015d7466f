# storage_sqlite

Verified core of a portfolio tracker's holdings-snapshot maintenance.

- `src/decimal.rs`: decimal amounts as plain values (sign, 96-bit magnitude,
  scale) and the checked arithmetic of `rust_decimal` on them.
- `src/position.rs`: positions and tax lots; the cost basis of a position
  from its lots at their stored acquisition FX rates. The shape of positions
  and lots and the cost-basis rules (a lot's stored account rate before its
  stored base rate, rate one between equal currencies, `None` when any lot
  has no usable rate or the arithmetic overflows) follow the comments of the
  migration that uses them; the portfolio core crate that defines them for
  write-time precompute is not part of this repository, and these rules are
  not checked against it.
- `src/strip.rs`, `src/writes.rs`, `src/currency.rs`, `src/migration.rs`: the
  lot-strip migration of stored snapshots as a state machine, with the
  backfill, the strip, the UPDATE statements and their tally.
- `src/transfers.rs`, `src/transfer_in.rs`, `src/transfer_out.rs`: the
  TRANSFER_IN / TRANSFER_OUT handlers of the holdings calculator as state
  machines over their collaborators.
- `src/outbox.rs`: projection of captured changes onto sync-outbox requests.
- `app/lib.rs`: the SQLite, file-system and JSON driver of the migration.
  The transfer machines have no driver here: their collaborators (positions,
  lot reductions, FX service) belong to the portfolio core crate.
