# anchor_market

A binary prediction market, with its rules and laws proved.

A market is created with an expiry. Before expiry, users split collateral
into equal amounts of outcome-A and outcome-B tokens and merge pairs back
into collateral; the market's authority settles the winner, which removes
the mint authority of both outcome mints. After settlement, holders of the
winning token redeem it for collateral one for one.

- `src/` is the verified library. `state.rs` holds the market account,
  `token.rs` the token-program instructions that the market issues,
  `instructions/` one module per instruction (account constraints, rules,
  result), and `lib.rs` the instruction entry points. `ledger.rs` models what
  the token program does to balances, supplies, signatures and writable
  accounts, and `laws.rs` proves that every instruction, and any history of
  them, keeps each market fully backed by its vault, that settlement is final
  and freezes the outcome mints (no outcome supply grows after it), that a
  second claim pays nothing, that splits add up, and that a merge undoes
  a split wherever the token program accepts the merge (it refuses it for
  market ids whose bytes differ in the two byte orders, and when the outcome
  mints are passed read-only, as the merge declares them).
- `app/` is the on-chain program around the library: account parsing and
  address derivation, the clock, and the calls into the token program.
- `tests/` runs the instructions against a small stand-in token program.
