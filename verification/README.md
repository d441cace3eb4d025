# shambachain

A farm ledger with credit scoring and micro-loans, verified with Verus.

Farmers register, record harvests, sales and expenses, and earn a credit
score (100 to 850) from that history. A score of at least 200 lets a farmer
apply for a loan up to the limit of the score's tier; the lender approves
(disburses) or rejects it, and a full repayment closes the loan and adds a
bonus of 50 points, capped at 850.

Layout:

- `src/score.rs` — the scoring formula, tiers and loan limits, with laws on
  their bounds and monotonicity.
- `src/ledger.rs` — the ledger as a mathematical state (`LedgerView`), what
  every operation does to it, and the invariant every operation keeps.
- `src/laws.rs` — properties spanning several operations (read after write,
  refusals change nothing, the loan life cycle).
- `src/history.rs` — runs of several calls, and which records survive them
  (administrator, entries, profiles, loans, latest loan ids).
- `src/contract.rs` — the executable ledger `ShambaChain`, each operation
  proved to behave as its model says.
- `src/table.rs` — the verified key/value tables the ledger is stored in.
- `src/types.rs`, `src/error.rs`, `src/events.rs` — records, errors and the
  events operations publish.
- `app/lib.rs` — the Soroban contract: it checks authorization, supplies the
  ledger time, keeps the ledger in contract storage and publishes events.
