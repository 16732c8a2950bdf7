# token_budgets_rig

Budgeted, metered language-model calls, verified with Verus.

- `src/pricing.rs`: per-token prices and the saturating cost of a call, with
  proofs that cost grows with tokens and that a reservation priced for the
  output limit covers any output within it.
- `src/metering.rs`: the reserve / call / settle protocol as typed phases,
  each deciding the next step from what the outside step returned.
- `app/lib.rs`: the asynchronous functions that await the model and talk to
  the `token_budgets` pool, and the float conversions from dollars.
