# bounty_escrow

A verified bounty escrow. Depositors lock funds for a bounty; the admin
releases them (wholly or in part) to a contributor or approves refunds ahead
of the deadline; once the deadline is reached the depositor can take back
what is left. The admin role is handed over in two steps with a timelock.

- `src/types.rs`: accounts, records, errors, and the effects (authorization,
  token transfer, event) that an operation asks its host to carry out.
- `src/model.rs`: the mathematical state, its invariant, and for each
  operation the answer and the next state.
- `src/escrow.rs`: the executable escrow, each operation proved against the
  model.
- `src/laws.rs`: properties across operations (status transitions, funds
  following transfers, the refund eligibility report, the rotation timelock).
- `app/lib.rs`: a Soroban contract that keeps the records in contract
  storage, runs the verified operations, and performs their effects.
