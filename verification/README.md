# milestone_escrow

A milestone escrow for a Soroban contract: a client funds a job made of
milestones, the freelancer marks them delivered, the client approves payouts
(in full or in part), either party can raise a dispute that the arbiter
settles, and an administrator manages the token whitelist, the platform fee
shares, an emergency pause and override payouts.

The escrow is written in Verus. Its state and every entry point are verified
functions over plain data (`src/`); each entry point either refuses with an
error and leaves the state untouched, or returns the new state together with
the effects the host must carry out (a token transfer, the storage entries to
write, an event).

- `src/address.rs`: addresses as strkey text.
- `src/types.rs`: errors, milestones, job data, storage keys, events, effects.
- `src/arith.rs`: amount checks, fee validation, nearest-rounded splits.
- `src/allocation.rs`: the largest-remainder split of an amount by ratios.
- `src/escrow.rs`: the state, its invariant, and the administrator's operations.
- `src/workflow.rs`: set-up, funding, delivery, approvals, auto-release,
  disputes and override payouts.
- `src/laws.rs`: properties that span operations.
- `app/`: the Soroban contract shell that loads storage, checks
  authorizations and performs the effects.
- `tests/`: scenarios and properties run against the library.
