# Role Manager DAO

Role-based governance for a Soroban contract: every role change goes through a
proposal and a vote. A proposal is opened with `create_role_proposal`, resolved
once three votes are cast (passed on a strict majority in favour, rejected
otherwise), and a passed proposal is carried out with `execute_proposal`.

- `src/` is the verified library. `rules` holds the decision of each contract
  call over the storage entries it reads; `state` models the whole contract
  storage and the invariant of every reachable storage; `laws` proves that
  every call keeps that invariant and how the calls relate; `dao` is the
  contract with its storage held in memory.
- `app/` is the Soroban contract itself: it reads and writes the ledger storage
  and delegates every decision to the library.
- `tests/` runs the contract's scenarios and the decisions on concrete values.
