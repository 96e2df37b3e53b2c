# qubit-budget

Finite, explicit accounting for work — bytes read, nodes visited, output
produced, capacity borrowed from a pool, time spent — written in Verus and
verified against its contracts.

Layout:

- `src/resource/` — quantities, point limits, spendable budgets, releasable
  pools (plain and shared), their errors, and the laws relating them.
- `src/structure/` — depth, node, container and key limits for nested values.
- `src/string/` — transactional string rendering under a byte budget.
- `src/json/` — JSON limits and sessions, a non-recursive lexical scanner that
  validates one document and charges each of its values, its grammar and
  admission model as spec functions, and a bounded output buffer.
- `src/time/` — durations, duration budgets and deadline decisions.
- `app/` — Serde JSON adapters, clock-backed deadline budgets and
  displayable error types built on the library.
- `tests/` — scenario and edge-case tests of the library.

Note on shared pools: a `ManagedResourcePermit` returns its capacity only
through `release()`. A permit that is dropped without being released keeps its
capacity out of the pool. Verus requires a destructor that can neither unwind
nor open an invariant, and the verified lock guarding the pool's availability
opens one.
