# store

The decision core of a quantitative research workbench's store: which native
jobs may start, how their results become evidence, how Candidates become
releases, approvals and handoffs, and how model turns are reserved, sent once
and settled. Every function in `src/` carries a contract that Verus proves;
PostgreSQL keeps the rows, and the functions here decide on the rows a
transaction has locked.

## Layout

- `src/ids.rs`, `src/text.rs`, `src/error.rs`: identities, counters, UTC
  instants (with chrono's range), exact decimals, bounded text and the
  refusals every function reports.
- `src/turns.rs`, `src/review.rs`, `src/mission.rs`, `src/credential.rs`,
  `src/auth.rs`: Mission turns (reservation, one dispatch, binding, terminal
  facts, usage receipts), public summaries and the independent assessment,
  Cycle transitions, Mission credentials and the machine authentication windows.
- `src/runs.rs`, `src/probe.rs`, `src/native.rs`, `src/experiment.rs`,
  `src/research.rs`, `src/settings.rs`: runtime capabilities and probes, native
  job plans and result adoption, experiment stages, research inputs and
  integration secret references.
- `src/validation.rs`, `src/sealed.rs`, `src/forward.rs`: verdicts of
  validations, held-out executions and Candidate simulations, sealed
  opportunities and qualifications, forward measurements and Live promotion.
- `src/publication.rs`: where publishing a Run's result starts: earlier
  publications are replayed, and only a terminal Run publishes anew.
- `src/portfolio.rs`, `src/portfolio_build.rs`, `src/weights.rs`,
  `src/study.rs`, `src/simulation.rs`, `src/mandate.rs`, `src/release.rs`,
  `src/approval.rs`, `src/handoff.rs`, `src/rebalance.rs`: portfolio admission,
  current weights, releases, approvals, handoffs and automatic rebalancing.
- `app/`: conversions between the database's value types and the library's,
  and the JSON answer the independent assessor ends its turn with.
- `tests/`: concrete scenarios for every module.

Outside crates: `uuid` parses stored secret references and writes a
reservation's identity as the native request identity, and `bigdecimal`
compares missing data with the allowed fraction exactly; these calls sit behind
small trusted wrappers whose contracts are stated in the source.
