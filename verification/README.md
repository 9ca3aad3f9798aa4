# crfty_core

The domain core of CRFty, a video re-encoding queue: the queue and its
commands, the durable journal and its replay, media records and their
imported history, the analysis read model, output transactions with crash
recovery, and the projections (history rows, statistics, estimates) that a
front end reads. Every public function in `src/` carries a contract that
Verus proves.

## Layout

- `src/types/`: the data types and their mathematical views.
- `src/state.rs`, `src/reducer.rs`, `src/queue_commands.rs`,
  `src/worker_commands.rs`: the durable state, the fold of a delta into it,
  and the reducer that turns a command into a reply, deltas and effects.
- `src/journal.rs`, `src/durability.rs`, `src/preparation_replay.rs`,
  `src/run_records.rs`, `src/working_runs.rs`: framing and replay of the
  journal, and the law that replaying a live journal rebuilds the live
  state for every run of commands, except one in which the reducer
  journals a step that replay refuses: a start reported for an item that
  is not claimed, a preparation that reuses a run id, journals an
  observation lacking a media fact or names a parked path twice, or a
  terminal report for an item that is only reserved.
- `src/queue_shape.rs`: the queue's shape (finished, then at most one
  active item, then pending items) and the laws that every command keeps it.
- `src/output.rs`: the output transaction ledger and recovery after a
  restart.
- `src/media.rs`, `src/history.rs`, `src/policy.rs`, `src/execution.rs`:
  media records, import adoption, eligibility and job decisions.
- `src/analysis.rs`, `src/analysis_status.rs`: the analysis generations and
  row status, with the law that imports never raise a row's status.
- `src/projection.rs`, `src/key_order.rs`, `src/observation.rs`,
  `src/statistics.rs`, `src/estimation.rs`: the read-side projections; keyed
  collections are visited in ascending key order.
- `src/lookup.rs`, `src/text.rs`, `src/model.rs`: shared sequence lookups,
  the text order, and the views of collections.
- `app/`: ordinary Rust around the library: the journal's JSON codec
  (serde) and the floating-point figures of statistics and estimates.
- `tests/`: tests that run the library on concrete values.

## Building

Verus checks the proofs from `src/lib.rs`; the tests run with `cargo test`.
