# torque_harness

The decision logic of the torque harness service layer, verified with Verus.

`src/` is the library. Each module holds the rules of one service, with contracts
over mathematical models and the laws that relate its operations:

- `team/` — retry budgets and per-member circuit breakers, the supervisor's four
  team modes (each also as a step-by-step run, like a team task's run in the
  supervisor), selector resolution, the supervisor's tools, delegation events read
  from streams, the team's shared state.
- `recovery`, `event_replay` — what a checkpoint says about an instance, how a
  team and its tasks recover, which handler replays which event.
- `vfs` — routing between the scratch store and the workspace, the scratch store
  itself, glob and grep.
- `run`, `webhook`, `session` — follow-up chains of runs, webhook retries,
  session compaction jobs.
- `gating`, `candidates`, `merge_strategy`, `notification`, `reflexion` — the
  memory pipeline.
- `delegation`, `governed_tool`, `services` — delegation packets and status
  changes, tool governance, the repository-backed services.

Repositories are held as opaque handles chosen by the caller; floating-point
scores are compared by the caller and reach the library as booleans.

`app/` is the I/O around the library: JSON conversion, the on-disk workspace,
webhook delivery over HTTP, waiting on event streams, the loops that drive the
mode runs and a team task's run, the Redis connection and the floating-point
quality scores.
