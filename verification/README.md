# daemon

The decision logic of the pv daemon, verified with Verus: how reconciliation and update jobs
are routed, queued, streamed and finished; how a System, Project or Managed Resource
reconciliation moves from one piece of work to the next; which default Managed Resources are
planned, prefetched and installed, and in what order; how runtimes are started, adopted and
waited for; and the texts the daemon reports.

## Layout

- `src/` is the verified library. Work that touches the outside world (the state store,
  artifact downloads, processes, sockets, the clock) is not done here: multi-step passes are
  written as step functions from a state and the result of the last piece of work to the next
  state and the work to do (`system`, `update`, `project`, `resource_scope`, `track`, `start`,
  `streamed`, `prefetch_steps`, and the default-install steps in `desired`),
  and single decisions take the outside results as arguments.
- `app/` is ordinary Rust around the library: randomness, clocks, files, signals, the serde
  form of the job events, and the loops that run the step functions.
- `tests/` exercises the library on concrete values.
