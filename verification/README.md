# qubit-executor

Runtime-neutral executor building blocks with verified state machines.

`src/` is the verified library:

- `service` — the lifecycle of managed executor services
  (`ExecutorServiceLifecycle`), the state machine of the thread-per-task
  service (`ServiceState`: admission, active-task accounting, shutdown, stop,
  termination), the bounded termination-wait decision, stop and shutdown
  reports, submission and build errors, and the service builder.
- `schedule` — the deadline scheduler shared by a scheduled service and its
  single worker (`SchedulerState`, queued in a `qubit_collections`
  `OrderedIndexMap` keyed by task id and ordered by deadline), the worker's
  decisions, the two-phase stop, and the heap-based state of the
  single-threaded scheduled service with its task counters.
- `executor` — executor configurations (delay, direct, instant-based,
  thread-per-task) and their builder.
- `hook`, `task` — task ids, the task hook trait and task statuses.

Every transition is stated against a mathematical model (`*View` types and
`*_after_*` spec functions); the laws that relate the transitions are public
proof functions beside them.

`app/` holds what runs around the library: worker-thread spawning, the locks
and condition variables that share the state machines, the scheduled worker
loop, hook notification with contained panics, the logging hook, the
process-wide task id counter, and error types with `Display`.
