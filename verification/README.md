# nessa_sdk

Coordination logic of agent sessions, proved with Verus: permission reviews and
tool observations of one execution, retention budgets, bounded diagnostics,
provider cleanup reports, and the lifecycle that admits work, stops it and
reopens admission.

Layout:

- `src/` — the verified library. `agent_execution::executions` holds the
  execution controller and its laws; `agent_execution::agents` the typed
  failures and their bounds, the session lifecycle state machine
  (`lifecycle`, `lifecycle_laws`), the bounded input queue with admission and
  withdrawal (`queue`), and the decisions the agent takes between its awaits:
  each long-running task is a step from its state and the outcome of the last
  outside call to its next state and the next call (`runner` for an
  invocation's observation loop, `invocation_task` for its admission and
  settlement, `attachment_task`, `pending_run`, `steering_task`, `recovery`),
  with the result assembly and retry rules in `settlement`;
  `agent_execution::providers` cleanup reports and capabilities;
  `agent_execution::sessions` storage evidence, dispatch authority and cleanup
  failure joining; `domain` the value objects these use.
- `tests/` — scenarios run against the compiled library.
- `app/` — the runtime around it: host callbacks under panic isolation, the
  lifecycle under a lock with its cleanup tasks, the async drivers that run
  each verified step against host-implemented ports (`runner`, `tasks`),
  serialized boundary records, and the traits hosts implement.
