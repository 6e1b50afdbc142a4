# workengine

A durable runtime for coding agents. A **Work** has a goal, a Worker profile
and a status (`ready`, `running`, `succeeded`, `failed`, `parked`); a
**Worker** is a sandboxed OS process with a budget and a private workspace;
the control plane is the only writer of a Work's status.

The library under `src/` is verified with Verus. It holds:

- `domain`: identifiers, the lifecycle state machine, closed outcomes, the
  append-only event log and its replay, execution snapshots;
- `control`: the use cases (create, next, start, complete, park, recover,
  operator controls), the queue, quotas and integrations, written over ports;
- `store`, `workspace`, `worker`, `api`, `cli`, `profile`: what the adapters
  decide — how stored rows read back, when a write is refused, the command
  line a sandboxed Worker is launched with, how the local API pages and
  answers, which runner a Work gets.

`app/` is the `workengine` command around it: SQLite, files, processes, the
HTTP server and argument parsing. `tests/` exercise the library.
