# enaos

The decision logic of the EnaOS desktop daemon (`enad`) and of its status
bar, written in Verus and proved against its contracts.

- `src/` is the verified library: event and command handling, the
  orchestration engine (plans, dependency order, runs with retries and
  rollback), workspace snapshots and restoration planning, memory records and
  queries, ambient suggestions with their rate limits and dismissals, command
  resolution, the parsers for the desktop tools' output, and the bar's and
  palette's state machines. Calls into `uuid`, `chrono` and `std` that the
  logic needs stand behind small trusted wrappers whose contracts say what
  their documentation or source shows.
- `tests/` runs the library on concrete values.
- `app/` is the daemon around it: the Unix-socket IPC server, SQLite stores,
  D-Bus and desktop-tool watchers, process supervision and the async loops
  that feed events to the library and carry out what it decides.
