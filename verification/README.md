# rtc-agent

The agent of Remote Terminal Cloud: it registers a machine with the backend, keeps it
alive with heartbeats, and opens an outbound websocket tunnel through which the backend
starts and drives terminal sessions on the machine.

## Layout

- `src/` — the library, written in Verus. Its functions carry contracts that Verus
  proves: configuration resolution, preference sanitising, shell selection and
  session planning, error classification, the agent's retry and backoff decisions,
  service-manager step plans, path and `PATH` editing, packaging names, directories and release
  version rules, the per-user file locations, and the desktop supervisor's state machine. Calls into outside crates
  (`sha2`, `hex`, `which`, `hostname`, `url`, and a few `std` functions) go through small
  trusted wrappers whose contracts are stated next to them.
- `tests/` — tests of the library on concrete values.
- `app/` — the `rtc-agent` program (which also serves as the Windows install helper when
  started as `rtc-agent-installer`, and as the release driver when started as
  `rtc-agent-packaging`: builds, archives, CI checks and version bumps): command line,
  files and environment, HTTP and websocket I/O, pseudo-terminals, and running the
  service steps the library plans.

Verify the library with `verus` on `src/lib.rs`.
