# codex_bridge

Verified decision logic of a coding-agent host, written in Verus: executable Rust whose behaviour
is stated in contracts and proved.

- `src/thread_setup`: connection-scoped handles of asynchronous thread setup, with their expiry,
  their completion and the steps of a bounded wait.
- `src/provider`: exact terminal attribution of a provider's input tokens to the items of a request.
- `src/skills`: telemetry of skill reads, and the records, counters and events of skill
  invocations.
- `src/authorization`: classification of commands that can reach credentials, and announcements
  that never carry the commands.
- `src/text.rs`, `src/digest.rs`: text and digests.

Proof functions named `law_...` state what holds over several calls.

`app/` is the host around the library: shared state, clocks, child processes, the database and the
network. `tests/` runs the library on concrete values, with the outside crates linked.
