# local_workflow_agent

A local coding-agent workbench: a provider registry for Anthropic, OpenAI and
OpenAI-compatible servers, the agent's tool-calling turn loop, goal tracking,
file uploads, and the chat UI's state (settings, streaming, sessions,
permission prompts, stored messages).

The library under `src/` is written in Verus: each function states what it
returns or changes in `requires`/`ensures`, and Verus proves it. Laws that
relate several functions are public proof functions named `law_*`.

- `src/api/` — provider specs and the registry, request options, uploads.
- `src/agent/` — the tool-calling turn as a state machine (`turn.rs`), the
  scripted mock provider, per-tool input buffers.
- `src/ui/` — chat settings, the UI turn driver, stream translators for the
  Anthropic, OpenAI and unified event formats, sessions, permission handling,
  and how blocks are stored (`storage.rs`).
- `src/goal.rs`, `src/sqlite_storage.rs` — goals and stored rows, read from
  plain row cells.
- `src/json.rs` — the `serde_json` and `std::path` calls the library makes,
  each behind a small trusted wrapper whose contract is stated over named
  results (`json_get`, `json_str`, ...).

`app/` is ordinary Rust around the library: the program's entry point, file
and database I/O (SQLite through `rusqlite` and `turso`), HTTP uploads, the
async loops that drive the library's state machines, and serde copies of the
library's types.
