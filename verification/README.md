# bbot

B-Bot is a local command line assistant: a planner model (Ollama, or the
Codex app-server) picks one of a fixed set of typed tools, and B-Bot decides
whether and how that tool runs.

- `src/` is the library, verified with Verus. It holds the planner protocol
  (chat replies, the Codex prompt and answer, the app-server's JSON-RPC
  messages and the decisions taken on them), the tool registry and the tools'
  argument checks, previews and reports, and the session rules: what a typed
  line means, what a plan leads to, when a tool runs, asks first, or stops.
  JSON values stay `serde_json::Value`s; every accessor and constructor is
  specified over a plain view of the value.
- `app/` is the program around it: argument parsing, terminal I/O, the HTTP
  call to Ollama, the app-server process, the Docker daemon, tokei and
  Tarpaulin.
- `tests/` runs the library on concrete values.
