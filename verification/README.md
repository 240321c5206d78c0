# mycelium

An agent pipeline on NATS: Telegram updates (or CLI lines) become tasks,
an executor drives each task through LLM steps and tool calls, skills run
as sandboxed components, and replies go back to the chat. This crate is
the pipeline's logic as a library verified with Verus, plus the process
glue around it.

## Layout

- `src/` — the verified library. Every function carries a `requires` /
  `ensures` contract and is proved by Verus; the public proof functions
  (`lemma_*`) state the library's laws.
  - Messages and records: `types`, `json`, `records`, `task_record`,
    `manifest`, `session`, `pairing`, `step_wire`, `bus`, `tg_wire`.
  - The task loop: `executor` (task state and its transitions), `llm`
    (request caps, circuit breaker, retry policy, step settings),
    `agent_core`, `compaction`, `hooks`.
  - Channels: `router` and `channel` (routing chat text, slash commands),
    `telegram` (long poll, delivery, streamed edits), `cli`, `gateway`
    (HTTP request bodies and replies).
  - Skills: `tool_runner`, `hook_runner`, `loader` (cache key and pin
    check), `registry`, `dispatch`, `tools`, `skills`, `calc`.
  - Stores and ordering: `store`, `ordering`, `quota`, `events`,
    `subject`, `civil`, `text`, `config`.
- `app/` — ordinary Rust around the library: the NATS, key-value, HTTP
  and Telegram I/O, the service loops, configuration loading, serde forms
  of the records, and the floating-point parts (evaluating calculator
  trees, reading retry hints).
- `tests/` — tests of the library's public functions.

The few calls into outside crates that the logic makes (hashing, hex,
JSON parsing and string quoting, UUIDs, the clock, UTF-8 decoding) stand behind small
trusted wrappers whose contracts say what those crates document.
