# buyu

The rules and decisions of the BuYu AI chat client, written in Verus and
proved against their contracts.

- `src/` is the verified library: the data models, the validation of
  channels, agents, conversations, models and messages, the planning of
  message versions, the streaming of a generation (thinking tags, the
  buffers written out as content chunks, the events sent to the listener),
  the server-sent events framing, the request messages, headers and JSON
  bodies of each provider family, what the JSON of their answers and
  streamed events says, the plans of an edit, a reroll, a send's attempts
  and a finished reply, what a whole streamed reply of each provider family
  comes to, the chunks a whole streamed generation writes, the events told
  to the listener of a streamed reply, the default provider adapters, the
  reading of server-sent events from bytes, the assembly of a generation context from its
  materials, the prompt and message pages read back from storage rows, the
  content store's layout, and the in-memory secret store.
  Calls into `uuid`, `chrono`, `sha2`, `regex`, `serde_json`, and `url` and
  `http` (through `reqwest`) stand behind a few trusted items whose contracts say
  what the library relies on.
- `app/` is the ordinary Rust around it: HTTP with `reqwest`, the files of
  the content store, the loop of a streamed generation, the read loops of
  streamed replies, and the floating-point scores of lorebook matches.
- `tests/` runs the library on concrete values.
