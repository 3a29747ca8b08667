# synapse_agents

The rules by which a daemon keeps track of the agents that work for it, written in
Rust and proved with Verus.

- `tasks`: the durable task queue. Its states, the order of dispatch, reservations,
  reconciliation, retention and repairs.
- `transcripts`: the ingest of spawned agents' output, line by line, into durable
  rows. `drive` says what is read and written, and in which order.
- `ambient`: agents that were not spawned here. Their sessions are discovered,
  tailed and journaled, with an outbox that makes every event count once.
- `browser`: what the drag and upload tools accept, what they run in a page, and in
  which order.
- `facades`, `replays`: the audit and the replay tool.
- `text`, `json`, `digest`, `roots`, `guarded`, `checks`: what the others share.

`src/` is the library. Every function in it has a contract; the few calls into
`serde_json`, `sha2`, `chrono` and the standard library that are believed without
proof are marked `external_body` or `assume_specification`, each with a comment that
says what is claimed of it.

`app/` is the ordinary code around the library: storage, files, the browser and the
clock. It asks the library what to do, does it, and hands the answer back.

`tests/` runs the library on concrete values.

The vendor whose sessions are discovered is named in `TranscriptRules`, in lower
case, and callers hand the name on. It is the vendor that
`TranscriptSource::ClaudeStreamJson` is named after.
