# forge_trace

The decisions and texts behind three parts of a coding agent, written in Verus:

- the session trace: which events of a session are recorded, and the lines, one JSON object each,
  that are appended to the file named by `FORGE_TRACE_FILE`;
- prompt rendering: the steps from command-line arguments to an agent's system prompt;
- tool-call normalisation: what becomes of a tool call, given what the tool catalogue says of it.

`src/` is the verified library. It touches no files and awaits nothing: it says what to do next and
takes what came of it as an argument. JSON values are `serde_json`'s, timestamps `chrono`'s; what is
believed of those crates without proof stands in `src/json.rs` and `src/clock.rs`, with a comment on
each item.

`app/` carries the library's decisions out inside the agent: it appends to the trace file, asks the
agent's services, and reads and writes standard streams. It needs the agent's own crates.

`tests/` runs the library on concrete values.
