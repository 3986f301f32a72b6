# executors

The rules by which coding agents are set up and driven, with proofs.

- `src/acp` holds a session over the Agent Client Protocol: the client's answers
  to permission requests and questions, the terminals, the stored history, and
  the conversation that is made from the events.
- `src/profile` and `src/agents` hold the agents, their configurations, and what
  a user changes of them.
- `src/config.rs`, `src/process.rs` and `src/logs` hold the settings, the ending
  of processes, and the entries of a conversation.
- `src/text.rs`, `src/json.rs`, `src/collections.rs` and `src/path.rs` are what
  the rest is written with.

What holds of the whole is stated in proof functions whose names begin with
`law_`. Calls into other crates stand behind small functions marked as trusted;
each says what it relies on.

`app` is ordinary Rust around the library: files, processes, streams and the
wire formats.
