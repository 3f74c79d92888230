# bgp

The core of a BGP speaker, verified with Verus: how messages are read from bytes, and
what a session does on every event.

- `src/wire.rs`, `src/open.rs`, `src/update.rs`, `src/message.rs`: the decoders. Each has
  a specification of what it makes of any bytes: the value, the error, and how many bytes
  it passes.
- `src/connection.rs`: taking messages from what a connection has received, and what
  becomes of them.
- `src/fsm.rs`: the states of a session, its events and its timers.
- `src/transition.rs`: for every state and event, the next state and the actions that go
  with it. `src/session.rs` computes them.
- `src/codec_laws.rs`, `src/session_laws.rs`: what holds of every message and of every
  session.
- `app/`: the program around it: sockets, tasks and clocks. It performs the actions that
  a session asks for and hands back what happens.

A session does not go on at every event. `State::accepts` says whether it does; the
program tests it before each step.
