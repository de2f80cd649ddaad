# ws-tunnel

A small TCP-over-WebSocket tunnel whose decisions are verified with Verus.

- `src/` is the library: the wire protocol, the sessions of server and client,
  the relay, the hand-over of connections to workers, the mappings, the worker
  pool, the settings and the command line. Each state machine is a function
  from a state and an event to what is sent and what comes next; `tunnel.rs`
  states what the two sides achieve together.
- `app/` performs what the library decides: sockets, timers, tasks and files.
  One executable is both programs: installed as `server` or `client` it is
  that one, and under any other name `ws-tunnel server [CONFIG_PATH]` and
  `ws-tunnel client [CONFIG_PATH]` choose.
- `tests/` runs the library on concrete values.
