# chai_framework

A framework for hosting terminal user interfaces (ratatui applications) over
SSH (russh).

- `src/` is the verified library: the `ChaiApp` trait that applications
  implement; the server and per-connection handler state with its settings,
  identifiers, admission rule and terminal size (`server`); the registry of
  connections, which never holds more than the configured maximum (`registry`); the screening of client input (`input`); the
  terminal control sequences (`escape`); the output handle that gathers bytes
  into frames and offers them to a bounded tokio channel (`terminal`); and the
  host key error texts (`keys`).
- `app/` is the asynchronous SSH side: the russh handler, the shared client
  table behind a tokio mutex, the once-a-second redraw task, frame forwarding,
  and host key loading from disk.
