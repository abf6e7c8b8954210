# pipewire_connection

The client side of a PipeWire patchbay, verified with Verus: what a connection knows of the graph,
what it tells the user interface, and what it requests of the server.

- `src/` is the library. It performs no I/O. Each handler takes what was received and returns what
  is to be done, in order, and its contract says exactly what that is.
  - `ripe` is the client that speaks PipeWire's own protocol: `connection` holds the event handlers,
    `toggle` makes and removes links, `session` covers how a connection starts and what ends it, and
    `laws` proves what holds over whole runs of events. Among the latter: the user interface always
    shows exactly the items that the graph holds.
  - `native` is the client of the native library.
  - `state` is the graph as known, `link` describes links as properties, `dictionary` holds
    properties, `text` searches text and writes and reads numbers.
- `tests/` exercises the library on concrete values.
- `app/` connects the library to the event loops, channels and sockets.

Handlers whose events can be malformed state in `requires` which events they take. Beside each stands
a function that tests for it (`accepts_registry_event`, `accepts_link_event`, `accepts_port_event`,
`can_toggle_link`, `check_global`).

The library rests on no assumptions of its own about other crates: it has no trusted declarations
beyond those of Verus's standard library.
