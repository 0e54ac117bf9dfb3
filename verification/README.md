# orbitrelay

The verified core of the OrbitRelay server, written in Verus.

- `src/` is the library. Its modules:
  - `text`: decimal rendering and parsing of unsigned integers;
  - `foundation`, `protocol`, `node`: the value types (identifiers, timestamps,
    payloads, metadata, actions, events, node records);
  - `record`, `query`, `memory`, `storage_error`, `storage_laws`: the
    append-only in-memory event store, its cursors and paginated queries, and
    the laws it satisfies;
  - `registry`, `runtime`, `runtime_error`: the handler registry, the fixed
    order of an action's lifecycle steps, and event materialization;
  - `config`, `lifecycle`, `bootstrap`, `context`, `server_error`:
    configuration, the process lifecycle with its health view, the sequence of
    node registry operations at startup and shutdown, and the context that
    holds a process's node, lifecycle and dependencies.
- `app/` is the asynchronous process around the library: thread-safe shared
  stores, the handler, authorizer, pipeline, bus and node registry ports,
  environment configuration and `main`.
- `tests/` exercises the library on concrete values.
