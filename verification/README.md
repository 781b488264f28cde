# beluga

Clients for AWS IoT (MQTT, jobs, secure tunneling) over the AWS IoT SDK, and
the build logic that compiles the AWS C libraries, with their decisions
written in Verus and proved against their contracts.

Layout:

- `src/` — the verified library.
  - `proto`, `framing`: secure tunneling messages and their length-prefixed
    framing on the websocket.
  - `mqtt`: result and error codes, client configuration, connection status,
    subscriptions and message routing, and the checks around each request.
  - `jobs`: job records and the decisions of the jobs clients.
  - `tunnel`: where a tunnel connects and what its events mean.
  - `logging`: log subjects of the AWS libraries, their `log` targets and
    levels.
  - `connect`: MQTT connection and socket options.
  - `build`: targets, compiler probes and properties, header templates,
    source selection and the bindings allowlist of the C library builds.
  - `future`: a lock that is only ever tried.
- `tests/` — tests of the library.
- `app/` — the program and the code around the library: the SDK calls, the
  network and file I/O, and the build-script plumbing.
