# client

The core of an editor's client telemetry, verified with Verus, and of the list
header that its user interface draws.

* `src/` is the library. Its contracts say when an event is queued, when the queue
  is sent, what is sent, and how kinds of projects are recognised.
  * `telemetry` holds the state and what can happen to it.
  * `history` states what holds over any course of events.
  * `flush` and `request` lead through the delivery of a batch of events.
  * `event` and `time` are what events are made of.
  * `checksum`, `os`, `project_types`, `dotnet` and `text` are what these rest on.
  * `list_header` works out how a list header is drawn.
* `tests/` runs the library on concrete values.
* `app/` is ordinary Rust around the library: clocks, timers, files, the network,
  JSON and the widget toolkit.

Four functions are believed rather than proved: `String::push`, the SHA-256 of
`sha2`, and `Regex::new` and `Regex::is_match` of `regex`, on one expression. Each
stands behind a contract whose comment says what it claims.
