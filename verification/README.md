# pullpiri

The decision logic of the Pullpiri vehicle service orchestrator, written in
Verus with its contracts proved.

- `src/statemanager/`: the scenario, package and model state machine
  (transition tables, health tracking, state evaluation from containers and
  models, grouping of container reports by model), the request validation of
  its receivers and the reports of its action executor. `laws.rs` states the
  properties that hold across calls.
- `src/apiserver/`: node registration and lookup, cluster health, topology
  storage (base64 framing), artifact splitting and selection, REST status
  replies and the keys under which records are stored.
- `src/monitoring/`: the SoC and board ids derived from node addresses and
  the store of node, SoC, board and container reports.
- `src/logservice.rs`: the bounded log history.
- `src/proto.rs`, `src/strmap.rs`, `src/text.rs`: the wire enums and
  messages, association lists with their map view, and string helpers.

`app/` runs the services around the library: HTTP routes, input read as
JSON lines, channels and the action executor, and an in-process record
store for the records the library says to write. `tests/` exercises the
library on concrete values.
