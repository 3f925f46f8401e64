# sherpa_server

The decisions of `sherpad`, the Sherpa lab server, as a library verified with
Verus, and the `sherpad` command line around it.

- `src/` — the verified library.
  - `auth/` — access rules (`context`), the authentication cookie (`cookies`),
    the choice of a session among bearer and cookie tokens, the page
    extractors' decisions and their log events (`session`).
  - `api/` — API errors and their JSON shape (`errors`), the decisions of the
    HTTP handlers, among them the login flow as a state machine
    (`handlers`), RPC routing and user-management rules (`rpc`), status
    messages (`messages`), asset content types (`assets`).
  - `daemon/` — PID-file decisions (`pidfile`) and stopping the daemon as a
    state machine (`lifecycle`).
  - `services/` — guest environment and certificate files and CPU overrides
    (`node_ops`), container and CD-ROM ZTP plans (`ztp`), bringing a lab up
    (`up`) and redeploying a node (`redeploy`) as state machines, starting
    and stopping nodes (`node_actions`), destroying labs (`destroy`), runtime
    state detection (`scanner`), node indices, bridge names and topology
    lookups (`topology`), who may inspect a lab and VNC ports (`inspect`),
    image download, selection and scan decisions (`import`).
  - `text.rs` — character-sequence helpers and their lemmas.
- `tests/` — tests of the library on concrete values.
- `app/` — `sherpad` itself: argument parsing, PID-file and signal I/O, JWT
  signing and checking, API error bodies, feeding the library's decisions.

Functions state their results in `ensures` over spec functions; the
properties that relate several functions stand as `law_*` proof functions.
