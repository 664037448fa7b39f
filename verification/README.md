# OpenHanse

A peer-to-peer chat network: a **hub** registers peers, decides whether two
peers talk directly over TCP or through a relay session it keeps, and relays
messages; a **gateway** registers with a hub, keeps its lease, sends what its
user types and keeps an inbox of what arrives.

## Layout

- `src/` — the verified library (Verus).
  - `hub.rs`, `peers.rs`, `relay.rs`, `hub_api.rs`: the hub's state and
    its answers to registration, heartbeat, lookup, connect, attach, send and
    poll requests; `hub_laws.rs` states and proves what holds across requests.
  - `gateway.rs`, `gateway_state.rs`, `gateway_flow.rs`: a gateway's
    configuration and advertised reachability, what it remembers, and the
    decisions between its calls (sending a message is a state machine);
    `gateway_laws.rs` holds their laws.
  - `runtime.rs`, `web.rs`: peer modes, hub configuration and the reports of
    the runtimes.
  - `cli.rs`, `cli_laws.rs`: the chat program's options, server-URL parsing
    and prompt commands.
  - `runner.rs`: the logic of a three-pane desktop runner for local demos.
  - `text.rs`, `model.rs`, `clock.rs`, `ids.rs`: characters and numbers,
    the exchanged data with their views, clocks and UUIDs.
- `app/` — the command-line program: HTTP and UDP servers and clients,
  files, the terminal, and the C bridge of the web interface's runtime;
  `runner_gui.rs` draws the desktop runner with egui and runs its
  processes on pseudo-terminals.
- `tests/` — tests of the library.
