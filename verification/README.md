# herdr

Federation of terminal servers, and browser panes, as a verified library.

A herdr server holds workspaces of tabs of panes. Servers can be peers of each
other: one shows panes of the other, sends it requests, and follows it across
lost connections and restarts. A pane can also hold a browser session that an
outside program drives.

`src/` decides; it does no input or output. A function takes the state and what
happened, and returns the next state and what is to be done: a request to send,
a view to connect, a program to run. Every function is proved against its
contract with [Verus](https://github.com/verus-lang/verus).

| module | what it holds |
| --- | --- |
| `app::peers` | the registry of peers, their namespaced ids and pending cleanups |
| `app::api::peers` | routing of requests, views and their life, answers restated |
| `app::api::announce` | the events that go out with what was done |
| `app::api::browser`, `browser` | browser panes, their sessions, keys and captures |
| `app::{peer_picker, peer_setup_dialog, hidden_peer_picker, hitbox, session}` | dialogs, the dump of controls, saving |
| `api` | the client's exchanges, the event hub, the shapes of requests and answers |
| `cli` | the `peer` and `browser` commands |
| `instance_id`, `public_id`, `persist`, `client::frame_dump` | ids, snapshots, scanning of frames |
| `text`, `paths`, `search`, `pairs`, `json` | what the rest is stated over |

Properties of several functions together are public proof functions whose names
begin with `law_`.

JSON values and SHA-256 come from `serde_json` and `sha2`, and the quoted form of a
text from std; what is relied on is said in `src/json.rs`, `src/instance_id.rs` and
`src/text.rs`.

`app/` is ordinary Rust around the library: sockets, files, processes, threads,
and the event loop that hands requests and events to it (`app/host.rs`).
`tests/` runs the library.
