//! The picker of a peer's workspaces, the dialog that adds a peer, and the list
//! of hidden peers.

use herdr::api::schema::workspaces::{AgentStatus, WorkspaceInfo};
use herdr::app::api::peers::forward::{Reply, Started};
use herdr::app::hidden_peer_picker::{HiddenPeerEntry, HiddenWrite};
use herdr::app::peer_picker::peer_unavailable_reason;
use herdr::app::peer_setup_dialog::{
    peer_connect_command, peer_history_destination, shell_quote, AddPeerField, AddPeerState,
    PeerConnect,
};
use herdr::app::peers::{PeerConnectionState, PeerHandle, PeerIdentity, PeerTarget};
use herdr::app::state::{App, AppState, Mode, PeerHistoryEntry};
use herdr::browser::keys::{KeyCode, KeyEvent, KeyEventKind, KeyModifiers};

const INSTANCE: &str = "aaaaaaaaaaaaaaaaaaaaaaaaaaaaaaaa";

fn key(code: KeyCode) -> KeyEvent {
    KeyEvent {
        code,
        modifiers: KeyModifiers {
            control: false,
            alt: false,
            shift: false,
            super_key: false,
            other: false,
        },
        kind: KeyEventKind::Press,
    }
}

fn workspace(id: &str, label: &str, number: usize) -> WorkspaceInfo {
    WorkspaceInfo {
        workspace_id: id.to_string(),
        number,
        label: label.to_string(),
        focused: false,
        pane_count: 1,
        tab_count: 1,
        active_tab_id: format!("{id}:t1"),
        agent_status: AgentStatus::Unknown,
        tokens: Vec::new(),
        worktree: None,
    }
}

fn app_with_peer_workspaces(connection: PeerConnectionState) -> App {
    let mut app = App::default();
    let handle = PeerHandle::new("beta");
    app.state
        .peers
        .add(PeerHandle::new("beta"), PeerTarget::SocketPath("/tmp/b.sock".into()))
        .expect("peer added");
    app.state.peers.set_identity(
        &handle,
        PeerIdentity { instance_id: INSTANCE.to_string(), version: None, protocol: None },
    );
    app.state
        .peers
        .set_workspaces(&handle, vec![workspace("w1", "api", 1), workspace("w2", "web", 2)]);
    app.state.peers.set_connection(&handle, connection);
    app
}

fn reconnecting() -> PeerConnectionState {
    PeerConnectionState::Reconnecting { attempt: 3, message: "connection refused".to_string() }
}

#[test]
fn picker_lists_every_enumerated_workspace_with_namespaced_targets() {
    let mut app = app_with_peer_workspaces(PeerConnectionState::Connected);
    app.open_peer_workspace_picker("beta");

    let open = app.state.peer_workspace_open.expect("picker opened");
    assert_eq!(app.state.mode, Mode::OpenPeerWorkspace);
    assert_eq!(open.peer, "beta");
    let targets: Vec<&str> = open.entries.iter().map(|entry| entry.target.as_str()).collect();
    assert_eq!(targets, vec![format!("{INSTANCE}:w1"), format!("{INSTANCE}:w2")]);
    // Nothing is open locally, so nothing is marked.
    assert!(open.entries.iter().all(|entry| entry.already_open_ws_idx.is_none()));
}

#[test]
fn a_disconnected_peer_still_lists_its_last_enumeration() {
    let mut app = app_with_peer_workspaces(reconnecting());
    app.open_peer_workspace_picker("beta");

    let open = app.state.peer_workspace_open.expect("picker opened");
    assert_eq!(open.entries.len(), 2);
}

#[test]
fn submitting_against_a_peer_that_is_not_connected_reports_why() {
    let mut app = app_with_peer_workspaces(reconnecting());
    app.open_peer_workspace_picker("beta");
    app.submit_peer_workspace_open_via_api();

    let open = app.state.peer_workspace_open.as_ref().expect("picker stays open");
    assert_eq!(open.error.as_deref(), Some("peer is reconnecting (attempt 3)"));
}

#[test]
fn an_already_open_entry_is_not_blocked_by_a_peer_that_is_down() {
    let mut app = app_with_peer_workspaces(reconnecting());
    app.open_peer_workspace_picker("beta");
    // Stand in for a view that is already open on the first entry; the open path
    // answers those locally, so the peer's state must not matter.
    if let Some(open) = &mut app.state.peer_workspace_open {
        open.entries[0].already_open_ws_idx = Some(0);
    }

    let started = app.submit_peer_workspace_open_via_api();

    // No "peer is reconnecting" refusal. The open request itself fails, because
    // there is no view to find.
    let open = app.state.peer_workspace_open.as_ref().expect("picker stays open");
    assert_ne!(open.error.as_deref(), Some("peer is reconnecting (attempt 3)"));
    assert!(matches!(started, Some(Started::Answered(Reply::Error(_)))));
}

#[test]
fn a_peer_with_no_enumeration_opens_no_picker() {
    let mut app = App::default();
    app.state
        .peers
        .add(PeerHandle::new("beta"), PeerTarget::SocketPath("/tmp/b.sock".into()))
        .expect("peer added");
    app.open_peer_workspace_picker("beta");

    assert!(app.state.peer_workspace_open.is_none());
    assert_ne!(app.state.mode, Mode::OpenPeerWorkspace);
    // A picker that will not open has to say so.
    assert!(app.state.toast.as_ref().is_some_and(|toast| toast.title.contains("beta")));
    // Feedback on an action, and no diagnostic of the configuration.
    assert!(app.state.config_diagnostic.is_none());
}

#[test]
fn filtering_narrows_to_matching_labels() {
    let mut app = app_with_peer_workspaces(PeerConnectionState::Connected);
    app.open_peer_workspace_picker("beta");
    if let Some(open) = &mut app.state.peer_workspace_open {
        open.search_focused = true;
    }
    app.insert_peer_workspace_open_search_text("web");

    let open = app.state.peer_workspace_open.expect("picker opened");
    let filtered = open.filtered_indices();
    assert_eq!(filtered, vec![1]);
    assert_eq!(open.selected_entry_index(), Some(1));
}

#[test]
fn escape_closes_the_picker() {
    let mut app = app_with_peer_workspaces(PeerConnectionState::Connected);
    app.open_peer_workspace_picker("beta");
    app.handle_peer_workspace_open_key(key(KeyCode::Esc));

    assert!(app.state.peer_workspace_open.is_none());
    assert_ne!(app.state.mode, Mode::OpenPeerWorkspace);
}

#[test]
fn unavailable_reason_is_only_set_for_a_peer_that_is_not_connected() {
    assert!(peer_unavailable_reason(&PeerConnectionState::Connected).is_none());
    assert!(peer_unavailable_reason(&PeerConnectionState::Connecting).is_some());
    assert!(peer_unavailable_reason(&PeerConnectionState::Error {
        message: "no route".to_string(),
    })
    .is_some());
}

#[test]
fn keys_move_and_search_in_the_picker() {
    let mut app = app_with_peer_workspaces(PeerConnectionState::Connected);
    app.open_peer_workspace_picker("beta");
    let selected = |app: &App| {
        app.state.peer_workspace_open.as_ref().expect("open").selected_entry_index()
    };
    app.handle_peer_workspace_open_key(key(KeyCode::Down));
    assert_eq!(selected(&app), Some(1));
    app.handle_peer_workspace_open_key(key(KeyCode::Down));
    assert_eq!(selected(&app), Some(1));
    app.handle_peer_workspace_open_key(key(KeyCode::Up));
    assert_eq!(selected(&app), Some(0));
    // Letters are typed only once the search is focused.
    app.handle_peer_workspace_open_key(key(KeyCode::Char('w')));
    assert_eq!(app.state.peer_workspace_open.as_ref().expect("open").query, "");
    app.handle_peer_workspace_open_key(key(KeyCode::Char('/')));
    app.handle_peer_workspace_open_key(key(KeyCode::Char('w')));
    assert_eq!(app.state.peer_workspace_open.as_ref().expect("open").query, "w");
    assert_eq!(selected(&app), Some(1));
    app.handle_peer_workspace_open_key(key(KeyCode::Char('x')));
    assert_eq!(selected(&app), None);
    assert!(app.handle_peer_workspace_open_key(key(KeyCode::Enter)).is_none());
    app.handle_peer_workspace_open_key(key(KeyCode::Backspace));
    assert_eq!(selected(&app), Some(1));
    assert!(matches!(
        app.handle_peer_workspace_open_key(key(KeyCode::Enter)),
        Some(Started::Deferred(_))
    ));
}

#[test]
fn command_names_the_destination() {
    let command = peer_connect_command("herdr", "spark343@brainiac", "");
    assert!(command.ends_with(" peer connect spark343@brainiac && exit"));
    assert!(!command.contains("--name"));
}

#[test]
fn an_explicit_name_is_passed_through() {
    let command = peer_connect_command("herdr", "brainiac", "big-box");
    assert!(command.ends_with(" peer connect brainiac --name big-box && exit"));
}

#[test]
fn a_hostile_destination_cannot_break_out() {
    let command = peer_connect_command("herdr", "host; rm -rf ~", "");
    assert!(command.ends_with(r#" peer connect 'host; rm -rf ~' && exit"#));

    let command = peer_connect_command("herdr", "it's", "");
    assert!(command.ends_with(r#" peer connect 'it'\''s' && exit"#));
}

#[test]
fn plain_words_need_no_quotes() {
    assert_eq!(shell_quote("brainiac"), "brainiac");
    assert_eq!(shell_quote("a b"), "'a b'");
    assert_eq!(shell_quote(""), "''");
}

#[test]
fn tab_moves_between_the_two_fields() {
    let mut state = AddPeerState::default();
    assert_eq!(state.field, AddPeerField::Destination);
    state.active_input_mut().push_str("brainiac");
    state.toggle_field(false);
    assert_eq!(state.field, AddPeerField::Name);
    state.active_input_mut().push_str("big-box");
    assert_eq!(state.destination, "brainiac");
    assert_eq!(state.name, "big-box");
}

#[test]
fn tab_reaches_the_recent_list_only_when_one_is_offered() {
    let mut state = AddPeerState::default();
    state.toggle_field(true);
    assert_eq!(state.field, AddPeerField::Name);
    state.toggle_field(true);
    assert_eq!(state.field, AddPeerField::Recent);
    state.toggle_field(true);
    assert_eq!(state.field, AddPeerField::Destination);

    let mut state = AddPeerState::default();
    state.toggle_field(false);
    state.toggle_field(false);
    assert_eq!(state.field, AddPeerField::Destination);
}

#[test]
fn history_targets_strip_back_to_destinations() {
    assert_eq!(peer_history_destination("ssh://me@box"), "me@box");
    assert_eq!(peer_history_destination("ssh://me@box#work"), "me@box");
}

#[test]
fn the_dialog_hands_over_what_to_run() {
    let mut app = App::default();
    app.open_add_peer_dialog();
    assert_eq!(app.state.mode, Mode::AddPeer);
    assert_eq!(app.handle_add_peer_key(key(KeyCode::Enter), "herdr"), None);
    assert_eq!(
        app.state.add_peer.as_ref().expect("open").error.as_deref(),
        Some("enter an ssh destination")
    );
    for c in " box ".chars() {
        app.handle_add_peer_key(key(KeyCode::Char(c)), "herdr");
    }
    app.handle_add_peer_key(key(KeyCode::Tab), "herdr");
    app.insert_add_peer_text("big");
    app.handle_add_peer_key(key(KeyCode::Backspace), "herdr");
    assert_eq!(
        app.handle_add_peer_key(key(KeyCode::Enter), "herdr"),
        Some(PeerConnect {
            command: "herdr peer connect box --name bi && exit".to_string(),
            workspace_name: "connect box".to_string(),
        })
    );
    app.add_peer_opened(Err("no room".to_string()));
    assert_eq!(
        app.state.add_peer.as_ref().expect("open").error.as_deref(),
        Some("could not open a pane: no room")
    );
    app.add_peer_opened(Ok(()));
    assert_eq!(app.state.add_peer, None);
    assert_ne!(app.state.mode, Mode::AddPeer);
}

#[test]
fn a_recent_peer_fills_the_dialog() {
    let mut app = App::default();
    app.state.peer_history = vec![
        PeerHistoryEntry { name: "work".into(), target: "ssh://me@box#s".into() },
        PeerHistoryEntry { name: "home".into(), target: "ssh://me@home".into() },
    ];
    app.open_add_peer_dialog();
    app.handle_add_peer_key(key(KeyCode::Tab), "herdr");
    app.handle_add_peer_key(key(KeyCode::Tab), "herdr");
    app.handle_add_peer_key(key(KeyCode::Down), "herdr");
    app.handle_add_peer_key(key(KeyCode::Up), "herdr");
    assert_eq!(app.handle_add_peer_key(key(KeyCode::Enter), "herdr"), None);
    let add = app.state.add_peer.as_ref().expect("open");
    assert_eq!(add.destination, "me@box");
    assert_eq!(add.name, "work");
    app.handle_add_peer_key(key(KeyCode::Esc), "herdr");
    assert_eq!(app.state.add_peer, None);
}

#[test]
fn entries_merge_both_hide_sources() {
    let mut state = AppState::default();
    state.hidden_peers.push("session-peer".to_string());
    state.hidden_peers_config.push("config-peer".to_string());

    let entries = state.hidden_peer_entries();

    assert_eq!(
        entries,
        vec![
            HiddenPeerEntry { peer: "config-peer".into(), permanent: true },
            HiddenPeerEntry { peer: "session-peer".into(), permanent: false },
        ]
    );
}

#[test]
fn a_peer_hidden_both_ways_is_one_permanent_entry() {
    let mut state = AppState::default();
    state.hidden_peers.push("peer".to_string());
    state.hidden_peers_config.push("peer".to_string());

    let entries = state.hidden_peer_entries();

    assert_eq!(entries, vec![HiddenPeerEntry { peer: "peer".into(), permanent: true }]);
}

#[test]
fn hidden_peers_are_listed_in_order() {
    let mut state = AppState::default();
    state.hidden_peers = vec!["d".to_string(), "a".to_string()];
    state.hidden_peers_config = vec!["c".to_string(), "b".to_string()];
    let names: Vec<String> = state.hidden_peer_entries().into_iter().map(|e| e.peer).collect();
    assert_eq!(names, vec!["a", "b", "c", "d"]);
}

#[test]
fn a_hidden_peer_is_shown_again() {
    let mut app = App::default();
    app.state.hidden_peers = vec!["a".to_string()];
    app.state.hidden_peers_config = vec!["b".to_string(), "c".to_string()];
    app.open_hidden_peers_picker();
    assert_eq!(app.state.mode, Mode::UnhidePeers);
    // One that is hidden for the session is shown at once.
    assert_eq!(app.handle_hidden_peers_key(key(KeyCode::Enter)), None);
    assert!(app.state.hidden_peers.is_empty());
    assert!(app.state.session_dirty);
    // One the configuration hides waits for the configuration to be written.
    app.handle_hidden_peers_key(key(KeyCode::Down));
    assert_eq!(
        app.handle_hidden_peers_key(key(KeyCode::Enter)),
        Some(HiddenWrite { peer: "c".to_string(), peers: vec!["b".to_string()] })
    );
    app.hidden_peers_written("c", Err("read-only".to_string()));
    assert_eq!(
        app.state.hidden_peers_picker.as_ref().expect("open").error.as_deref(),
        Some("read-only")
    );
    app.hidden_peers_written("c", Ok(()));
    assert_eq!(app.state.hidden_peers_config, vec!["b"]);
    assert_eq!(
        app.handle_hidden_peers_key(key(KeyCode::Enter)),
        Some(HiddenWrite { peer: "b".to_string(), peers: Vec::new() })
    );
    app.hidden_peers_written("b", Ok(()));
    // Nothing is left to list.
    assert!(app.state.hidden_peers_picker.is_none());
    assert_ne!(app.state.mode, Mode::UnhidePeers);
}
