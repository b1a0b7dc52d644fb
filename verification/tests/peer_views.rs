//! Views onto peers: routing, opening, keeping alive, closing.

use herdr::api::schema::events::EventKind;
use herdr::api::schema::peers::{
    PeerAddParams, PeerRef, PeerTargetSpec, PeerTerminalOpenParams, PeerWorkspaceCreateParams,
    PeerWorkspaceOpenParams, TerminalTarget,
};
use herdr::api::schema::requests::{
    AgentReadParams, AgentTarget, Direction, Method, PaneInfo, PaneReadParams, PaneSplitParams,
    PaneTextQueryParams, Request, SplitDirection, TabCreateParams, TabRenameParams, TabTarget,
    WorkspaceRenameParams, WorkspaceTarget, WorktreeCreateParams, WorktreeListParams,
    WorktreeOpenParams, WorktreeRemoveParams,
};
use herdr::api::schema::responses::ErrorBody;
use herdr::api::schema::workspaces::{AgentStatus, WorkspaceInfo};
use herdr::api::schema::worktrees::WorktreeInfo;
use herdr::app::api::announce::Announcement;
use herdr::app::api::peers::forward::{PeerWork, Reply, Restate, Started};
use herdr::app::api::peers::lifecycle::{report_pane_close, PaneClose};
use herdr::app::api::peers::registry::{
    peer_history_target, peer_info, peer_target_from_spec, peer_target_spec,
};
use herdr::app::api::peers::resolve::{PeerConnection, Route};
use herdr::app::api::peers::rewrite::AgentState;
use herdr::app::api::peers::steps::{
    begin, close_request, connected, listed, reattach, replied, Attach, Connecting, Step,
};
use herdr::app::api::peers::worker::Forwarded;
use herdr::app::layout::{FreshPane, FreshTab, FreshWorkspace};
use herdr::app::peers::{
    prefix_peer_id, PeerConnectionState, PeerHandle, PeerIdentity, PeerRegistryState, PeerTarget,
    PendingPaneCleanup, SetIdentity,
};
use herdr::app::runtime_mutations::Dispatched;
use herdr::app::state::{
    AgentEntry, App, Pane, PaneId, PeerHistoryEntry, RuntimeEntry, Split, Tab, Workspace,
};
use herdr::events::{
    AppEvent, PeerPaneSplitResult, PeerTabCreateResult, PeerViewOpenResult, PeerViewOpened,
    PeerViewPlacement, PeerViewReconnectResult, PeerWorkspaceCreateResult, PeerWorktreeAnswer,
    PeerWorktreeRemoveResult, PeerWorktreeViewResult,
};
use herdr::pane::state::PaneState;
use herdr::terminal::{PeerViewState, RemoteView, TerminalId, TerminalRuntime, TerminalSize};

const INSTANCE: &str = "0123456789abcdef0123456789abcdef";
const SOCKET: &str = "/tmp/beta.sock";

fn peer_ws_id(local: &str) -> String {
    prefix_peer_id(INSTANCE, local)
}

fn request(method: Method) -> Request {
    Request { id: "req".into(), method }
}

fn view(peer: &str, target: &str) -> RemoteView {
    RemoteView {
        peer: peer.to_string(),
        target: target.to_string(),
        instance: Some(INSTANCE.to_string()),
        spawned_on_peer: false,
        size: TerminalSize { rows: 24, cols: 80 },
        dead: None,
        connected: true,
        in_flight: false,
        backoff_over: true,
        refused: None,
        target_gone: false,
        announced: PeerViewState::Connected,
        metadata: None,
    }
}

fn fresh_pane(n: u32) -> FreshPane {
    FreshPane {
        id: PaneId::from_raw(n),
        public_id: format!("w{n}:p1"),
        terminal_id: TerminalId::new(&format!("term_{n}")),
    }
}

fn fresh_tab(n: u32) -> FreshTab {
    FreshTab { public_id: format!("w{n}:t1"), pane: fresh_pane(n) }
}

fn fresh(n: u32) -> FreshWorkspace {
    FreshWorkspace {
        id: format!("w{n}"),
        public_id: format!("w{n}"),
        tab: fresh_tab(n),
    }
}

/// A workspace with a process of this machine in it.
fn add_local_workspace(app: &mut App, n: u32) -> usize {
    let terminal_id = || TerminalId::new(&format!("term_{n}"));
    app.state.terminals.push(terminal_id());
    app.terminal_runtimes.push(RuntimeEntry {
        terminal_id: terminal_id(),
        runtime: TerminalRuntime::Local { size: TerminalSize { rows: 24, cols: 80 } },
    });
    app.state.workspaces.push(Workspace {
        id: format!("w{n}"),
        public_id: format!("w{n}"),
        peer: None,
        peer_workspace: None,
        label: None,
        tabs: vec![Tab {
            public_id: format!("w{n}:t1"),
            panes: vec![Pane {
                id: PaneId::from_raw(n),
                public_id: format!("w{n}:p1"),
                state: PaneState::new(terminal_id()),
                split: None,
                label: None,
            }],
            custom_name: None,
        }],
        active_tab: 0,
        focused_pane: Some(PaneId::from_raw(n)),
    });
    app.state.workspaces.len() - 1
}

/// A workspace that views a peer.
fn attach(app: &mut App, peer: &str, target: &str, workspace: Option<&str>, n: u32) -> usize {
    app.create_attached_workspace(
        peer.to_string(),
        workspace.map(str::to_string),
        "view".to_string(),
        TerminalRuntime::Remote(view(peer, target)),
        true,
        fresh(n),
    )
}

fn connected_peer(app: &mut App, name: &str) -> PeerHandle {
    let handle = PeerHandle::new(name);
    app.state
        .peers
        .add(PeerHandle::new(name), PeerTarget::SocketPath(SOCKET.to_string()))
        .expect("add peer");
    app.state.peers.set_identity(
        &handle,
        PeerIdentity { instance_id: INSTANCE.to_string(), version: None, protocol: Some(20) },
    );
    app.state.peers.set_connection(&handle, PeerConnectionState::Connected);
    handle
}

fn workspace_info(id: &str, label: &str, number: usize) -> WorkspaceInfo {
    WorkspaceInfo {
        workspace_id: id.to_string(),
        number,
        label: label.to_string(),
        focused: false,
        pane_count: 1,
        tab_count: 1,
        active_tab_id: format!("{id}:t1"),
        agent_status: AgentStatus::Unknown,
        tokens: Vec::new(),
        worktree: None,
    }
}

/// Opens a view as the event loop does: starts it, and lands the view that was
/// connected beside the loop.
fn open_peer_workspace(
    app: &mut App,
    target: &str,
    name: Option<&str>,
    focus: bool,
    n: u32,
) -> Result<usize, ErrorBody> {
    let reply = match app.start_peer_workspace_open(target.to_string(), name, None, focus, false, None)
    {
        Started::Answered(reply) => reply,
        Started::Deferred(PeerWork::OpenView {
            handle,
            requested_target,
            local_target,
            resolve_workspace,
            placement,
            ..
        }) => {
            assert!(!resolve_workspace, "the test names panes");
            let connected = view(handle.as_str(), &local_target);
            app.handle_peer_view_open_finished(
                PeerViewOpenResult {
                    id: "test:peer:open".to_string(),
                    handle,
                    requested_target,
                    started_target: local_target.clone(),
                    placement,
                    result: Ok(PeerViewOpened { view: connected, local_target }),
                },
                fresh(n),
            )
            .reply
        }
        other => panic!("unexpected: {other:?}"),
    };
    match reply {
        Reply::Workspace { ws_idx } => Ok(ws_idx),
        Reply::Error(error) => Err(error),
        other => panic!("unexpected: {other:?}"),
    }
}

fn open_view(app: &mut App, handle: &PeerHandle, target: &str, n: u32) -> TerminalId {
    open_peer_workspace(app, &peer_ws_id(target), Some(handle.as_str()), true, n)
        .expect("open a view onto the peer terminal");
    TerminalId::new(&format!("term_{n}"))
}

fn remote<'a>(app: &'a App, id: &TerminalId) -> Option<&'a RemoteView> {
    match app.runtime(id) {
        Some(TerminalRuntime::Remote(view)) => Some(view),
        _ => None,
    }
}

fn remote_mut<'a>(app: &'a mut App, id: &TerminalId) -> &'a mut RemoteView {
    let at = app.runtime_position(id);
    match &mut app.terminal_runtimes[at].runtime {
        TerminalRuntime::Remote(view) => view,
        other => panic!("a local runtime: {other:?}"),
    }
}

fn split_request(workspace_id: Option<&str>) -> Request {
    request(Method::PaneSplit(split_params(workspace_id)))
}

fn split_params(workspace_id: Option<&str>) -> PaneSplitParams {
    PaneSplitParams {
        workspace_id: workspace_id.map(str::to_string),
        target_pane_id: None,
        direction: SplitDirection::Right,
        right_click: String::new(),
        ratio: Some(0.3f32.to_bits()),
        cwd: None,
        focus: true,
        env: Vec::new(),
        owner_instance_id: None,
    }
}

fn read_request(pane_id: &str) -> Request {
    request(Method::PaneRead(PaneReadParams { pane_id: pane_id.into(), options: "{}".into() }))
}

fn text_query_request(pane_id: &str) -> Request {
    request(Method::PaneTextQuery(PaneTextQueryParams {
        pane_id: pane_id.into(),
        options: "{}".into(),
    }))
}

fn agent_read_request(target: &str) -> Request {
    request(Method::AgentRead(AgentReadParams { target: target.into(), options: "{}".into() }))
}

fn agent_explain_request(target: &str) -> Request {
    request(Method::AgentExplain(AgentTarget { target: target.into() }))
}

fn tab_create(workspace_id: Option<&str>) -> TabCreateParams {
    TabCreateParams {
        workspace_id: workspace_id.map(str::to_string),
        cwd: None,
        focus: true,
        label: None,
        env: Vec::new(),
    }
}

fn worktree_create(workspace_id: Option<&str>) -> WorktreeCreateParams {
    WorktreeCreateParams {
        workspace_id: workspace_id.map(str::to_string),
        cwd: None,
        branch: Some("worktree/routed".into()),
        base: None,
        path: None,
        label: None,
        focus: false,
    }
}

#[test]
fn rename_and_close_on_a_peer_id_are_forwarded() {
    let rename = request(Method::WorkspaceRename(WorkspaceRenameParams {
        workspace_id: peer_ws_id("w1"),
        label: "new".into(),
    }));
    let close = request(Method::WorkspaceClose(WorkspaceTarget { workspace_id: peer_ws_id("w1") }));
    assert!(App::default().request_targets_peer_workspace(&rename));
    assert!(App::default().request_targets_peer_workspace(&close));
}

#[test]
fn local_ids_and_other_methods_stay_local() {
    // A local id must be handled by this server, never forwarded.
    let local_rename = request(Method::WorkspaceRename(WorkspaceRenameParams {
        workspace_id: "w1".into(),
        label: "new".into(),
    }));
    let local_close = request(Method::WorkspaceClose(WorkspaceTarget { workspace_id: "w1".into() }));
    assert!(!App::default().request_targets_peer_workspace(&local_rename));
    assert!(!App::default().request_targets_peer_workspace(&local_close));

    // A local focus is answered from the workspace list, so it stays here.
    let local_focus = request(Method::WorkspaceFocus(WorkspaceTarget { workspace_id: "w1".into() }));
    let list = request(Method::WorkspaceList);
    assert!(!App::default().request_targets_peer_workspace(&local_focus));
    assert!(!App::default().request_targets_peer_workspace(&list));
}

#[test]
fn opening_a_view_onto_a_peer_is_routed_off_the_loop() {
    let focus = request(Method::WorkspaceFocus(WorkspaceTarget { workspace_id: peer_ws_id("w1") }));
    let open = request(Method::PeerWorkspaceOpen(PeerWorkspaceOpenParams {
        target: peer_ws_id("w1"),
        name: None,
        label: None,
        focus: true,
        takeover: false,
    }));
    let terminal = request(Method::PeerTerminalOpen(PeerTerminalOpenParams {
        name: Some("beta".into()),
        target: "w1:p1".into(),
        cols: 80,
        rows: 24,
        takeover: false,
    }));
    assert!(App::default().request_targets_peer_workspace(&focus));
    assert!(App::default().request_targets_peer_workspace(&open));
    assert!(App::default().request_targets_peer_workspace(&terminal));
}

#[test]
fn both_entry_points_route_the_same_requests_to_a_peer() {
    let rename = |id: String| {
        Method::WorkspaceRename(WorkspaceRenameParams { workspace_id: id, label: "new".into() })
    };
    let close = |id: String| Method::WorkspaceClose(WorkspaceTarget { workspace_id: id });
    let focus = |id: String| Method::WorkspaceFocus(WorkspaceTarget { workspace_id: id });
    for id in [peer_ws_id("w1"), "w1".to_string()] {
        let expected = id != "w1";
        let pairs = [
            (rename(id.clone()), rename(id.clone())),
            (close(id.clone()), close(id.clone())),
            (focus(id.clone()), focus(id.clone())),
        ];
        for (socket, ui) in pairs {
            let socket_routes = App::default().request_targets_peer_workspace(&request(socket));
            let dispatched = App::default().dispatch_runtime_mutation("ui", ui, Ok(Vec::new()));
            let ui_routes = matches!(dispatched, Dispatched::Peer(_));
            assert_eq!(socket_routes, ui_routes, "the two entry points disagree about routing");
            assert_eq!(socket_routes, expected, "routed the wrong way");
        }
    }
}

#[test]
fn reading_a_peer_backed_pane_is_routed_to_the_peer() {
    let mut app = App::default();
    // A local pane beside it: not every pane is a peer's once a peer exists.
    add_local_workspace(&mut app, 1);
    let ws_idx = attach(&mut app, "beta", "w1:p1", Some("w1"), 2);
    let public_pane_id = app.public_pane_id(ws_idx, PaneId::from_raw(2)).expect("public id");

    assert!(app.request_targets_peer_pane(&read_request(&public_pane_id)));
    assert!(app.request_targets_peer_pane(&text_query_request(&public_pane_id)));

    // A pane with a local process answers locally, and an unknown id is not
    // mistaken for a peer's.
    assert!(!app.request_targets_peer_pane(&read_request("w1:p1")));
    assert!(!app.request_targets_peer_pane(&text_query_request("w1:p1")));
    assert!(!app.request_targets_peer_pane(&read_request("w99:p9")));
}

#[test]
fn a_forwarded_read_is_restated_in_the_local_ids() {
    let mut app = App::default();
    connected_peer(&mut app, "beta");
    attach(&mut app, "beta", "w1:p1", Some("w1"), 2);
    match app.start_peer_pane_read(PaneReadParams { pane_id: "w2:p1".into(), options: "{}".into() }) {
        Started::Deferred(PeerWork::Forward { connection, method, restate }) => {
            assert_eq!(connection.api_socket, SOCKET);
            assert_eq!(connection.instance_id, INSTANCE);
            assert_eq!(
                method,
                Method::PaneRead(PaneReadParams { pane_id: "w1:p1".into(), options: "{}".into() })
            );
            match restate {
                Restate::Read(ids) => {
                    assert_eq!(ids.pane_id, "w2:p1");
                    assert_eq!(ids.workspace_id, "w2");
                    assert_eq!(ids.tab_id, "w2:t1");
                }
                other => panic!("unexpected: {other:?}"),
            }
        }
        other => panic!("unexpected: {other:?}"),
    }
}

#[test]
fn creating_a_tab_in_a_peer_backed_workspace_is_routed_to_the_peer() {
    let mut app = App::default();
    let local_idx = add_local_workspace(&mut app, 1);
    let ws_idx = attach(&mut app, "beta", "w1:p1", Some("w1"), 2);
    app.state.active = Some(ws_idx);

    // Named explicitly, and by falling back to the active workspace.
    let named = |id: Option<&str>| request(Method::TabCreate(tab_create(id)));
    assert!(app.request_targets_peer_workspace(&named(Some("w2"))));
    assert!(app.request_targets_peer_workspace(&named(None)));

    // A local workspace keeps creating its tabs here.
    assert!(!app.request_targets_peer_workspace(&named(Some("w1"))));
    app.state.active = Some(local_idx);
    assert!(!app.request_targets_peer_workspace(&named(None)));
}

#[test]
fn worktree_actions_in_a_peer_backed_workspace_are_routed_to_the_peer() {
    let mut app = App::default();
    let local_idx = add_local_workspace(&mut app, 1);
    let ws_idx = attach(&mut app, "beta", "w1:p1", Some("w1"), 2);
    app.state.active = Some(ws_idx);

    let list = |id: Option<&str>, cwd: Option<&str>| {
        request(Method::WorktreeList(WorktreeListParams {
            workspace_id: id.map(str::to_string),
            cwd: cwd.map(str::to_string),
        }))
    };
    let create = |id: Option<&str>| request(Method::WorktreeCreate(worktree_create(id)));
    let open = |id: Option<&str>| {
        request(Method::WorktreeOpen(WorktreeOpenParams {
            workspace_id: id.map(str::to_string),
            cwd: None,
            path: None,
            branch: Some("worktree/routed".into()),
            label: None,
            focus: false,
        }))
    };
    let remove = |id: &str| {
        request(Method::WorktreeRemove(WorktreeRemoveParams {
            workspace_id: id.to_string(),
            force: false,
        }))
    };

    // Named explicitly, and by falling back to the active workspace.
    for named in [list(Some("w2"), None), create(Some("w2")), open(Some("w2"))] {
        assert!(app.request_targets_peer_workspace(&named));
    }
    for fallback in [list(None, None), create(None), open(None)] {
        assert!(app.request_targets_peer_workspace(&fallback));
    }
    assert!(app.request_targets_peer_workspace(&remove("w2")));

    // A `cwd` names a path on *this* filesystem, so it is this server's question
    // even while a peer view is active.
    assert!(!app.request_targets_peer_workspace(&list(None, Some("/repo/herdr"))));

    // A local workspace keeps running its own git.
    assert!(!app.request_targets_peer_workspace(&list(Some("w1"), None)));
    assert!(!app.request_targets_peer_workspace(&remove("w1")));
    app.state.active = Some(local_idx);
    assert!(!app.request_targets_peer_workspace(&list(None, None)));
    assert!(!app.request_targets_peer_workspace(&create(None)));
}

#[test]
fn a_worktree_action_on_a_bare_peer_view_is_refused() {
    let mut app = App::default();
    let ws_idx = attach(&mut app, "beta", "term_abc", None, 2);
    app.state.active = Some(ws_idx);

    let create = request(Method::WorktreeCreate(worktree_create(Some("w2"))));
    assert!(app.request_targets_peer_workspace(&create));
    match app.handle_deferred_peer_workspace_api_request(create.method, Ok(Vec::new())) {
        Started::Answered(Reply::Error(error)) => assert!(
            error.message.contains("does not name a workspace on its peer"),
            "unexpected response: {}",
            error.message
        ),
        other => panic!("unexpected: {other:?}"),
    }
}

#[test]
fn a_ui_tab_create_on_a_peer_workspace_spawns_no_local_pane() {
    let mut app = App::default();
    connected_peer(&mut app, "beta");
    let ws_idx = attach(&mut app, "beta", "w1:p1", Some("w1"), 2);
    app.state.active = Some(ws_idx);

    let dispatched = app.dispatch_runtime_mutation(
        "test.tui.tab.create",
        Method::TabCreate(tab_create(None)),
        Ok(Vec::new()),
    );
    // No local process may appear right here.
    assert_eq!(app.state.workspaces[ws_idx].tabs.len(), 1);
    match dispatched {
        Dispatched::Peer(Started::Deferred(PeerWork::CreateTab {
            connection,
            method,
            workspace_id,
            ..
        })) => {
            assert_eq!(connection.instance_id, INSTANCE);
            assert_eq!(workspace_id, "w2");
            assert!(matches!(
                method,
                Method::TabCreate(params) if params.workspace_id.as_deref() == Some("w1")
            ));
        }
        other => panic!("unexpected: {other:?}"),
    }
}

#[test]
fn a_tab_attached_to_a_peer_keeps_workspace_identity_intact() {
    let mut app = App::default();
    let ws_idx = attach(&mut app, "beta", "w1:p1", Some("w1"), 2);
    let placed = app.handle_peer_tab_create_finished(
        PeerTabCreateResult {
            id: "tab".into(),
            workspace_id: "w2".into(),
            label: Some("logs".into()),
            focus: true,
            result: Ok(view("beta", "w1:p2")),
        },
        fresh_tab(3),
    );
    assert_eq!(placed.reply, Reply::Tab { ws_idx, tab_idx: 1 }, "the attached tab is appended");
    assert_eq!(placed.events, vec![Announcement::TabCreated { ws_idx, tab_idx: 1 }]);
    assert_eq!(placed.discarded, None);
    assert_eq!(app.state.workspaces[ws_idx].tabs.len(), 2);
    assert_eq!(app.state.workspaces[ws_idx].tabs[1].custom_name.as_deref(), Some("logs"));
    assert!(app.state.peers.assert_invariants_for_test());
}

#[test]
fn a_view_for_a_workspace_that_closed_is_discarded() {
    let mut app = App::default();
    connected_peer(&mut app, "beta");
    let mut spawned = view("beta", "w1:p2");
    spawned.spawned_on_peer = true;
    let placed = app.handle_peer_tab_create_finished(
        PeerTabCreateResult {
            id: "tab".into(),
            workspace_id: "gone".into(),
            label: None,
            focus: true,
            result: Ok(spawned),
        },
        fresh_tab(3),
    );
    assert!(matches!(placed.reply, Reply::Error(_)));
    let discarded = placed.discarded.expect("the view is handed back");
    // The pane the peer made for it is closed, on the server that made it.
    assert_eq!(
        discarded.close,
        Some(PaneClose {
            handle: PeerHandle::new("beta"),
            peer_pane_id: "w1:p2".to_string(),
            expected_instance: Some(INSTANCE.to_string()),
            route: Ok(Route {
                api_socket: SOCKET.to_string(),
                instance_id: INSTANCE.to_string(),
            }),
        })
    );
    assert!(app.state.workspaces.is_empty());
    assert!(app.terminal_runtimes.is_empty());
}

#[test]
fn splitting_a_peer_backed_pane_is_routed_to_the_peer() {
    let mut app = App::default();
    let ws_idx = attach(&mut app, "beta", "w1:p1", Some("w1"), 2);

    // The pane's peer address comes from its runtime, not its workspace.
    let (handle, target) =
        app.peer_pane_source(ws_idx, PaneId::from_raw(2)).expect("pane is backed by a peer");
    assert_eq!(handle.as_str(), "beta");
    assert_eq!(target, "w1:p1");

    // Splitting it must not spawn a local shell beside the remote view.
    assert!(app.request_targets_peer_pane(&split_request(Some("w2"))));
    // The active workspace is the peer-backed one, so an unqualified split is
    // routed too.
    assert!(app.request_targets_peer_pane(&split_request(None)));
}

#[test]
fn splitting_a_local_pane_stays_local() {
    let mut app = App::default();
    add_local_workspace(&mut app, 1);
    app.state.active = Some(0);

    assert!(!app.request_targets_peer_pane(&split_request(Some("w1"))));
    assert!(!app.request_targets_peer_pane(&split_request(None)));
    // A method that is not a split is never routed for its pane.
    assert!(!app.request_targets_peer_pane(&request(Method::WorkspaceList)));
}

#[test]
fn a_routed_split_is_accepted_and_a_refusal_is_still_an_answer() {
    let mut app = App::default();
    connected_peer(&mut app, "beta");
    attach(&mut app, "beta", "w1:p1", Some("w1"), 2);

    match app.runtime_pane_split(
        "test.pane.split",
        split_params(Some("w2")),
        Ok(Vec::new()),
        Some("me".to_string()),
    ) {
        Dispatched::Peer(Started::Deferred(PeerWork::SplitPane {
            method, target_pane, direction, ratio, ..
        })) => {
            assert_eq!(ratio, Some(0.3f32.to_bits()));
            assert_eq!(target_pane, PaneId::from_raw(2));
            assert_eq!(direction, Direction::Horizontal);
            match method {
                Method::PaneSplit(params) => {
                    assert_eq!(params.target_pane_id.as_deref(), Some("w1:p1"));
                    assert_eq!(params.ratio, None);
                    assert_eq!(params.owner_instance_id.as_deref(), Some("me"));
                }
                other => panic!("unexpected: {other:?}"),
            }
        }
        other => panic!("unexpected: {other:?}"),
    }

    // Only a request that left this server is accepted.
    let focus = Method::WorkspaceFocus(WorkspaceTarget { workspace_id: "w404".to_string() });
    assert!(matches!(
        app.dispatch_runtime_mutation("test.workspace.focus", focus, Ok(Vec::new())),
        Dispatched::Local(Request { id, .. }) if id == "test.workspace.focus"
    ));
}

#[test]
fn a_split_lands_beside_its_pane() {
    let mut app = App::default();
    let ws_idx = attach(&mut app, "beta", "w1:p1", Some("w1"), 2);
    let finished = |workspace_id: &str| PeerPaneSplitResult {
        id: "split".into(),
        workspace_id: workspace_id.into(),
        target_pane: PaneId::from_raw(2),
        direction: Direction::Horizontal,
        ratio: Some(0.3f32.to_bits()),
        focus: true,
        result: Ok(view("beta", "w1:p2")),
    };
    let split = Split {
        from: PaneId::from_raw(2),
        direction: Direction::Horizontal,
        ratio: Some(0.3f32.to_bits()),
    };
    let placed = app.handle_peer_pane_split_finished(finished("w2"), fresh_pane(3));
    assert_eq!(
        placed.reply,
        Reply::Pane { ws_idx, tab_idx: 0, pane_id: PaneId::from_raw(3), split }
    );
    assert_eq!(
        placed.events,
        vec![
            Announcement::PaneCreated { ws_idx, pane_id: PaneId::from_raw(3) },
            Announcement::LayoutUpdated { ws_idx, tab_idx: 0 },
        ]
    );
    let panes = &app.state.workspaces[ws_idx].tabs[0].panes;
    assert_eq!(panes.len(), 2);
    assert_eq!(panes[0].split, None);
    assert_eq!(panes[1].split, Some(split));

    // Another split of the new pane is told apart by its pane, its direction and its ratio.
    let below = Split { from: PaneId::from_raw(3), direction: Direction::Vertical, ratio: None };
    let placed = app.handle_peer_pane_split_finished(
        PeerPaneSplitResult {
            target_pane: below.from,
            direction: below.direction,
            ratio: below.ratio,
            ..finished("w2")
        },
        fresh_pane(5),
    );
    assert_eq!(
        placed.reply,
        Reply::Pane { ws_idx, tab_idx: 0, pane_id: PaneId::from_raw(5), split: below }
    );
    assert_eq!(app.state.workspaces[ws_idx].tabs[0].panes[2].split, Some(below));

    let placed = app.handle_peer_pane_split_finished(finished("gone"), fresh_pane(4));
    assert!(matches!(placed.reply, Reply::Error(_)));
    assert!(placed.events.is_empty());
    assert!(placed.discarded.is_some());
}

#[test]
fn the_picker_marks_the_enumerated_workspace_a_view_is_already_open_on() {
    let mut app = App::default();
    let handle = connected_peer(&mut app, "beta");
    app.state
        .peers
        .set_workspaces(&handle, vec![workspace_info("w1", "api", 1), workspace_info("w2", "web", 2)]);

    // Open a view onto a *pane* of the first one.
    let ws_idx =
        open_peer_workspace(&mut app, &peer_ws_id("w1:p1"), None, true, 7).expect("open the view");

    app.open_peer_workspace_picker("beta");
    let open = app.state.peer_workspace_open.as_ref().expect("picker opened");

    // Both stay listed; only the open one is marked.
    assert_eq!(open.entries.len(), 2);
    assert_eq!(open.entries[0].already_open_ws_idx, Some(ws_idx));
    assert_eq!(open.entries[1].already_open_ws_idx, None);

    // Reopening the workspace the view sits inside finds it.
    assert_eq!(open_peer_workspace(&mut app, &peer_ws_id("w1"), None, false, 8), Ok(ws_idx));

    // A workspace id the peer enumerated is recognised as one; a pane id inside
    // it is not, so it is never sent for pane resolution.
    assert!(app.peer_target_is_an_enumerated_workspace(&handle, "w1"));
    assert!(!app.peer_target_is_an_enumerated_workspace(&handle, "w1:p1"));
    assert!(!app.peer_target_is_an_enumerated_workspace(&handle, "w9"));

    // The separator is what keeps the prefix test exact.
    assert_eq!(app.workspace_viewing_peer_workspace("beta", "w1"), Some(ws_idx));
    assert_eq!(app.workspace_viewing_peer_workspace("beta", "w"), None);
    assert_eq!(app.workspace_viewing_peer_workspace("beta", "w2"), None);
}

#[test]
fn an_open_view_is_found_while_its_peer_is_down() {
    let mut app = App::default();
    let handle = connected_peer(&mut app, "beta");
    app.state.peers.set_workspaces(&handle, vec![workspace_info("w1", "api", 1)]);
    let ws_idx =
        open_peer_workspace(&mut app, &peer_ws_id("w1:p1"), None, true, 7).expect("open the view");

    app.state.peers.set_connection(
        &handle,
        PeerConnectionState::Reconnecting { attempt: 2, message: "connection refused".into() },
    );

    // Switching to a view you can still see must not need the peer.
    assert_eq!(open_peer_workspace(&mut app, &peer_ws_id("w1"), None, true, 8), Ok(ws_idx));
    // Opening one you do not have still reports the peer's state.
    let error = open_peer_workspace(&mut app, &peer_ws_id("w2:p1"), None, true, 8)
        .expect_err("a new view needs the peer");
    assert_eq!(error.code, "unavailable");
}

#[test]
fn only_a_pane_we_spawned_is_closed_on_the_peer() {
    // A view onto a pane the peer already had claims nothing.
    let adopted = view("beta", "w1:p1");
    assert_eq!(adopted.spawned_peer_pane(), None);

    let mut spawned = view("beta", "w1:p2");
    spawned.spawned_on_peer = true;
    assert_eq!(
        spawned.spawned_peer_pane().map(|pane| (pane.peer, pane.peer_pane_id)),
        Some(("beta".to_string(), "w1:p2".to_string()))
    );

    spawned.clear_spawned_on_peer();
    assert_eq!(spawned.spawned_peer_pane(), None);
    // Disowning twice is not an error, it just claims nothing.
    spawned.clear_spawned_on_peer();
    assert_eq!(spawned.spawned_peer_pane(), None);

    let ended = vec![
        RuntimeEntry {
            terminal_id: TerminalId::new("term_1"),
            runtime: TerminalRuntime::Remote(view("beta", "w1:p1")),
        },
        RuntimeEntry {
            terminal_id: TerminalId::new("term_2"),
            runtime: TerminalRuntime::Remote(RemoteView {
                spawned_on_peer: true,
                ..view("beta", "w1:p2")
            }),
        },
        RuntimeEntry {
            terminal_id: TerminalId::new("term_3"),
            runtime: TerminalRuntime::Local { size: TerminalSize { rows: 24, cols: 80 } },
        },
    ];
    let closes = App::default().close_ended_views(&ended);
    assert_eq!(closes.len(), 1);
    assert_eq!(closes[0].peer_pane_id, "w1:p2");
    // Nobody is there to be told.
    assert!(closes[0].route.is_err());
}

#[test]
fn removing_a_peer_closes_its_views_and_drops_their_claims() {
    let mut app = App::default();
    connected_peer(&mut app, "beta");
    add_local_workspace(&mut app, 1);
    let ws_idx = attach(&mut app, "beta", "w1:p1", Some("w1"), 2);
    let terminal_id = TerminalId::new("term_2");
    remote_mut(&mut app, &terminal_id).spawned_on_peer = true;
    app.register_peer_terminal(
        TerminalId::new("term_bare"),
        TerminalRuntime::Remote(view("beta", "w1:p2")),
    );
    assert_eq!(app.state.workspaces.len(), ws_idx + 1);

    let removed = app
        .handle_peer_remove(PeerRef { name: "beta".into() })
        .expect("the peer is configured");
    // The views can only render a frozen frame once the peer is gone, so removal
    // takes them with it.
    assert_eq!(app.state.workspaces.len(), ws_idx);
    assert!(app.state.peers.get(&PeerHandle::new("beta")).is_none());
    assert!(app.runtime(&TerminalId::new("term_bare")).is_none());
    assert!(app.runtime(&terminal_id).is_none());
    assert!(app.state.terminals.iter().all(|id| id.as_str() == "term_1"));
    assert_eq!(removed.bare.len(), 1);
    assert_eq!(removed.views.workspaces.len(), 1);
    assert_eq!(removed.views.panes, vec![PaneId::from_raw(2)]);
    assert_eq!(
        removed.views.events,
        vec![Announcement::WorkspaceClosed { workspace_id: "w2".to_string() }]
    );
    assert!(app.state.session_dirty, "the session is saved without the peer");
    app.state.session_dirty = false;
    // None of what ended asks the removed peer for anything.
    assert!(app.close_ended_views(&removed.views.ended).is_empty());

    assert_eq!(
        app.handle_peer_remove(PeerRef { name: "beta".into() }).expect_err("gone").code,
        "not_found"
    );
    assert!(!app.state.session_dirty);
}

fn peer_pane_info(
    pane_id: &str,
    terminal_id: &str,
    agent: Option<&str>,
    agent_status: AgentStatus,
) -> PaneInfo {
    PaneInfo {
        pane_id: pane_id.into(),
        terminal_id: terminal_id.into(),
        focused: false,
        cwd: Some("/srv/app".into()),
        foreground_cwd: Some("/srv/app/crate".into()),
        terminal_title: Some("building".into()),
        agent_osc_title: Some("Compiling".into()),
        agent_osc_progress: Some("42".into()),
        agent: agent.map(str::to_string),
        agent_status,
        keyboard_protocol: None,
    }
}

#[test]
fn a_peer_enumeration_labels_the_view_onto_its_pane() {
    let mut app = App::default();
    attach(&mut app, "beta", "w1:p1", Some("w1"), 2);

    let panes = vec![
        // The view is onto the first pane; the second is the peer's own business
        // and must not label anything here.
        peer_pane_info("w1:p1", "term_1", Some("aider"), AgentStatus::Working),
        peer_pane_info("w1:p2", "term_2", Some("codex"), AgentStatus::Blocked),
    ];
    let updated = app.handle_peer_panes_updated(&PeerHandle::new("beta"), &panes);

    let metadata = remote(&app, &TerminalId::new("term_2"))
        .and_then(|view| view.metadata.as_ref())
        .expect("the view onto the peer pane was labeled");
    assert_eq!(metadata.cwd.as_deref(), Some("/srv/app"));
    assert_eq!(metadata.foreground_cwd.as_deref(), Some("/srv/app/crate"));
    assert_eq!(metadata.terminal_title.as_deref(), Some("building"));
    assert_eq!(metadata.agent_osc_title.as_deref(), Some("Compiling"));
    assert_eq!(metadata.agent_osc_progress.as_deref(), Some("42"));
    assert_eq!(metadata.agent.as_deref(), Some("aider"));

    assert_eq!(updated.detections.len(), 1, "unexpected: {updated:?}");
    match &updated.detections[0] {
        AppEvent::StateChanged { agent, state, process_exited, .. } => {
            assert_eq!(agent.as_deref(), Some("aider"));
            assert_eq!(*state, AgentState::Working);
            assert!(!process_exited);
        }
        other => panic!("unexpected: {other:?}"),
    }
    assert!(updated.redraw);

    // The poll repeats every interval, so an unchanged enumeration must not keep
    // re-reporting detection the terminal already has.
    assert!(app.handle_peer_panes_updated(&PeerHandle::new("beta"), &panes).detections.is_empty());

    // A peer this view is not onto never claims it, even for the same ids.
    assert!(app.handle_peer_panes_updated(&PeerHandle::new("gamma"), &panes).detections.is_empty());
}

#[test]
fn an_agent_a_peer_reports_sends_its_read_back_to_that_peer() {
    let mut app = App::default();
    let local_ws = add_local_workspace(&mut app, 1);
    let ws_idx = attach(&mut app, "beta", "w1:p1", Some("w1"), 2);
    app.state.agents = vec![
        AgentEntry { name: "w1:p1".into(), ws_idx: local_ws, pane_id: PaneId::from_raw(1) },
        AgentEntry { name: "w2:p1".into(), ws_idx, pane_id: PaneId::from_raw(2) },
    ];

    assert!(app.request_targets_peer_pane(&agent_read_request("w2:p1")));
    assert!(!app.request_targets_peer_pane(&agent_read_request("w1:p1")));
    assert!(!app.request_targets_peer_pane(&agent_read_request("w99:p9")));
}

#[test]
fn explaining_a_peer_backed_agent_asks_the_peer_that_ran_the_rules() {
    let mut app = App::default();
    connected_peer(&mut app, "beta");
    let local_ws = add_local_workspace(&mut app, 1);
    let ws_idx = attach(&mut app, "beta", "w1:p1", Some("w1"), 2);
    app.state.agents = vec![
        AgentEntry { name: "w1:p1".into(), ws_idx: local_ws, pane_id: PaneId::from_raw(1) },
        AgentEntry { name: "w2:p1".into(), ws_idx, pane_id: PaneId::from_raw(2) },
    ];

    assert!(app.request_targets_peer_pane(&agent_explain_request("w2:p1")));
    assert!(!app.request_targets_peer_pane(&agent_explain_request("w1:p1")));
    assert!(!app.request_targets_peer_pane(&agent_explain_request("w99:p9")));
    match app.start_peer_agent_explain(AgentTarget { target: "w2:p1".into() }) {
        Started::Deferred(PeerWork::Forward { method, restate, .. }) => {
            assert_eq!(method, Method::AgentExplain(AgentTarget { target: "w1:p1".into() }));
            assert_eq!(
                restate,
                Restate::Explain {
                    peer: PeerHandle::new("beta"),
                    peer_pane_id: "w1:p1".to_string(),
                }
            );
        }
        other => panic!("unexpected: {other:?}"),
    }
    assert_eq!(
        app.start_peer_agent_explain(AgentTarget { target: "nobody".into() }),
        Started::Answered(Reply::AgentNotFound { target: "nobody".to_string() })
    );
}

fn pending_cleanup(peer_pane_id: &str, expected_instance: Option<&str>) -> PendingPaneCleanup {
    PendingPaneCleanup {
        peer_pane_id: peer_pane_id.to_string(),
        expected_instance: expected_instance.map(str::to_string),
        reason: "peer is disconnected".to_string(),
    }
}

fn registry() -> (PeerRegistryState, PeerHandle) {
    let mut peers = PeerRegistryState::default();
    let beta = PeerHandle::new("beta");
    peers
        .add(PeerHandle::new("beta"), PeerTarget::SocketPath("/tmp/b.sock".into()))
        .expect("add peer");
    (peers, beta)
}

#[test]
fn failed_cleanups_are_counted_on_the_peer_they_belong_to() {
    let (mut peers, beta) = registry();

    assert!(peers.record_failed_pane_cleanup(&beta, pending_cleanup("w1:p1", Some("inst-a"))));
    assert!(peers.record_failed_pane_cleanup(&beta, pending_cleanup("w1:p2", Some("inst-a"))));
    // A peer that is already gone has nowhere to record it, which is the race a
    // removal loses.
    assert!(!peers.record_failed_pane_cleanup(
        &PeerHandle::new("gone"),
        pending_cleanup("w1:p3", Some("inst-a"))
    ));

    let peer = peers.get(&beta).expect("peer still configured");
    assert_eq!(peer.failed_pane_cleanups(), 2);
    assert_eq!(peer_info(peer).failed_pane_cleanups, 2);
}

#[test]
fn a_failed_cleanup_comes_back_when_the_same_server_returns() {
    let (mut peers, beta) = registry();
    peers.record_failed_pane_cleanup(&beta, pending_cleanup("w1:p1", Some("inst-a")));

    let retryable = peers.take_retryable_pane_cleanups(&beta, "inst-a");

    assert_eq!(retryable.len(), 1);
    assert_eq!(retryable[0].peer_pane_id, "w1:p1");
    assert_eq!(
        peers.get(&beta).expect("peer").failed_pane_cleanups(),
        0,
        "a record taken for retry is no longer outstanding"
    );
}

#[test]
fn a_failed_cleanup_is_never_retried_against_a_replacement_server() {
    let (mut peers, beta) = registry();
    peers.record_failed_pane_cleanup(&beta, pending_cleanup("w1:p1", Some("inst-a")));

    assert!(
        peers.take_retryable_pane_cleanups(&beta, "inst-b").is_empty(),
        "a different server must never be sent the old server's pane ids"
    );
    assert_eq!(
        peers.get(&beta).expect("peer").failed_pane_cleanups(),
        1,
        "the leak is still real and still reported"
    );
}

#[test]
fn a_cleanup_with_no_recorded_instance_is_reported_but_not_retried() {
    let (mut peers, beta) = registry();
    peers.record_failed_pane_cleanup(&beta, pending_cleanup("w1:p1", None));

    assert!(peers.take_retryable_pane_cleanups(&beta, "inst-a").is_empty());
    assert_eq!(peers.get(&beta).expect("peer").failed_pane_cleanups(), 1);
}

#[test]
fn a_repeated_failure_for_one_pane_is_retained_once() {
    let (mut peers, beta) = registry();

    peers.record_failed_pane_cleanup(&beta, pending_cleanup("w1:p1", Some("inst-a")));
    peers.record_failed_pane_cleanup(&beta, pending_cleanup("w1:p1", Some("inst-a")));

    assert_eq!(peers.get(&beta).expect("peer").failed_pane_cleanups(), 1);
}

#[test]
fn retained_cleanups_stay_bounded_for_a_peer_that_stays_broken() {
    let (mut peers, beta) = registry();

    for index in 0..500 {
        peers.record_failed_pane_cleanup(
            &beta,
            pending_cleanup(&format!("w1:p{index}"), Some("inst-a")),
        );
    }

    assert_eq!(peers.get(&beta).expect("peer").failed_pane_cleanups(), 64);
}

#[test]
fn a_retried_cleanup_goes_to_the_server_it_names() {
    let mut app = App::default();
    let handle = connected_peer(&mut app, "beta");
    app.state
        .peers
        .record_failed_pane_cleanup(&handle, pending_cleanup("w1:p1", Some(INSTANCE)));
    app.state
        .peers
        .record_failed_pane_cleanup(&handle, pending_cleanup("w1:p2", Some("another")));
    let closes = app.retry_pending_pane_cleanups(&handle);
    assert_eq!(closes.len(), 1);
    assert_eq!(closes[0].peer_pane_id, "w1:p1");
    assert_eq!(
        closes[0].route,
        Ok(Route { api_socket: SOCKET.to_string(), instance_id: INSTANCE.to_string() })
    );
    assert_eq!(app.state.peers.get(&handle).expect("peer").failed_pane_cleanups(), 1);
}

#[test]
fn a_close_that_fails_is_reported_with_its_server() {
    let close = || PaneClose {
        handle: PeerHandle::new("beta"),
        peer_pane_id: "w1:p1".to_string(),
        expected_instance: Some(INSTANCE.to_string()),
        route: Ok(Route { api_socket: SOCKET.to_string(), instance_id: INSTANCE.to_string() }),
    };
    assert_eq!(report_pane_close(close(), Ok(())), None);
    assert_eq!(
        report_pane_close(close(), Err("busy".to_string())),
        Some(AppEvent::PeerPaneCleanupFailed {
            handle: PeerHandle::new("beta"),
            peer_pane_id: "w1:p1".to_string(),
            expected_instance: Some(INSTANCE.to_string()),
            reason: "busy".to_string(),
        })
    );
}

#[test]
fn a_dropped_view_reconnects_and_keeps_its_identity() {
    let mut app = App::default();
    let handle = connected_peer(&mut app, "beta");
    let terminal_id = open_view(&mut app, &handle, "w1:p1", 7);
    // A view onto a pane we asked the peer to spawn keeps its claim across the
    // reconnect, or closing it would stop closing the pane behind it.
    remote_mut(&mut app, &terminal_id).spawned_on_peer = true;
    remote_mut(&mut app, &terminal_id).connected = false;

    let done = app.reconcile_remote_terminal_views();
    assert_eq!(done.attempts.len(), 1);
    assert_eq!(done.attempts[0].target, "w1:p1");
    assert_eq!(done.attempts[0].instance_id, INSTANCE);
    assert_eq!(done.attempts[0].api_socket, SOCKET);
    // One attempt at a time.
    assert!(app.reconcile_remote_terminal_views().attempts.is_empty());
    assert_eq!(
        app.handle_peer_view_reconnected(PeerViewReconnectResult {
            terminal_id: TerminalId::new("term_7"),
            result: Ok(view("beta", "w1:p1")),
        }),
        None
    );

    let installed = remote(&app, &terminal_id).expect("still a peer-backed view");
    assert!(installed.connected, "the view must be live again");
    assert_eq!(installed.peer, "beta");
    assert_eq!(installed.target, "w1:p1");
    assert_eq!(
        installed.spawned_peer_pane().map(|pane| (pane.peer, pane.peer_pane_id)),
        Some(("beta".to_string(), "w1:p1".to_string()))
    );
    assert!(installed.dead.is_none());
}

#[test]
fn a_view_the_peer_keeps_refusing_stops_retrying() {
    let mut app = App::default();
    let handle = connected_peer(&mut app, "beta");
    let terminal_id = open_view(&mut app, &handle, "w1:p1", 7);
    remote_mut(&mut app, &terminal_id).connected = false;
    assert_eq!(app.reconcile_remote_terminal_views().attempts.len(), 1);
    app.handle_peer_view_reconnected(PeerViewReconnectResult {
        terminal_id: TerminalId::new("term_7"),
        result: Err("closed".to_string()),
    });
    // It waits before it tries again.
    assert!(app.reconcile_remote_terminal_views().attempts.is_empty());
    remote_mut(&mut app, &terminal_id).backoff_over = true;
    remote_mut(&mut app, &terminal_id).refused = Some("the peer keeps closing it".to_string());
    assert!(app.reconcile_remote_terminal_views().attempts.is_empty());

    let view = remote(&app, &terminal_id).expect("the view stays in place when it dies");
    assert_eq!(view.dead.as_deref(), Some("the peer keeps closing it"));
    // Nothing else is dispatched once it is dead.
    assert!(app.reconcile_remote_terminal_views().attempts.is_empty());
}

fn gone(view: &mut RemoteView) {
    view.connected = false;
    view.refused =
        Some("terminal session control failed: terminal target w1:p1 not found".to_string());
    view.target_gone = true;
}

#[test]
fn a_view_the_peer_reports_as_gone_closes_instead_of_going_gray() {
    let mut app = App::default();
    let handle = connected_peer(&mut app, "beta");
    let terminal_id = open_view(&mut app, &handle, "w1:p1", 7);
    remote_mut(&mut app, &terminal_id).spawned_on_peer = true;
    gone(remote_mut(&mut app, &terminal_id));
    assert_eq!(app.state.workspaces.len(), 1);

    let done = app.reconcile_remote_terminal_views();

    assert!(app.runtime(&terminal_id).is_none(), "a gone target retires the view");
    assert!(
        app.state.workspaces.is_empty(),
        "it was the workspace's only pane, so the workspace closed with it"
    );
    // The claim was cleared before teardown: there is nothing to close.
    assert!(app.close_ended_views(&done.ended).is_empty());
    assert!(done.attempts.is_empty());
}

#[test]
fn one_gone_refusal_retires_the_view_without_another_attempt() {
    let mut app = App::default();
    let handle = connected_peer(&mut app, "beta");
    let terminal_id = open_view(&mut app, &handle, "w1:p1", 7);
    gone(remote_mut(&mut app, &terminal_id));

    let done = app.reconcile_remote_terminal_views();

    assert!(app.runtime(&terminal_id).is_none());
    assert!(app.state.workspaces.is_empty());
    assert!(done.attempts.is_empty());
    assert_eq!(done.ended.len(), 1);
}

#[test]
fn a_gone_view_closes_its_pane_and_leaves_the_workspace_standing() {
    let mut app = App::default();
    let handle = connected_peer(&mut app, "beta");
    let terminal_id = open_view(&mut app, &handle, "w1:p1", 7);
    let (ws_idx, _) =
        app.pane_location_for_terminal(&terminal_id).expect("the view opened in a workspace");
    app.create_tab_attached(
        ws_idx,
        Some("logs".to_string()),
        TerminalRuntime::Local { size: TerminalSize { rows: 24, cols: 80 } },
        false,
        fresh_tab(8),
    );
    assert_eq!(app.state.workspaces[ws_idx].tabs.len(), 2);
    gone(remote_mut(&mut app, &terminal_id));

    app.reconcile_remote_terminal_views();

    assert!(app.runtime(&terminal_id).is_none());
    assert_eq!(app.state.workspaces.len(), 1, "the workspace survives losing one of its tabs");
    assert_eq!(app.state.workspaces[ws_idx].tabs.len(), 1);
    assert_eq!(app.state.workspaces[ws_idx].tabs[0].custom_name.as_deref(), Some("logs"));
}

#[test]
fn a_transient_refusal_keeps_the_view_gray() {
    let mut app = App::default();
    let handle = connected_peer(&mut app, "beta");
    let terminal_id = open_view(&mut app, &handle, "w1:p1", 7);
    let view = remote_mut(&mut app, &terminal_id);
    view.connected = false;
    view.refused = Some(
        "terminal attach failed: terminal term_18d2 has a read in progress; retry".to_string(),
    );

    app.reconcile_remote_terminal_views();

    let view = remote(&app, &terminal_id).expect("a transient refusal keeps the view in place");
    assert!(view.dead.is_some());
    assert_eq!(app.state.workspaces.len(), 1);
    assert!(
        app.pane_location_for_terminal(&terminal_id).is_some(),
        "the pane is still there, showing its last frame"
    );
}

#[test]
fn a_gone_agent_name_keeps_its_view_gray() {
    let mut app = App::default();
    let handle = connected_peer(&mut app, "beta");
    let terminal_id = open_view(&mut app, &handle, "codex", 7);
    let view = remote_mut(&mut app, &terminal_id);
    view.connected = false;
    view.target_gone = true;
    view.refused =
        Some("terminal session control failed: terminal target codex not found".to_string());

    app.reconcile_remote_terminal_views();

    let view = remote(&app, &terminal_id).expect("an agent-name target keeps its gray view");
    assert_eq!(
        view.dead.as_deref(),
        Some("terminal session control failed: terminal target codex not found")
    );
    assert!(app.pane_location_for_terminal(&terminal_id).is_some());
}

#[test]
fn a_view_waits_for_its_peer_rather_than_dialing_a_socket_that_cannot_answer() {
    let mut app = App::default();
    let handle = connected_peer(&mut app, "beta");
    let terminal_id = open_view(&mut app, &handle, "w1:p1", 7);

    app.state.peers.set_connection(
        &handle,
        PeerConnectionState::Reconnecting {
            attempt: 2,
            message: "peer event stream closed".into(),
        },
    );
    remote_mut(&mut app, &terminal_id).connected = false;
    assert!(
        app.reconcile_remote_terminal_views().attempts.is_empty(),
        "no attempt may be dispatched while the peer itself is down"
    );

    let view = remote(&app, &terminal_id).expect("the view stays in place while its peer is down");
    assert!(!view.connected);
    assert!(
        view.dead.is_none(),
        "a peer that is reconnecting will be back; its views must not give up"
    );
}

#[test]
fn a_live_view_reports_itself_connected_and_a_local_pane_reports_nothing() {
    let mut app = App::default();
    let local_idx = add_local_workspace(&mut app, 1);
    let handle = connected_peer(&mut app, "beta");
    let terminal_id = open_view(&mut app, &handle, "w1:p1", 7);
    let (ws_idx, pane_id) =
        app.pane_location_for_terminal(&terminal_id).expect("the view has a pane");

    let view = app.remote_of_pane(ws_idx, pane_id).expect("a peer-backed pane has a view");
    assert_eq!(view.state(), PeerViewState::Connected);
    assert_eq!(view.dead, None);
    // Absent rather than connected: a local pane has no connection to describe.
    assert!(app.remote_of_pane(local_idx, PaneId::from_raw(1)).is_none());
}

#[test]
fn a_view_that_stops_retrying_reports_itself_disconnected_once() {
    let mut app = App::default();
    let handle = connected_peer(&mut app, "beta");
    let terminal_id = open_view(&mut app, &handle, "w1:p1", 7);
    let location = app.pane_location_for_terminal(&terminal_id).expect("the view has a pane");
    let view = remote_mut(&mut app, &terminal_id);
    view.connected = false;
    assert_eq!(app.reconcile_remote_terminal_views().updated, vec![location]);
    assert_eq!(
        remote(&app, &terminal_id).expect("view").state(),
        PeerViewState::Reconnecting
    );
    let view = remote_mut(&mut app, &terminal_id);
    view.reconnect_failed();
    view.backoff_over = true;
    view.refused = Some("closed".to_string());
    assert_eq!(app.reconcile_remote_terminal_views().updated, vec![location]);
    let view = remote(&app, &terminal_id).expect("view");
    assert_eq!(view.state(), PeerViewState::Disconnected);
    assert!(view.dead.is_some(), "giving up has to say what it gave up on");

    // And it stays quiet: nothing about the pane changes by looking again.
    assert!(app.reconcile_remote_terminal_views().updated.is_empty());
    assert!(app.reconcile_remote_terminal_views().updated.is_empty());
}

#[test]
fn a_view_whose_peer_was_removed_stops_retrying() {
    let mut app = App::default();
    let handle = connected_peer(&mut app, "beta");
    let terminal_id = open_view(&mut app, &handle, "w1:p1", 7);

    app.state.peers.remove(&handle);
    remote_mut(&mut app, &terminal_id).connected = false;
    app.reconcile_remote_terminal_views();

    let view = remote(&app, &terminal_id).expect("the view stays in place when it dies");
    let reason = view.dead.as_deref().expect("an unconfigured peer is final");
    assert!(reason.contains("beta"), "{reason}");
}

#[test]
fn opening_a_target_this_server_already_views_returns_the_same_view() {
    let mut app = App::default();
    connected_peer(&mut app, "beta");

    let first = open_peer_workspace(&mut app, &peer_ws_id("w1:p1"), Some("beta"), true, 7)
        .expect("open the view");
    let workspaces = app.state.workspaces.len();
    let second = open_peer_workspace(&mut app, &peer_ws_id("w1:p1"), Some("beta"), true, 8)
        .expect("reopening returns the existing view");

    assert_eq!(first, second);
    assert_eq!(
        app.state.workspaces.len(),
        workspaces,
        "a second view onto one terminal would fight the first for the peer's attach"
    );
}

#[test]
fn a_target_is_opened_once_at_a_time() {
    let mut app = App::default();
    connected_peer(&mut app, "beta");
    let start = |app: &mut App| {
        app.start_peer_workspace_open(peer_ws_id("w1:p1"), None, None, true, false, None)
    };
    assert!(matches!(start(&mut app), Started::Deferred(PeerWork::OpenView { .. })));
    assert!(matches!(start(&mut app), Started::Answered(Reply::Error(_))));
    // A failure lets the next one through.
    let placed = app.handle_peer_view_open_finished(
        PeerViewOpenResult {
            id: "open".into(),
            handle: PeerHandle::new("beta"),
            requested_target: peer_ws_id("w1:p1"),
            started_target: "w1:p1".into(),
            placement: PeerViewPlacement::Terminal { target: peer_ws_id("w1:p1") },
            result: Err(ErrorBody::of("unavailable", "refused")),
        },
        fresh(7),
    );
    assert_eq!(placed.reply, Reply::Error(ErrorBody::of("unavailable", "refused")));
    assert!(matches!(start(&mut app), Started::Deferred(PeerWork::OpenView { .. })));
}

#[test]
fn a_view_whose_server_was_replaced_stops_instead_of_re_attaching() {
    let mut app = App::default();
    let handle = connected_peer(&mut app, "beta");
    let terminal_id = open_view(&mut app, &handle, "w1:p1", 7);
    // A split view: this is the one whose stale claim could kill a pane.
    remote_mut(&mut app, &terminal_id).spawned_on_peer = true;
    assert!(remote(&app, &terminal_id).expect("view").spawned_peer_pane().is_some());

    // beta restarts with a fresh session directory and reports a new id.
    let changed = app.handle_peer_connection_changed(
        &handle,
        PeerConnectionState::Connected,
        Some(PeerIdentity {
            instance_id: "ffffffffffffffffffffffffffffffff".to_string(),
            version: None,
            protocol: Some(20),
        }),
    );
    assert_eq!(
        changed.identified,
        Some(SetIdentity::Recorded { replaced: Some(INSTANCE.to_string()) })
    );

    let view = remote(&app, &terminal_id).expect("the view is still there");
    assert_eq!(
        view.dead.as_deref(),
        Some("the peer was replaced by a different server"),
        "a view onto a server that is gone must not reconnect to its replacement"
    );
    assert!(!view.reconnect_due(), "a dead view schedules no attempts");
    assert!(
        view.spawned_peer_pane().is_none(),
        "closing the view must not close a pane of the replacement"
    );
}

#[test]
fn a_peer_that_comes_back_has_its_views_and_closes_tried() {
    let mut app = App::default();
    let handle = connected_peer(&mut app, "beta");
    let terminal_id = open_view(&mut app, &handle, "w1:p1", 7);
    remote_mut(&mut app, &terminal_id).connected = false;
    remote_mut(&mut app, &terminal_id).backoff_over = false;
    app.state.peers.record_failed_pane_cleanup(
        &handle,
        PendingPaneCleanup {
            peer_pane_id: "w1:p2".into(),
            expected_instance: Some(INSTANCE.into()),
            reason: "away".into(),
        },
    );
    let down = || PeerConnectionState::Reconnecting { attempt: 1, message: "away".into() };
    let changed = app.handle_peer_connection_changed(&handle, down(), None);
    assert!(changed.moved && changed.closes.is_empty());
    assert!(app.reconcile_remote_terminal_views().attempts.is_empty());

    let changed =
        app.handle_peer_connection_changed(&handle, PeerConnectionState::Connected, None);
    assert!(changed.moved);
    assert_eq!(changed.identified, None);
    assert_eq!(changed.closes.len(), 1);
    assert_eq!(changed.closes[0].peer_pane_id, "w1:p2");
    assert_eq!(app.reconcile_remote_terminal_views().attempts.len(), 1);
    // A report of the state the peer is in changes nothing.
    let changed =
        app.handle_peer_connection_changed(&handle, PeerConnectionState::Connected, None);
    assert!(!changed.moved && changed.closes.is_empty());

    // The same server under a second handle is refused.
    let twin = PeerHandle::new("gamma");
    app.state
        .peers
        .add(PeerHandle::new("gamma"), PeerTarget::SocketPath("/tmp/gamma.sock".into()))
        .expect("added");
    let changed = app.handle_peer_connection_changed(
        &twin,
        PeerConnectionState::Connected,
        Some(PeerIdentity { instance_id: INSTANCE.into(), version: None, protocol: None }),
    );
    assert_eq!(
        changed.identified,
        Some(SetIdentity::Duplicate { held_by: PeerHandle::new("beta") })
    );
    assert!(changed.moved && changed.closes.is_empty());
    assert_eq!(
        app.state.peers.get(&twin).expect("gamma").connection,
        PeerConnectionState::Error { message: "same server as peer 'beta'".to_string() }
    );
    assert!(app.state.peers.assert_invariants_for_test());
}

fn open_peer_terminal(app: &mut App, target: &str, n: u32) -> Result<String, ErrorBody> {
    let reply = match app.start_peer_terminal_open(PeerTerminalOpenParams {
        name: Some("beta".into()),
        target: target.to_string(),
        cols: 80,
        rows: 24,
        takeover: false,
    }) {
        Started::Answered(reply) => reply,
        Started::Deferred(PeerWork::OpenView {
            handle,
            requested_target,
            local_target,
            placement,
            ..
        }) => {
            let connected = view(handle.as_str(), &local_target);
            app.handle_peer_view_open_finished(
                PeerViewOpenResult {
                    id: "test:peer:terminal".to_string(),
                    handle,
                    requested_target,
                    started_target: local_target.clone(),
                    placement,
                    result: Ok(PeerViewOpened { view: connected, local_target }),
                },
                fresh(n),
            )
            .reply
        }
        other => panic!("unexpected: {other:?}"),
    };
    match reply {
        Reply::PeerTerminal(info) => Ok(info.terminal_id),
        Reply::Error(error) => Err(error),
        other => panic!("unexpected: {other:?}"),
    }
}

#[test]
fn a_bare_peer_terminal_is_attachable_and_releasable() {
    let mut app = App::default();
    connected_peer(&mut app, "beta");

    let id = open_peer_terminal(&mut app, "w1:p1", 7).expect("open a bare peer terminal");
    let terminal_id = TerminalId::new(&id);

    // Registered in both places: the id is only usable if a client can find it.
    assert!(app.state.terminals.iter().any(|known| known.is(&terminal_id)));
    assert!(app.runtime(&terminal_id).is_some());

    // Releasing it removes both, so nothing keeps reconnecting to the peer.
    let (reply, ended) = app
        .handle_peer_terminal_close(TerminalTarget { terminal_id: id.clone() })
        .expect("a bare terminal");
    assert_eq!(reply, Reply::TerminalClosed { terminal_id: id.clone() });
    assert_eq!(ended.len(), 1);
    assert!(!app.state.terminals.iter().any(|known| known.is(&terminal_id)));
    assert!(app.runtime(&terminal_id).is_none());
    assert_eq!(
        app.handle_peer_terminal_close(TerminalTarget { terminal_id: id }).expect_err("gone").code,
        "not_found"
    );
}

#[test]
fn a_workspace_open_sees_a_bare_terminal_on_the_same_target() {
    let mut app = App::default();
    connected_peer(&mut app, "beta");

    let id = open_peer_terminal(&mut app, "w1:p1", 7).expect("open a bare peer terminal");

    let error = open_peer_workspace(&mut app, &peer_ws_id("w1:p1"), Some("beta"), true, 8)
        .expect_err("a second connection to the same peer terminal is refused");
    assert_eq!(error.code, "already_exists");
    assert!(
        error.message.contains(&id),
        "the refusal should name the view that already holds it: {}",
        error.message
    );
}

#[test]
fn resolved_workspace_and_pane_opens_dedupe_on_completion() {
    let mut app = App::default();
    connected_peer(&mut app, "beta");

    let placed = app.handle_peer_view_open_finished(
        PeerViewOpenResult {
            id: "workspace".into(),
            handle: PeerHandle::new("beta"),
            requested_target: peer_ws_id("w1"),
            started_target: "w1".into(),
            placement: PeerViewPlacement::Workspace {
                peer_workspace: Some("w1".into()),
                label: None,
                created: false,
                focus: true,
                worktree: None,
            },
            result: Ok(PeerViewOpened {
                view: view("beta", "w1:p1"),
                local_target: "w1:p1".into(),
            }),
        },
        fresh(7),
    );
    assert_eq!(placed.reply, Reply::Workspace { ws_idx: 0 });
    assert!(placed.events.is_empty());
    // No label was asked for, so the workspace is named after the peer.
    assert_eq!(app.state.workspaces[0].label.as_deref(), Some("beta"));

    let placed = app.handle_peer_view_open_finished(
        PeerViewOpenResult {
            id: "pane".into(),
            handle: PeerHandle::new("beta"),
            requested_target: peer_ws_id("w1:p1"),
            started_target: "w1:p1".into(),
            placement: PeerViewPlacement::Terminal { target: peer_ws_id("w1:p1") },
            result: Ok(PeerViewOpened {
                view: view("beta", "w1:p1"),
                local_target: "w1:p1".into(),
            }),
        },
        fresh(8),
    );

    assert!(matches!(
        &placed.reply,
        Reply::PeerTerminal(info) if info.terminal_id == "term_7"
    ));
    assert_eq!(app.state.workspaces.len(), 1);
    assert_eq!(app.terminal_runtimes.len(), 1);
}

#[test]
fn a_reconnect_result_replaces_the_view_it_belongs_to() {
    let mut app = App::default();
    connected_peer(&mut app, "beta");
    let terminal_id = TerminalId::new("term_7");
    app.register_peer_terminal(
        TerminalId::new("term_7"),
        TerminalRuntime::Remote(RemoteView { connected: false, ..view("beta", "w1:p1") }),
    );

    app.handle_peer_view_reconnected(PeerViewReconnectResult {
        terminal_id: TerminalId::new("term_7"),
        result: Ok(view("beta", "w1:p1")),
    });

    let installed = remote(&app, &terminal_id).expect("the view is still there");
    assert!(installed.dead.is_none());
    assert!(installed.connected, "the reconnected view is live");
}

#[test]
fn a_reconnect_that_finished_against_a_replaced_peer_is_discarded() {
    let mut app = App::default();
    let terminal_id = TerminalId::new("term_7");
    app.register_peer_terminal(
        TerminalId::new("term_7"),
        TerminalRuntime::Remote(view("beta", "w1:p1")),
    );

    // A different server answers on the peer's address, which abandons the views
    // bound to the old one.
    app.abandon_views_of_replaced_peer(&PeerHandle::new("beta"), "a-different-instance-id");
    assert!(
        remote(&app, &terminal_id).expect("still registered").dead.is_some(),
        "replacement marks the view dead"
    );

    // Only now does the worker's answer arrive.
    let back = app.handle_peer_view_reconnected(PeerViewReconnectResult {
        terminal_id: TerminalId::new("term_7"),
        result: Ok(view("beta", "w1:p1")),
    });
    assert_eq!(back, Some(view("beta", "w1:p1")), "what is not installed is handed back");

    assert!(
        remote(&app, &terminal_id).expect("still registered").dead.is_some(),
        "a view abandoned for peer replacement must stay dead"
    );
}

#[test]
fn a_returning_peer_lets_its_views_try_at_once() {
    let mut app = App::default();
    let handle = connected_peer(&mut app, "beta");
    let terminal_id = open_view(&mut app, &handle, "w1:p1", 7);
    remote_mut(&mut app, &terminal_id).connected = false;
    remote_mut(&mut app, &terminal_id).backoff_over = false;
    assert!(app.reconcile_remote_terminal_views().attempts.is_empty());
    app.retry_peer_views_now(&PeerHandle::new("gamma"));
    assert!(app.reconcile_remote_terminal_views().attempts.is_empty());
    app.retry_peer_views_now(&handle);
    assert_eq!(app.reconcile_remote_terminal_views().attempts.len(), 1);
}

#[test]
fn a_successful_add_is_recorded_in_peer_history() {
    let mut app = App::default();
    let added = app
        .handle_peer_add(PeerAddParams {
            name: "work".into(),
            target: PeerTargetSpec::Ssh { destination: "me@work-box".into(), session: None },
        })
        .expect("a new peer");
    assert_eq!(added.name, "work");
    assert_eq!(added.history_target, "ssh://me@work-box");
    app.note_peer_history(Ok(vec![PeerHistoryEntry {
        name: added.name,
        target: added.history_target,
    }]));
    assert_eq!(app.state.peer_history.len(), 1);
    assert_eq!(app.state.peer_history[0].name, "work");
    assert_eq!(app.state.peer_history[0].target, "ssh://me@work-box");
    // What could not be written down changes nothing.
    app.note_peer_history(Err("read-only".to_string()));
    assert_eq!(app.state.peer_history.len(), 1);
}

#[test]
fn a_failed_add_is_not_recorded_in_peer_history() {
    let mut app = App::default();
    let params = || PeerAddParams {
        name: "work".into(),
        target: PeerTargetSpec::Ssh { destination: "me@work-box".into(), session: None },
    };
    assert!(app.handle_peer_add(params()).is_ok());
    assert!(app.state.session_dirty, "the session is saved with the peer");
    app.state.session_dirty = false;
    let duplicate = app.handle_peer_add(params()).expect_err("a second one");
    assert_eq!(duplicate.code, "already_exists");
    let nameless = app
        .handle_peer_add(PeerAddParams { name: "  ".into(), ..params() })
        .expect_err("no name");
    assert_eq!(nameless, ErrorBody::of("invalid_request", "peer name must not be empty"));
    assert!(!app.state.session_dirty);
}

#[test]
fn targets_are_what_they_were_asked_for() {
    let spec = || PeerTargetSpec::Ssh { destination: "me@box".into(), session: Some("work".into()) };
    let target = peer_target_from_spec(spec());
    assert_eq!(peer_target_spec(&target), spec());
    assert_eq!(peer_history_target(&target), "ssh://me@box#work");
    assert_eq!(
        peer_history_target(&PeerTarget::SocketPath("/tmp/a.sock".into())),
        "socket:///tmp/a.sock"
    );
    let mut app = App::default();
    connected_peer(&mut app, "beta");
    let infos = app.peer_list_info();
    assert_eq!(infos.len(), 1);
    assert_eq!(infos[0].name, "beta");
    assert_eq!(infos[0].instance_id.as_deref(), Some(INSTANCE));
    assert!(!infos[0].stale);
}

#[test]
fn a_target_names_one_peer() {
    let mut app = App::default();
    connected_peer(&mut app, "beta");
    let code = |result: Result<(PeerHandle, String), ErrorBody>| result.expect_err("refused").code;
    assert_eq!(
        app.resolve_peer_target(&peer_ws_id("w1:p1"), None),
        Ok((PeerHandle::new("beta"), "w1:p1".to_string()))
    );
    assert_eq!(
        app.resolve_peer_target("w1:p1", Some("beta")),
        Ok((PeerHandle::new("beta"), "w1:p1".to_string()))
    );
    // A plain target says nothing about whose it is.
    assert_eq!(code(app.resolve_peer_target("w1:p1", None)), "invalid_request");
    // The name and the namespace have to agree.
    assert_eq!(code(app.resolve_peer_target(&peer_ws_id("w1"), Some("gamma"))), "not_found");
    let foreign = prefix_peer_id("ffffffffffffffffffffffffffffffff", "w1");
    assert_eq!(code(app.resolve_peer_target(&foreign, Some("beta"))), "invalid_request");
    assert_eq!(code(app.resolve_peer_target(&foreign, None)), "not_found");
}

#[test]
fn a_pane_of_a_replaced_server_is_not_reached() {
    let mut app = App::default();
    connected_peer(&mut app, "beta");
    let ws_idx = attach(&mut app, "beta", "w1:p1", Some("w1"), 2);
    assert_eq!(app.peer_pane_server_mismatch(ws_idx, PaneId::from_raw(2)), None);
    assert!(app.reach_pane(ws_idx, PaneId::from_raw(2)).is_ok());
    remote_mut(&mut app, &TerminalId::new("term_2")).instance = Some("another".to_string());
    assert!(app.peer_pane_server_mismatch(ws_idx, PaneId::from_raw(2)).is_some());
    assert!(app.reach_pane(ws_idx, PaneId::from_raw(2)).is_err());
}

#[test]
fn a_created_workspace_is_opened_as_a_view() {
    let mut app = App::default();
    connected_peer(&mut app, "beta");
    match app.start_peer_workspace_create(PeerWorkspaceCreateParams {
        name: "beta".into(),
        cwd: Some("/srv".into()),
        label: Some("api".into()),
        focus: true,
    }) {
        Started::Deferred(PeerWork::CreateWorkspace { api_socket, instance_id, label, .. }) => {
            assert_eq!(api_socket, SOCKET);
            assert_eq!(instance_id, INSTANCE);
            assert_eq!(label.as_deref(), Some("api"));
        }
        other => panic!("unexpected: {other:?}"),
    }
    let finished = |result| PeerWorkspaceCreateResult {
        id: "create".into(),
        handle: PeerHandle::new("beta"),
        label: Some("api".into()),
        focus: true,
        result,
    };
    match app.handle_peer_workspace_create_finished(finished(Ok("w9:p1".to_string()))) {
        Started::Deferred(PeerWork::OpenView { local_target, .. }) => {
            assert_eq!(local_target, "w9:p1");
        }
        other => panic!("unexpected: {other:?}"),
    }
    let refusal = || ErrorBody::of("unavailable", "no");
    assert_eq!(
        app.handle_peer_workspace_create_finished(finished(Err(refusal()))),
        Started::Answered(Reply::Error(refusal()))
    );
    assert!(matches!(
        app.start_peer_workspace_create(PeerWorkspaceCreateParams {
            name: "nobody".into(),
            cwd: None,
            label: None,
            focus: true,
        }),
        Started::Answered(Reply::Error(_))
    ));
}

#[test]
fn a_view_is_named_after_its_peer_and_a_created_one_after_its_target_too() {
    let mut app = App::default();
    connected_peer(&mut app, "beta");
    let opened = open_peer_workspace(&mut app, &peer_ws_id("w1:p1"), None, true, 7).expect("open");
    assert_eq!(app.state.workspaces[opened].label.as_deref(), Some("beta"));

    let started = app.handle_peer_workspace_create_finished(PeerWorkspaceCreateResult {
        id: "create".into(),
        handle: PeerHandle::new("beta"),
        label: None,
        focus: true,
        result: Ok("w9:p1".to_string()),
    });
    let placement = match started {
        Started::Deferred(PeerWork::OpenView { placement, .. }) => placement,
        other => panic!("unexpected: {other:?}"),
    };
    let placed = app.handle_peer_view_open_finished(
        PeerViewOpenResult {
            id: "create".into(),
            handle: PeerHandle::new("beta"),
            requested_target: "w9:p1".into(),
            started_target: "w9:p1".into(),
            placement,
            result: Ok(PeerViewOpened {
                view: view("beta", "w9:p1"),
                local_target: "w9:p1".into(),
            }),
        },
        fresh(9),
    );
    assert_eq!(placed.reply, Reply::Workspace { ws_idx: 1 });
    assert_eq!(app.state.workspaces[1].label.as_deref(), Some("beta:w9:p1"));
}

fn checkout() -> WorktreeInfo {
    WorktreeInfo {
        path: "/home/b/x".into(),
        branch: Some("x".into()),
        is_bare: false,
        is_detached: false,
        is_prunable: false,
        is_linked_worktree: true,
        open_workspace_id: Some("w4".into()),
        label: "x".into(),
    }
}

#[test]
fn a_worktree_made_on_a_peer_is_viewed_here() {
    let mut app = App::default();
    connected_peer(&mut app, "beta");
    attach(&mut app, "beta", "w1:p1", Some("w1"), 2);
    match app.start_peer_worktree_create(worktree_create(Some("w2"))) {
        Started::Deferred(PeerWork::WorktreeView { method, opened, .. }) => {
            assert!(!opened);
            assert!(matches!(
                method,
                Method::WorktreeCreate(params) if params.workspace_id.as_deref() == Some("w1")
            ));
        }
        other => panic!("unexpected: {other:?}"),
    }
    let started = app.handle_peer_worktree_view_finished(PeerWorktreeViewResult {
        id: "worktree".into(),
        handle: PeerHandle::new("beta"),
        label: None,
        focus: true,
        result: Ok(("w4:p1".to_string(), PeerWorktreeAnswer::Created { worktree: checkout() })),
    });
    let placement = match started {
        Started::Deferred(PeerWork::OpenView { placement, local_target, .. }) => {
            assert_eq!(local_target, "w4:p1");
            placement
        }
        other => panic!("unexpected: {other:?}"),
    };
    let placed = app.handle_peer_view_open_finished(
        PeerViewOpenResult {
            id: "worktree".into(),
            handle: PeerHandle::new("beta"),
            requested_target: "w4:p1".into(),
            started_target: "w4:p1".into(),
            placement,
            result: Ok(PeerViewOpened {
                view: view("beta", "w4:p1"),
                local_target: "w4:p1".into(),
            }),
        },
        fresh(9),
    );
    assert!(matches!(placed.reply, Reply::WorktreeCreated { ws_idx: 1, tab_idx: 0, .. }));
    let viewed = WorktreeInfo { open_workspace_id: Some("w9".into()), ..checkout() };
    assert_eq!(
        placed.events,
        vec![Announcement::WorktreeCreated { ws_idx: 1, worktree: viewed }]
    );
    // The peer made it for this view, so the target is in the name.
    assert_eq!(app.state.workspaces[1].label.as_deref(), Some("beta:w4:p1"));

    // Removing it closes the view.
    let removed = app
        .handle_peer_worktree_remove_finished(PeerWorktreeRemoveResult {
            id: "remove".into(),
            workspace_id: "w9".into(),
            result: Ok(("/home/b/x".to_string(), false)),
        })
        .expect("removed");
    assert_eq!(removed.path, "/home/b/x");
    assert!(removed.closed.is_some());
    assert_eq!(removed.events.len(), 2);
    assert_eq!(removed.events[0].kind(), EventKind::WorkspaceClosed);
    assert!(matches!(
        &removed.events[1],
        Announcement::WorktreeRemoved { workspace_id, worktree, forced: false }
            if workspace_id == "w9" && worktree.path == "/home/b/x"
    ));
    assert_eq!(app.state.workspaces.len(), 1);
    assert_eq!(app.terminal_runtimes.len(), 1);
}

#[test]
fn renaming_a_tab_that_views_a_peer_names_its_pane() {
    let mut app = App::default();
    connected_peer(&mut app, "beta");
    let local_idx = add_local_workspace(&mut app, 1);
    let ws_idx = attach(&mut app, "beta", "w1:p1", Some("w1"), 2);
    match app.forward_tab_rename_to_peer(ws_idx, 0, "logs") {
        Some(PeerWork::RenameTab { connection, name }) => {
            assert_eq!(connection.local_target, "w1:p1");
            assert_eq!(name, "logs");
        }
        other => panic!("unexpected: {other:?}"),
    }
    assert_eq!(app.forward_tab_rename_to_peer(local_idx, 0, "logs"), None);
    let rename = TabRenameParams { tab_id: "w2:t1".into(), label: "logs".into() };
    assert!(!app.request_targets_peer_workspace(&request(Method::TabRename(rename))));
}

fn connection(local_target: &str) -> PeerConnection {
    PeerConnection {
        local_target: local_target.to_string(),
        api_socket: SOCKET.to_string(),
        instance_id: INSTANCE.to_string(),
    }
}

fn json(text: &str) -> serde_json::Value {
    serde_json::from_str(text).expect("valid json")
}

fn split_work() -> PeerWork {
    PeerWork::SplitPane {
        connection: connection("w1:p1"),
        handle: PeerHandle::new("beta"),
        method: Method::PaneSplit(split_params(None)),
        workspace_id: "w2".into(),
        target_pane: PaneId::from_raw(2),
        direction: Direction::Horizontal,
        ratio: Some(0.3f32.to_bits()),
        focus: true,
        size: TerminalSize { rows: 24, cols: 80 },
    }
}

/// Attaches to the pane a peer made for a split.
fn split_made(pane: &str) -> (Attach, Connecting) {
    let stage = match begin("req".to_string(), split_work()) {
        Step::Send(request, stage) => {
            assert_eq!(request.request.id, "peer:forward");
            assert_eq!(request.request.method, Method::PaneSplit(split_params(None)));
            stage
        }
        other => panic!("unexpected: {other:?}"),
    };
    let answer = json(&format!(r#"{{"result": {{"pane": {{"pane_id": "{pane}"}}}}}}"#));
    match replied(stage, Ok(answer), None) {
        Step::Connect(attach, stage) => (attach, stage),
        other => panic!("unexpected: {other:?}"),
    }
}

#[test]
fn a_split_is_made_and_then_viewed() {
    let (attach, stage) = split_made("w1:p2");
    assert_eq!(
        attach,
        Attach {
            api_socket: SOCKET.to_string(),
            peer: "beta".to_string(),
            target: "w1:p2".to_string(),
            size: TerminalSize { rows: 24, cols: 80 },
            takeover: false,
        }
    );
    match connected(stage, Ok(view("beta", "w1:p2"))) {
        Step::End(ended) => match ended.event {
            Some(AppEvent::PeerPaneSplitFinished(finished)) => {
                assert_eq!(finished.id, "req");
                assert!(finished.result.expect("a view").spawned_on_peer);
            }
            other => panic!("unexpected: {other:?}"),
        },
        other => panic!("unexpected: {other:?}"),
    }
}

#[test]
fn a_made_pane_that_cannot_be_viewed_is_closed() {
    for failure in [
        Err("refused".to_string()),
        Ok(RemoteView { instance: Some("another".to_string()), ..view("beta", "w1:p2") }),
    ] {
        let (_, stage) = split_made("w1:p2");
        let stage = match connected(stage, failure) {
            Step::Send(request, stage) => {
                assert_eq!(request.request.id, "peer:close-spawned");
                assert!(matches!(
                    request.request.method,
                    Method::PaneClose(target) if target.pane_id == "w1:p2"
                ));
                assert_eq!(request.route.instance_id, INSTANCE);
                stage
            }
            other => panic!("unexpected: {other:?}"),
        };
        match replied(stage, Err("reset".to_string()), None) {
            Step::End(ended) => {
                assert_eq!(ended.warning.as_deref(), Some("peer request failed: reset"));
                assert!(matches!(
                    ended.event,
                    Some(AppEvent::PeerPaneSplitFinished(finished)) if finished.result.is_err()
                ));
            }
            other => panic!("unexpected: {other:?}"),
        }
    }
}

#[test]
fn a_refused_split_is_told() {
    let stage = match begin("req".to_string(), split_work()) {
        Step::Send(_, stage) => stage,
        other => panic!("unexpected: {other:?}"),
    };
    let refusal = json(r#"{"error": {"code": "pane_split_failed", "message": "no room"}}"#);
    match replied(stage, Ok(refusal), None) {
        Step::End(ended) => assert!(matches!(
            ended.event,
            Some(AppEvent::PeerPaneSplitFinished(finished))
                if finished.result == Err(ErrorBody::of("pane_split_failed", "no room"))
        )),
        other => panic!("unexpected: {other:?}"),
    }
}

fn open_work(target: &str, resolve_workspace: bool) -> PeerWork {
    PeerWork::OpenView {
        connection: connection(target),
        handle: PeerHandle::new("beta"),
        requested_target: peer_ws_id(target),
        local_target: target.to_string(),
        resolve_workspace,
        size: TerminalSize { rows: 24, cols: 80 },
        takeover: true,
        placement: PeerViewPlacement::Terminal { target: peer_ws_id(target) },
    }
}

#[test]
fn a_workspace_is_resolved_before_it_is_viewed() {
    let start = || match begin("req".to_string(), open_work("w1", true)) {
        Step::List(request, stage) => {
            assert_eq!(request.request.id, "peer:panes");
            stage
        }
        other => panic!("unexpected: {other:?}"),
    };
    let panes = vec![peer_pane_info("w1:p3", "term_3", None, AgentStatus::Unknown)];
    match listed(start(), Ok(Some(panes))) {
        Step::Connect(attach, stage) => {
            assert_eq!(attach.target, "w1:p3");
            assert!(attach.takeover);
            match connected(stage, Ok(view("beta", "w1:p3"))) {
                Step::End(ended) => assert!(matches!(
                    ended.event,
                    Some(AppEvent::PeerViewOpenFinished(finished))
                        if finished.started_target == "w1" && finished.result.is_ok()
                )),
                other => panic!("unexpected: {other:?}"),
            }
        }
        other => panic!("unexpected: {other:?}"),
    }
    let message = |list| match listed(start(), list) {
        Step::End(ended) => match ended.event {
            Some(AppEvent::PeerViewOpenFinished(finished)) => {
                finished.result.expect_err("refused").message
            }
            other => panic!("unexpected: {other:?}"),
        },
        other => panic!("unexpected: {other:?}"),
    };
    assert_eq!(
        message(Ok(Some(Vec::new()))),
        "could not resolve 'w1' on peer 'beta': workspace w1 has no panes"
    );
    assert_eq!(
        message(Ok(None)),
        "could not resolve 'w1' on peer 'beta': peer returned an unexpected pane list result"
    );
    assert_eq!(
        message(Err("reset".to_string())),
        "could not resolve 'w1' on peer 'beta': reset"
    );
    // A pane needs no resolving.
    assert!(matches!(
        begin("req".to_string(), open_work("w1:p1", false)),
        Step::Connect(attach, _) if attach.target == "w1:p1"
    ));
}

#[test]
fn a_forwarded_request_ends_with_its_answer() {
    let start = || {
        let work = PeerWork::Forward {
            connection: connection("w1"),
            method: Method::WorkspaceClose(WorkspaceTarget { workspace_id: "w1".into() }),
            restate: Restate::Workspace { remap_ids: false },
        };
        match begin("caller-42".to_string(), work) {
            Step::Send(_, stage) => stage,
            other => panic!("unexpected: {other:?}"),
        }
    };
    match replied(start(), Ok(json(r#"{"id": "peer:forward", "result": {}}"#)), None) {
        Step::End(ended) => assert_eq!(
            ended.answer,
            Some(Forwarded::Text(r#"{"id":"caller-42","result":{}}"#.to_string()))
        ),
        other => panic!("unexpected: {other:?}"),
    }
    match replied(start(), Err("reset".to_string()), None) {
        Step::End(ended) => assert_eq!(
            ended.answer,
            Some(Forwarded::Refused(ErrorBody::of("unavailable", "peer request failed: reset")))
        ),
        other => panic!("unexpected: {other:?}"),
    }
}

#[test]
fn a_tab_is_found_by_its_pane_and_renamed() {
    let start = || {
        let work = PeerWork::RenameTab { connection: connection("w1:p1"), name: "logs".into() };
        match begin("req".to_string(), work) {
            Step::Send(request, stage) => {
                assert!(matches!(
                    request.request.method,
                    Method::PaneGet(target) if target.pane_id == "w1:p1"
                ));
                stage
            }
            other => panic!("unexpected: {other:?}"),
        }
    };
    let warning = |step| match step {
        Step::End(ended) => ended.warning,
        other => panic!("unexpected: {other:?}"),
    };
    let answer = json(r#"{"result": {"pane": {"tab_id": "w1:t2"}}}"#);
    match replied(start(), Ok(answer), None) {
        Step::Send(request, stage) => {
            assert_eq!(
                request.request.method,
                Method::TabRename(TabRenameParams { tab_id: "w1:t2".into(), label: "logs".into() })
            );
            assert_eq!(
                warning(replied(stage, Err("reset".to_string()), None)).as_deref(),
                Some("peer tab rename failed: reset")
            );
        }
        other => panic!("unexpected: {other:?}"),
    }
    assert_eq!(
        warning(replied(start(), Err("reset".to_string()), None)).as_deref(),
        Some("peer pane lookup failed: reset")
    );
    assert_eq!(
        warning(replied(start(), Ok(json("{}")), None)).as_deref(),
        Some("peer did not name a tab for pane w1:p1")
    );
}

#[test]
fn a_close_goes_where_it_is_routed() {
    let close = |route| PaneClose {
        handle: PeerHandle::new("beta"),
        peer_pane_id: "w1:p1".to_string(),
        expected_instance: None,
        route,
    };
    let request = close_request(&close(Ok(Route {
        api_socket: SOCKET.to_string(),
        instance_id: INSTANCE.to_string(),
    })))
    .expect("a route");
    assert_eq!(request.route.api_socket, SOCKET);
    assert!(matches!(
        request.request.method,
        Method::PaneClose(target) if target.pane_id == "w1:p1"
    ));
    assert_eq!(
        close_request(&close(Err("peer has no transport".to_string()))),
        Err("peer has no transport".to_string())
    );
}

#[test]
fn an_attempt_never_takes_over() {
    let mut app = App::default();
    let handle = connected_peer(&mut app, "beta");
    let terminal_id = open_view(&mut app, &handle, "w1:p1", 7);
    remote_mut(&mut app, &terminal_id).connected = false;
    let done = app.reconcile_remote_terminal_views();
    assert_eq!(
        reattach(&done.attempts[0]),
        Attach {
            api_socket: SOCKET.to_string(),
            peer: "beta".to_string(),
            target: "w1:p1".to_string(),
            size: TerminalSize { rows: 24, cols: 80 },
            takeover: false,
        }
    );
}

#[test]
fn the_cursor_follows_the_views_that_close() {
    let mut app = App::default();
    connected_peer(&mut app, "beta");
    add_local_workspace(&mut app, 1);
    attach(&mut app, "beta", "w1:p1", Some("w1"), 2);
    add_local_workspace(&mut app, 3);
    app.state.active = Some(0);
    app.state.selected = 0;

    let closed = app.close_views_backed_by_peer(&PeerHandle::new("beta"));
    assert_eq!(closed.workspaces.len(), 1);
    assert_eq!(closed.panes, vec![PaneId::from_raw(2)]);
    // Each view is put under the cursor to be closed, and what comes after it is
    // there then.
    assert_eq!((app.state.active, app.state.selected), (Some(0), 1));

    // At the end of the list the cursor steps back.
    attach(&mut app, "beta", "w1:p1", Some("w1"), 4);
    app.state.active = Some(2);
    app.close_views_backed_by_peer(&PeerHandle::new("beta"));
    assert_eq!((app.state.active, app.state.selected), (Some(1), 1));
}

#[test]
fn another_spelling_of_a_directory_relabels_nothing() {
    let mut app = App::default();
    attach(&mut app, "beta", "w1:p1", Some("w1"), 2);
    let beta = PeerHandle::new("beta");
    let pane = |cwd: &str| PaneInfo {
        cwd: Some(cwd.to_string()),
        ..peer_pane_info("w1:p1", "term_1", None, AgentStatus::Idle)
    };
    assert!(app.handle_peer_panes_updated(&beta, &vec![pane("/srv/app")]).redraw);
    assert!(!app.handle_peer_panes_updated(&beta, &vec![pane("/srv//app/")]).redraw);
    assert!(app.handle_peer_panes_updated(&beta, &vec![pane("/srv/other")]).redraw);
}

#[test]
fn every_change_at_the_screen_is_routed_or_handed_back() {
    let mut app = App::default();
    connected_peer(&mut app, "beta");
    attach(&mut app, "beta", "w1:p1", Some("w1"), 2);
    let env = || Ok(Vec::new());
    let theirs = peer_ws_id("w1");

    let routed = [
        app.runtime_workspace_close("a", theirs.clone(), env()),
        app.runtime_workspace_rename(
            "b",
            WorkspaceRenameParams { workspace_id: theirs, label: "new".into() },
            env(),
        ),
        app.runtime_peer_workspace_open(
            "c",
            PeerWorkspaceOpenParams {
                target: "w9:p1".into(),
                name: Some("beta".into()),
                label: None,
                focus: true,
                takeover: false,
            },
            env(),
        ),
    ];
    assert!(routed.iter().all(|change| matches!(change, Dispatched::Peer(_))), "{routed:?}");

    let tab = || "w2:t1".to_string();
    let asked = || "{}".to_string();
    let here = [
        app.runtime_workspace_close("d", "w2".into(), env()),
        app.runtime_pane_close("d", "w2:p1".into(), env()),
        app.runtime_tab_focus("d", tab()),
        app.runtime_tab_close("d", tab()),
        app.runtime_tab_move("d", asked()),
        app.runtime_workspace_move("d", asked()),
        app.runtime_workspace_move_block("d", asked()),
        app.runtime_server_reload_config("d"),
        app.runtime_pane_focus("d", "w2:p1".into()),
        app.runtime_pane_rename("d", asked()),
        app.runtime_pane_input_set("d", asked()),
        app.runtime_pane_focus_direction("d", asked()),
        app.runtime_pane_resize("d", asked()),
        app.runtime_pane_swap("d", asked()),
        app.runtime_pane_zoom("d", asked()),
        app.runtime_layout_set_split_ratio("d", asked()),
    ];
    for change in here {
        assert!(matches!(change, Dispatched::Local(Request { id, .. }) if id == "d"));
    }
    assert_eq!(
        app.runtime_tab_focus("e", tab()),
        Dispatched::Local(Request {
            id: "e".into(),
            method: Method::TabFocus(TabTarget { tab_id: tab() }),
        })
    );
    let remove = || WorktreeRemoveParams { workspace_id: "w2".into(), force: true };
    assert_eq!(
        app.runtime_worktree_remove_deferred("f", remove()),
        Request { id: "f".into(), method: Method::WorktreeRemove(remove()) }
    );
}
