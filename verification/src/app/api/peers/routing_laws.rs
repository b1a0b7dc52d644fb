//! What holds of deciding which peer a request goes to, and what it is asked there.

use vstd::prelude::*;

use crate::api::schema::peers::{PeerTerminalOpenParams, PeerWorkspaceCreateParams};
use crate::api::schema::requests::{
    AgentReadParams, AgentTarget, Method, PaneReadParams, PaneReadRangeParams, PaneTextQueryParams,
    Request,
};
use crate::api::schema::responses::ErrorBody;
use crate::app::api::peers::connection::PeerChanged;
use crate::app::api::peers::forward::{PeerWork, Reply, Restate, Started};
use crate::app::api::peers::open_laws::{answers_on, is_peer};
use crate::app::api::peers::resolve::{ExistingPeerView, PeerConnection};
use crate::app::peer_laws::is_no_peer;
use crate::app::peers::{ConnectionView, PeerConnectionState, PeerHandle, PeerIdentity, SetIdentity};
use crate::app::state::{App, PaneId, PaneKey, Workspace};
use crate::events::{PeerViewPlacement, PeerWorkspaceCreateResult, PeerWorktreeAnswer};
use crate::terminal::{RemoteView, TerminalRuntime};

verus! {

/// The pane at these places is the one that the key names.
pub open spec fn key_is(
    workspaces: Seq<Workspace>,
    at: int,
    tab: int,
    pane: int,
    key: PaneKey,
) -> bool {
    let found = workspaces[at].tabs@[tab].panes@[pane];
    &&& 0 <= at < workspaces.len()
    &&& 0 <= tab < workspaces[at].tabs@.len()
    &&& 0 <= pane < workspaces[at].tabs@[tab].panes@.len()
    &&& match key {
        PaneKey::Terminal(id) => found.state.attached_terminal_id@ == id@,
        PaneKey::Id(id) => found.id == id,
        PaneKey::Public(id) => found.public_id@ == id@,
    }
}

/// A pane is located by its terminal, its id or its public id: in the first
/// workspace that holds it, and nowhere when none does.
pub proof fn law_a_pane_is_located_by_its_key(
    workspaces: &Vec<Workspace>,
    key: &PaneKey,
    r: Option<(usize, PaneId)>,
)
    requires
        call_ensures(crate::app::state::locate_pane, (workspaces, key), r),
    ensures
        r matches Some((at, id)) ==> {
            &&& exists|tab: int, pane: int| #[trigger]
                key_is(workspaces@, at as int, tab, pane, *key)
                    && workspaces@[at as int].tabs@[tab].panes@[pane].id == id
            &&& forall|a: int, tab: int, pane: int|
                a < at ==> !#[trigger] key_is(workspaces@, a, tab, pane, *key)
        },
        r is None ==> forall|a: int, tab: int, pane: int|
            !#[trigger] key_is(workspaces@, a, tab, pane, *key),
{
    let k = key@;
    let has = crate::app::state::workspace_has(k);
    crate::search::lemma_first(workspaces@, has, 0);
    let at = crate::search::first(workspaces@, has, 0);
    assert forall|a: int, tab: int, pane: int| #[trigger]
        key_is(workspaces@, a, tab, pane, *key) implies has(workspaces@[a]) by {
        crate::search::lemma_any(
            workspaces@[a].tabs@[tab].panes@,
            crate::app::state::pane_has(k),
        );
        assert(crate::app::state::pane_has(k)(workspaces@[a].tabs@[tab].panes@[pane]));
        crate::search::lemma_any(workspaces@[a].tabs@, crate::app::state::tab_has(k));
        assert(crate::app::state::tab_has(k)(workspaces@[a].tabs@[tab]));
    }
    if at < workspaces@.len() {
        let tabs = workspaces@[at].tabs@;
        crate::search::lemma_first(tabs, crate::app::state::tab_has(k), 0);
        let tab = crate::search::first(tabs, crate::app::state::tab_has(k), 0);
        crate::search::lemma_first(tabs[tab].panes@, crate::app::state::pane_has(k), 0);
        let pane = crate::search::first(tabs[tab].panes@, crate::app::state::pane_has(k), 0);
        assert(key_is(workspaces@, at, tab, pane, *key));
        assert forall|a: int, t: int, p: int| a < at implies !#[trigger] key_is(
            workspaces@,
            a,
            t,
            p,
            *key,
        ) by {
            if key_is(workspaces@, a, t, p, *key) {
                assert(has(workspaces@[a]));
            }
        }
    }
}

/// The workspace at `at` is the first with this public id.
pub open spec fn is_public(app: App, at: int, id: Seq<char>) -> bool {
    &&& 0 <= at < app.state.workspaces@.len()
    &&& app.state.workspaces@[at].public_id@ == id
    &&& forall|j: int| 0 <= j < at ==> (#[trigger] app.state.workspaces@[j]).public_id@ != id
}

/// A request is routed by what it names: a namespaced id goes to the peer that owns
/// it, a request about peers always does, a tab or a worktree goes where its
/// workspace lives, and a directory is always one of this machine.
pub proof fn law_requests_go_where_they_belong(app: App, request: Request, r: bool, at: int)
    requires
        call_ensures(App::request_targets_peer_workspace, (&app, &request), r),
    ensures
        request.method is PeerWorkspaceCreate ==> r,
        request.method is PeerWorkspaceOpen ==> r,
        request.method is PeerTerminalOpen ==> r,
        request.method matches Method::WorkspaceRename(params) ==> r == (
        crate::app::peers::split_id(params.workspace_id@) is Some),
        request.method matches Method::WorkspaceClose(target) ==> r == (
        crate::app::peers::split_id(target.workspace_id@) is Some),
        request.method matches Method::WorkspaceFocus(target) ==> r == (
        crate::app::peers::split_id(target.workspace_id@) is Some),
        request.method matches Method::TabCreate(params) ==> {
            &&& params.workspace_id matches Some(id) ==> (is_public(app, at, id@) ==> r
                == app.state.workspaces@[at].peer is Some)
            &&& params.workspace_id is None && app.state.active == Some(at as usize) && 0 <= at
                < app.state.workspaces@.len() ==> r == app.state.workspaces@[at].peer is Some
            &&& params.workspace_id is None && app.state.active is None ==> !r
        },
        request.method matches Method::WorktreeList(params) ==> (params.cwd is Some ==> !r),
        request.method matches Method::WorktreeCreate(params) ==> (params.cwd is Some ==> !r),
        request.method matches Method::WorktreeOpen(params) ==> (params.cwd is Some ==> !r),
        request.method matches Method::WorktreeRemove(params) ==> (is_public(
            app,
            at,
            params.workspace_id@,
        ) ==> r == app.state.workspaces@[at].peer is Some),
        request.method matches Method::WorktreeCreate(params) ==> {
            &&& params.cwd is None && params.workspace_id is None && app.state.active == Some(
                at as usize,
            ) && 0 <= at < app.state.workspaces@.len() ==> r
                == app.state.workspaces@[at].peer is Some
            &&& params.cwd is None && params.workspace_id is None && app.state.active is None
                && app.state.selected == at && 0 <= at < app.state.workspaces@.len() ==> r
                == app.state.workspaces@[at].peer is Some
        },
        request.method is PaneSplit ==> !r,
        request.method is PaneRead ==> !r,
        request.method is AgentRead ==> !r,
        request.method is WorkspaceCreate ==> !r,
        request.method is TabRename ==> !r,
{
    assert(app.state.workspaces.len() == app.state.workspaces@.len());
    if request.method is TabCreate {
        let params = request.method->TabCreate_0;
        if params.workspace_id is Some && is_public(app, at, params.workspace_id->0@) {
            crate::search::lemma_first_is(
                app.state.workspaces@,
                crate::app::state::has_public_id(params.workspace_id->0@),
                0,
                at,
            );
        }
    }
    if request.method is WorktreeRemove {
        let id = request.method->WorktreeRemove_0.workspace_id@;
        if is_public(app, at, id) {
            crate::search::lemma_first_is(
                app.state.workspaces@,
                crate::app::state::has_public_id(id),
                0,
                at,
            );
        }
    }
}

/// A target is the peer's that it is asked of by name, or whose namespace it carries;
/// a name and a namespace that disagree are refused, and so is a target that says
/// neither.
pub proof fn law_a_target_belongs_to_one_peer(
    app: App,
    target: &str,
    name: Option<&str>,
    r: Result<(PeerHandle, String), ErrorBody>,
    q: int,
)
    requires
        call_ensures(App::resolve_peer_target, (&app, target, name), r),
    ensures
        name matches Some(name) ==> (crate::app::peers::split_id(target@) is None ==> r is Ok
            && r->Ok_0.0@ == crate::text::trimmed(name@) && r->Ok_0.1@ == target@),
        name is None && crate::app::peers::split_id(target@) is None ==> r is Err && r->Err_0@ == (
            "invalid_request"@,
            "name is required when the target is not namespaced"@,
        ),
        name is None && crate::app::peers::split_id(target@) is Some && r is Ok ==> {
            &&& r->Ok_0.1@ == (crate::app::peers::split_id(target@)->0).1
            &&& exists|j: int|
                0 <= j < app.state.peers@.len() && (#[trigger] app.state.peers@[j]).handle
                    == r->Ok_0.0@ && app.state.peers@[j].identity is Some
                    && app.state.peers@[j].identity->0.instance_id == (crate::app::peers::split_id(
                    target@,
                )->0).0
        },
        name is None && r is Err ==> forall|j: int|
            0 <= j < app.state.peers@.len() && (#[trigger] app.state.peers@[j]).identity is Some
                && crate::app::peers::split_id(target@) is Some
                ==> app.state.peers@[j].identity->0.instance_id != (crate::app::peers::split_id(
                target@,
            )->0).0,
        name matches Some(name) ==> (crate::app::peers::split_id(target@) is Some && is_peer(
            app.state.peers@,
            q,
            crate::text::trimmed(name@),
        ) ==> {
            let belongs = app.state.peers@[q].identity is Some
                && app.state.peers@[q].identity->0.instance_id == (crate::app::peers::split_id(
                target@,
            )->0).0;
            &&& r is Ok == belongs
            &&& r is Ok ==> r->Ok_0.0@ == crate::text::trimmed(name@) && r->Ok_0.1@ == (
            crate::app::peers::split_id(target@)->0).1
            &&& r is Err ==> r->Err_0@.0 == "invalid_request"@
        }),
{
    let peers = app.state.peers@;
    if name is Some {
        let handle = crate::text::trimmed(name->0@);
        if is_peer(peers, q, handle) {
            crate::search::lemma_first_is(peers, crate::app::peers::has_handle(handle), 0, q);
        }
    }
    if crate::app::peers::split_id(target@) is Some {
        let p = crate::app::peers::has_instance_id((crate::app::peers::split_id(target@)->0).0);
        crate::search::lemma_first(peers, p, 0);
        assert forall|j: int|
            0 <= j < peers.len() && (#[trigger] peers[j]).identity is Some
                && crate::search::first(peers, p, 0) >= peers.len() implies peers[j].instance_id()
            != Some((crate::app::peers::split_id(target@)->0).0) by {
            assert(!p(peers[j]));
        }
    }
}

/// A peer that answers is reached on its socket, as the server it is, for the target
/// as it is named there; one that does not answer is refused with the reason.
pub proof fn law_only_a_peer_that_answers_is_reached(
    app: App,
    target: &str,
    name: &str,
    r: Result<PeerConnection, ErrorBody>,
    q: int,
)
    requires
        call_ensures(App::resolve_peer_connection, (&app, target, Some(name)), r),
        crate::app::peers::split_id(target@) is None,
    ensures
        is_no_peer(app.state.peers@, crate::text::trimmed(name@)) ==> r is Err && r->Err_0@ == (
            "not_found"@,
            "no peer named '"@ + crate::text::trimmed(name@) + "'"@,
        ),
        is_peer(app.state.peers@, q, crate::text::trimmed(name@)) ==> {
            let peer = app.state.peers@[q];
            &&& r is Ok == (peer.connection is Connected && peer.api_socket() is Some
                && peer.identity is Some)
            &&& r matches Ok(reached) ==> reached.local_target@ == target@ && answers_on(
                peer,
                reached.api_socket@,
                reached.instance_id@,
            )
            &&& r matches Err(error) ==> error@.0 == "unavailable"@
            &&& peer.connection is Connecting ==> r->Err_0@.1 == "peer '"@ + crate::text::trimmed(
                name@,
            ) + "' is "@ + "connecting"@
            &&& peer.connection is Reconnecting ==> r->Err_0@.1 == "peer '"@
                + crate::text::trimmed(name@) + "' is "@ + "reconnecting"@
            &&& peer.connection is Error ==> r->Err_0@.1 == "peer '"@ + crate::text::trimmed(name@)
                + "' is "@ + "error"@
        },
{
    let peers = app.state.peers@;
    let handle = crate::text::trimmed(name@);
    let p = crate::app::peers::has_handle(handle);
    if is_peer(peers, q, handle) {
        crate::search::lemma_first_is(peers, p, 0, q);
    }
    if is_no_peer(peers, handle) {
        crate::search::lemma_first_is(peers, p, 0, peers.len() as int);
    }
}

/// The entry runs a view onto this target of this peer.
pub open spec fn views(view: RemoteView, peer: Seq<char>, target: Seq<char>) -> bool {
    view.peer@ == peer && view.target@ == target
}

/// The entry runs a view onto this workspace of this peer, or onto something in it.
pub open spec fn views_within(view: RemoteView, peer: Seq<char>, workspace: Seq<char>) -> bool {
    &&& view.peer@ == peer
    &&& view.target@ == workspace || (view.target@.len() > workspace.len() && view.target@.take(
        workspace.len() as int,
    ) == workspace && view.target@[workspace.len() as int] == ':')
}

/// What is viewed already is found: a pane by its own id, a workspace by anything in
/// it, and only in the views of that peer.
pub proof fn law_what_is_viewed_is_found(
    app: App,
    peer: &str,
    target: &str,
    whole: bool,
    r: Option<ExistingPeerView>,
)
    requires
        call_ensures(App::peer_view_already_open, (&app, peer, target, whole), r),
    ensures
        r is None ==> forall|i: int|
            0 <= i < app.terminal_runtimes@.len() ==> ((
            #[trigger] app.terminal_runtimes@[i]).runtime matches TerminalRuntime::Remote(view)
                ==> !views(view, peer@, target@)),
        r is None && whole ==> forall|i: int|
            0 <= i < app.terminal_runtimes@.len() ==> ((
            #[trigger] app.terminal_runtimes@[i]).runtime matches TerminalRuntime::Remote(view)
                ==> !views_within(view, peer@, target@)),
        r is Some ==> exists|i: int|
            0 <= i < app.terminal_runtimes@.len() && is_found(
                #[trigger] app.terminal_runtimes@[i],
                peer@,
                target@,
                whole,
                r->0,
            ),
{
    let p = if whole {
        super::resolve::views_workspace(peer@, target@)
    } else {
        super::resolve::views_target(peer@, target@)
    };
    let entries = app.terminal_runtimes@;
    crate::search::lemma_first(entries, p, 0);
    let at = crate::search::first(entries, p, 0);
    reveal_strlit(":");
    assert(":"@ =~= seq![':']);
    assert forall|view: RemoteView| views_within(view, peer@, target@) == (view.peer@ == peer@ && (
    view.target@ == target@ || #[trigger] crate::text::has_prefix(
        view.target@,
        target@ + ":"@,
    ))) by {
        let long = target@ + ":"@;
        if crate::text::has_prefix(view.target@, long) {
            assert(view.target@.take(target@.len() as int) =~= target@) by {
                assert(view.target@.take(long.len() as int).take(target@.len() as int)
                    =~= view.target@.take(target@.len() as int));
                assert(long.take(target@.len() as int) =~= target@);
            }
            assert(long[target@.len() as int] == ':');
            assert(view.target@.take(long.len() as int)[target@.len() as int] == ':');
        }
        if view.target@.len() > target@.len() && view.target@.take(target@.len() as int) == target@
            && view.target@[target@.len() as int] == ':' {
            assert(view.target@.take(long.len() as int) =~= long) by {
                assert forall|k: int| 0 <= k < target@.len() implies view.target@[k]
                    == target@[k] by {
                    assert(view.target@.take(target@.len() as int)[k] == target@[k]);
                }
            }
        }
    }
    if at < entries.len() {
        assert(p(entries[at]));
        assert(is_found(entries[at], peer@, target@, whole, r->0));
    } else {
        assert forall|i: int| 0 <= i < entries.len() implies !p(#[trigger] entries[i]) by {}
        assert forall|i: int| 0 <= i < entries.len() implies ((
        #[trigger] entries[i]).runtime matches TerminalRuntime::Remote(view) ==> !views(
            view,
            peer@,
            target@,
        )) by {
            assert(!p(entries[i]));
        }
        if whole {
            assert forall|i: int| 0 <= i < entries.len() implies ((
            #[trigger] entries[i]).runtime matches TerminalRuntime::Remote(view) ==> !views_within(
                view,
                peer@,
                target@,
            )) by {
                assert(!p(entries[i]));
                if entries[i].runtime is Remote {
                    assert(views_within(entries[i].runtime->Remote_0, peer@, target@)
                        == (entries[i].runtime->Remote_0.peer@ == peer@ && (
                    entries[i].runtime->Remote_0.target@ == target@ || crate::text::has_prefix(
                        entries[i].runtime->Remote_0.target@,
                        target@ + ":"@,
                    ))));
                }
            }
        }
    }
}

/// The view that was found is the one this entry runs.
pub open spec fn is_found(
    entry: crate::app::state::RuntimeEntry,
    peer: Seq<char>,
    target: Seq<char>,
    whole: bool,
    found: ExistingPeerView,
) -> bool {
    &&& entry.runtime matches TerminalRuntime::Remote(view)
    &&& whole ==> views_within(view, peer, target)
    &&& !whole ==> views(view, peer, target)
    &&& match found {
        ExistingPeerView::InWorkspace { terminal_id, .. } => terminal_id == entry.terminal_id,
        ExistingPeerView::Bare { terminal_id } => terminal_id == entry.terminal_id,
    }
}

/// A view that is attached to another server than the one its peer is now is stale,
/// and no other is.
pub proof fn law_a_view_of_a_replaced_server_is_stale(
    app: App,
    ws_idx: usize,
    pane: PaneId,
    r: Option<ErrorBody>,
    q: int,
)
    requires
        call_ensures(App::peer_pane_server_mismatch, (&app, ws_idx, pane), r),
    ensures
        crate::app::state::remote_of_pane(app, ws_idx as int, pane) is None ==> r is None,
        crate::app::state::remote_of_pane(app, ws_idx as int, pane) matches Some(view) ==> (is_peer(
            app.state.peers@,
            q,
            view.peer@,
        ) ==> (r is Some == (app.state.peers@[q].identity is Some && view.instance is Some
            && view.instance->0@ != app.state.peers@[q].identity->0.instance_id))),
        r matches Some(error) ==> error@.0 == "unavailable"@,
{
    if crate::app::state::remote_of_pane(app, ws_idx as int, pane) is Some {
        let view = crate::app::state::remote_of_pane(app, ws_idx as int, pane)->0;
        if is_peer(app.state.peers@, q, view.peer@) {
            crate::search::lemma_first_is(
                app.state.peers@,
                crate::app::peers::has_handle(view.peer@),
                0,
                q,
            );
        }
    }
}

/// A pane's peer is that of its workspace, and its target that of the view it shows.
pub proof fn law_a_pane_is_the_peers_it_views(
    app: App,
    ws_idx: usize,
    pane: PaneId,
    r: Option<(PeerHandle, String)>,
)
    requires
        call_ensures(App::peer_pane_source, (&app, ws_idx, pane), r),
        ws_idx < app.state.workspaces@.len(),
    ensures
        r is Some == (app.state.workspaces@[ws_idx as int].peer is Some
            && crate::app::state::remote_of_pane(app, ws_idx as int, pane) is Some),
        r matches Some((handle, target)) ==> handle@
            == app.state.workspaces@[ws_idx as int].peer->0@ && target@
            == crate::app::state::remote_of_pane(app, ws_idx as int, pane)->0.target@,
{
}

/// A screen is read, a range of it, or a text looked for in it, by asking the peer for
/// the pane that is viewed, with the same options; and the answer is told in this
/// server's ids.
pub proof fn law_reads_are_asked_of_the_viewed_pane(
    app: App,
    read: PaneReadParams,
    range: PaneReadRangeParams,
    query: PaneTextQueryParams,
    reading: Started,
    ranging: Started,
    querying: Started,
)
    requires
        call_ensures(App::start_peer_pane_read, (&app, read), reading),
        call_ensures(App::start_peer_pane_read_range, (&app, range), ranging),
        call_ensures(App::start_peer_pane_text_query, (&app, query), querying),
    ensures
        reading matches Started::Deferred(work) ==> {
            &&& work matches PeerWork::Forward {
                connection,
                method: Method::PaneRead(sent),
                restate: Restate::Read(ids),
            }
            &&& sent.pane_id@ == connection.local_target@
            &&& sent.options@ == read.options@
        },
        ranging matches Started::Deferred(work) ==> {
            &&& work matches PeerWork::Forward {
                connection,
                method: Method::PaneReadRange(sent),
                restate: Restate::Pane { field, .. },
            }
            &&& sent.pane_id@ == connection.local_target@
            &&& sent.options == range.options
            &&& field@ == "read"@
        },
        querying matches Started::Deferred(work) ==> {
            &&& work matches PeerWork::Forward {
                connection,
                method: Method::PaneTextQuery(sent),
                restate: Restate::Pane { field, .. },
            }
            &&& sent.pane_id@ == connection.local_target@
            &&& sent.options == query.options
            &&& field@ == "query"@
        },
        reading matches Started::Answered(reply) ==> reply is Error,
        ranging matches Started::Answered(reply) ==> reply is Error,
        querying matches Started::Answered(reply) ==> reply is Error,
{
}

/// The pane with this public id is here, and views a pane of a peer that answers.
pub open spec fn is_viewed_pane(
    app: App,
    at: int,
    pane: PaneId,
    public_id: Seq<char>,
    view: RemoteView,
    q: int,
    socket: Seq<char>,
    instance_id: Seq<char>,
) -> bool {
    &&& crate::app::state::located(
        app.state.workspaces@,
        crate::app::state::PaneKeyView::Public(public_id),
    ) == Some((at, pane))
    &&& 0 <= at < app.state.workspaces@.len()
    &&& app.state.workspaces@[at].peer is Some
    &&& app.state.workspaces@[at].peer->0@ == view.peer@
    &&& crate::app::state::remote_of_pane(app, at, pane) == Some(view)
    &&& is_peer(app.state.peers@, q, view.peer@)
    &&& answers_on(app.state.peers@[q], socket, instance_id)
    &&& crate::app::peers::split_id(view.target@) is None
    &&& crate::text::trimmed(view.peer@) == view.peer@
    &&& view.instance is Some ==> view.instance->0@ == instance_id
}

/// A viewed pane of a peer that answers is read by asking that peer.
pub proof fn law_a_viewed_pane_is_read_at_its_peer(
    app: App,
    read: PaneReadParams,
    range: PaneReadRangeParams,
    query: PaneTextQueryParams,
    reading: Started,
    ranging: Started,
    querying: Started,
    at: int,
    pane: PaneId,
    view: RemoteView,
    q: int,
    socket: Seq<char>,
    instance_id: Seq<char>,
)
    requires
        call_ensures(App::start_peer_pane_read, (&app, read), reading),
        call_ensures(App::start_peer_pane_read_range, (&app, range), ranging),
        call_ensures(App::start_peer_pane_text_query, (&app, query), querying),
        range.pane_id@ == read.pane_id@,
        query.pane_id@ == read.pane_id@,
        is_viewed_pane(app, at, pane, read.pane_id@, view, q, socket, instance_id),
    ensures
        asks_peer(reading, socket, instance_id, view.target@),
        asks_peer(ranging, socket, instance_id, view.target@),
        asks_peer(querying, socket, instance_id, view.target@),
{
    crate::search::lemma_first_is(
        app.state.peers@,
        crate::app::peers::has_handle(view.peer@),
        0,
        q,
    );
}

/// The server behind this socket is asked for its own target.
pub open spec fn asks_peer(
    started: Started,
    socket: Seq<char>,
    instance_id: Seq<char>,
    target: Seq<char>,
) -> bool {
    &&& started matches Started::Deferred(PeerWork::Forward { connection, .. })
    &&& connection.api_socket@ == socket
    &&& connection.instance_id@ == instance_id
    &&& connection.local_target@ == target
}

/// An agent is read and explained as the pane it runs in; an agent that nobody knows
/// is not found.
pub proof fn law_agents_are_asked_by_their_pane(
    app: App,
    read: AgentReadParams,
    explain: AgentTarget,
    reading: Started,
    explaining: Started,
)
    requires
        call_ensures(App::start_peer_agent_read, (&app, read), reading),
        call_ensures(App::start_peer_agent_explain, (&app, explain), explaining),
    ensures
        (forall|j: int|
            0 <= j < app.state.agents@.len() ==> (#[trigger] app.state.agents@[j]).name@
                != read.target@) ==> reading == Started::Answered(
            Reply::AgentNotFound { target: read.target },
        ),
        (forall|j: int|
            0 <= j < app.state.agents@.len() ==> (#[trigger] app.state.agents@[j]).name@
                != explain.target@) ==> explaining == Started::Answered(
            Reply::AgentNotFound { target: explain.target },
        ),
        reading matches Started::Deferred(work) ==> {
            &&& work matches PeerWork::Forward {
                connection,
                method: Method::PaneRead(sent),
                restate: Restate::Read(_),
            }
            &&& sent.pane_id@ == connection.local_target@
            &&& sent.options@ == read.options@
        },
        explaining matches Started::Deferred(work) ==> {
            &&& work matches PeerWork::Forward {
                connection,
                method: Method::AgentExplain(sent),
                restate: Restate::Explain { peer, peer_pane_id },
            }
            &&& sent.target@ == connection.local_target@
            &&& peer_pane_id@ == connection.local_target@
        },
{
    crate::search::lemma_first(
        app.state.agents@,
        crate::app::state::agent_named(read.target@),
        0,
    );
    crate::search::lemma_first(
        app.state.agents@,
        crate::app::state::agent_named(explain.target@),
        0,
    );
}

/// A request about a pane is done by its own kind of work, and one that is not about
/// a pane is refused.
pub proof fn law_pane_requests_are_done_by_their_kind(
    app: App,
    method: Method,
    launch_env: Result<Vec<(String, String)>, ErrorBody>,
    owner: Option<String>,
    r: Started,
)
    requires
        call_ensures(
            App::handle_deferred_peer_pane_api_request,
            (&app, method, launch_env, owner),
            r,
        ),
    ensures
        r matches Started::Deferred(work) ==> {
            &&& method is PaneSplit || method is PaneRead || method is PaneReadRange
                || method is PaneTextQuery || method is AgentRead || method is AgentExplain
            &&& method is PaneSplit == work is SplitPane
            &&& method is PaneRead || method is AgentRead ==> work is Forward
                && work->Forward_method is PaneRead
            &&& method is PaneReadRange ==> work is Forward && work->Forward_method is PaneReadRange
            &&& method is PaneTextQuery ==> work is Forward && work->Forward_method is PaneTextQuery
            &&& method is AgentExplain ==> work is Forward && work->Forward_method is AgentExplain
        },
        method is TabCreate || method is WorkspaceRename || method is PeerWorkspaceOpen ==> {
            &&& r matches Started::Answered(Reply::Error(error))
            &&& error@ == ("invalid_request"@, "request does not target a peer pane"@)
        },
{
}

/// The workspace that is asked for is made by the peer with this name, where it
/// answers; what is shown of it is decided here alone.
pub proof fn law_a_workspace_is_made_by_its_peer(
    app: App,
    params: PeerWorkspaceCreateParams,
    r: Started,
    q: int,
)
    requires
        call_ensures(App::start_peer_workspace_create, (&app, params), r),
    ensures
        is_no_peer(app.state.peers@, crate::text::trimmed(params.name@)) ==> {
            &&& r matches Started::Answered(Reply::Error(error))
            &&& error@.0 == "not_found"@
        },
        is_peer(app.state.peers@, q, crate::text::trimmed(params.name@)) ==> {
            let peer = app.state.peers@[q];
            &&& r is Deferred == (peer.connection is Connected && peer.api_socket() is Some
                && peer.identity is Some)
            &&& r matches Started::Answered(reply) ==> reply is Error && reply->Error_0@.0
                == "unavailable"@
            &&& r matches Started::Deferred(work) ==> made_as_asked(work, peer, params)
        },
{
    let peers = app.state.peers@;
    let name = crate::text::trimmed(params.name@);
    let p = crate::app::peers::has_handle(name);
    if is_peer(peers, q, name) {
        crate::search::lemma_first_is(peers, p, 0, q);
    }
    if is_no_peer(peers, name) {
        crate::search::lemma_first_is(peers, p, 0, peers.len() as int);
    }
}

/// The work makes the workspace that was asked for, on this peer.
pub open spec fn made_as_asked(
    work: PeerWork,
    peer: crate::app::peers::PeerView,
    params: PeerWorkspaceCreateParams,
) -> bool {
    &&& work matches PeerWork::CreateWorkspace {
        api_socket,
        instance_id,
        handle,
        method: Method::WorkspaceCreate(sent),
        label,
        focus,
    }
    &&& answers_on(peer, api_socket@, instance_id@)
    &&& handle@ == crate::text::trimmed(params.name@)
    &&& label == params.label
    &&& focus == params.focus
    &&& sent.cwd == params.cwd
    &&& !sent.focus
    &&& sent.label is None
    &&& sent.env@.len() == 0
}

/// A workspace that a peer made is opened as one that was made: under its own name,
/// focused as asked, taking nothing over.
pub proof fn law_a_made_workspace_is_opened(finished: PeerWorkspaceCreateResult)
    ensures
        forall|app: &mut App, r: Started| #[trigger]
            call_ensures(App::handle_peer_workspace_create_finished, (app, finished), r) ==> {
                &&& finished.result matches Err(error) ==> r == Started::Answered(
                    Reply::Error(error),
                ) && *final(app) == *app
                &&& finished.result matches Ok(pane) ==> opened_as_made(
                    r,
                    pane@,
                    finished.handle@,
                    finished.label,
                    finished.focus,
                    None,
                )
            },
{
}

/// What is opened, where it is opened, is what was made.
pub open spec fn opened_as_made(
    r: Started,
    target: Seq<char>,
    peer: Seq<char>,
    wanted: Option<String>,
    shown: bool,
    answer: Option<PeerWorktreeAnswer>,
) -> bool {
    r matches Started::Deferred(work) ==> {
        &&& work matches PeerWork::OpenView {
            handle,
            requested_target,
            takeover,
            placement: PeerViewPlacement::Workspace { label, created, focus, worktree, .. },
            ..
        }
        &&& handle@ == crate::text::trimmed(peer)
        &&& requested_target@ == target
        &&& !takeover
        &&& label == wanted
        &&& created
        &&& focus == shown
        &&& worktree == answer
    }
}

/// What a peer made is opened as such, whoever asks.
pub proof fn law_made_views_are_opened_as_made(
    target: String,
    name: &str,
    label: Option<String>,
    focus: bool,
    worktree: Option<PeerWorktreeAnswer>,
)
    ensures
        forall|app: &mut App, r: Started| #[trigger]
            call_ensures(
                App::start_peer_created_open,
                (app, target, name, label, focus, worktree),
                r,
            ) ==> opened_as_made(r, target@, name@, label, focus, worktree),
{
}

/// A terminal is opened at the size that was asked for, and never at none; without a
/// workspace of its own, and taken over as asked.
pub proof fn law_a_terminal_is_opened_at_its_size(params: PeerTerminalOpenParams)
    ensures
        forall|app: &mut App, r: Started| #[trigger]
            call_ensures(App::start_peer_terminal_open, (app, params), r) ==> {
                &&& (*final(app)).state == (*app).state
                &&& (*final(app)).terminal_runtimes == (*app).terminal_runtimes
                &&& r matches Started::Deferred(work) ==> terminal_as_asked(work, params)
                &&& r matches Started::Answered(reply) ==> {
                    &&& reply is Error || reply is PeerTerminal
                    &&& *final(app) == *app
                }
            },
{
}

/// The work opens the terminal that was asked for.
pub open spec fn terminal_as_asked(work: PeerWork, params: PeerTerminalOpenParams) -> bool {
    &&& work matches PeerWork::OpenView {
        requested_target,
        resolve_workspace,
        size,
        takeover,
        placement: PeerViewPlacement::Terminal { target },
        ..
    }
    &&& requested_target@ == params.target@
    &&& target == params.target
    &&& !resolve_workspace
    &&& takeover == params.takeover
    &&& params.cols > 0 ==> size.cols == params.cols
    &&& params.rows > 0 ==> size.rows == params.rows
    &&& params.cols == 0 ==> size.cols == 1
    &&& params.rows == 0 ==> size.rows == 1
}

/// A request about a workspace is done by its own kind of work: a rename and a close
/// are handed on under the peer's id, and a rename's answer is told in namespaced ids.
/// One that is not about a workspace is refused.
pub proof fn law_workspace_requests_are_done_by_their_kind(
    method: Method,
    launch_env: Result<Vec<(String, String)>, ErrorBody>,
)
    ensures
        forall|app: &mut App, r: Started| #[trigger]
            call_ensures(
                App::handle_deferred_peer_workspace_api_request,
                (app, method, launch_env),
                r,
            ) ==> {
                &&& r matches Started::Deferred(work) ==> done_by_kind(method, work)
                &&& method is PaneRead || method is PaneSplit || method is AgentRead ==> r
                    is Answered && r->Answered_0 is Error && r->Answered_0->Error_0@ == (
                    "invalid_request"@,
                    "request does not target a peer workspace"@,
                )
                &&& !(method is PeerWorkspaceOpen || method is PeerTerminalOpen
                    || method is WorkspaceFocus) ==> *final(app) == *app
            },
{
}

/// The work is of the kind that the method asks for.
pub open spec fn done_by_kind(method: Method, work: PeerWork) -> bool {
    match method {
        Method::PeerWorkspaceCreate(params) => {
            &&& work matches PeerWork::CreateWorkspace { label, focus, .. }
            &&& label == params.label
            &&& focus == params.focus
        },
        Method::TabCreate(params) => {
            &&& work matches PeerWork::CreateTab { label, focus, .. }
            &&& label == params.label
            &&& focus == params.focus
        },
        Method::PeerWorkspaceOpen(params) => {
            &&& work matches PeerWork::OpenView {
                requested_target,
                takeover,
                placement: PeerViewPlacement::Workspace {
                    label,
                    created,
                    focus,
                    worktree,
                    ..
                },
                ..
            }
            &&& requested_target@ == params.target@
            &&& takeover == params.takeover
            &&& label == params.label
            &&& focus == params.focus
            &&& !created
            &&& worktree is None
        },
        Method::PeerTerminalOpen(params) => terminal_as_asked(work, params),
        Method::WorkspaceFocus(target) => {
            &&& work matches PeerWork::OpenView {
                requested_target,
                takeover,
                placement: PeerViewPlacement::Workspace { focus, created, .. },
                ..
            }
            &&& requested_target@ == target.workspace_id@
            &&& focus
            &&& !takeover
            &&& !created
        },
        Method::WorktreeList(_) => work is Forward && work->Forward_method is WorktreeList,
        Method::WorktreeCreate(_) => work is WorktreeView && !work->WorktreeView_opened
            && work->WorktreeView_method is WorktreeCreate,
        Method::WorktreeOpen(_) => work is WorktreeView && work->WorktreeView_opened
            && work->WorktreeView_method is WorktreeOpen,
        Method::WorktreeRemove(_) => work is WorktreeRemove,
        Method::WorkspaceRename(params) => {
            &&& work matches PeerWork::Forward {
                connection,
                method: Method::WorkspaceRename(sent),
                restate: Restate::Workspace { remap_ids },
            }
            &&& remap_ids
            &&& sent.workspace_id@ == connection.local_target@
            &&& sent.label == params.label
        },
        Method::WorkspaceClose(_) => {
            &&& work matches PeerWork::Forward {
                connection,
                method: Method::WorkspaceClose(sent),
                restate: Restate::Workspace { remap_ids },
            }
            &&& !remap_ids
            &&& sent.workspace_id@ == connection.local_target@
        },
        _ => false,
    }
}

/// A tab of a view is renamed on its peer too, by its first pane, to the same name; a
/// tab of this server is not.
pub proof fn law_a_viewed_tab_is_renamed_on_its_peer(
    app: App,
    ws_idx: usize,
    tab_idx: usize,
    label: &str,
    r: Option<PeerWork>,
)
    requires
        call_ensures(App::forward_tab_rename_to_peer, (&app, ws_idx, tab_idx, label), r),
        ws_idx < app.state.workspaces@.len(),
    ensures
        app.state.workspaces@[ws_idx as int].peer is None ==> r is None,
        r matches Some(work) ==> {
            &&& work matches PeerWork::RenameTab { connection, name }
            &&& name@ == label@
            &&& exists|q: int|
                #![trigger app.state.peers@[q]]
                is_peer(
                    app.state.peers@,
                    q,
                    crate::text::trimmed(app.state.workspaces@[ws_idx as int].peer->0@),
                ) && answers_on(
                    app.state.peers@[q],
                    connection.api_socket@,
                    connection.instance_id@,
                )
        },
{
    if r is Some {
        let workspace = app.state.workspaces@[ws_idx as int];
        let view = crate::app::state::remote_of_pane(
            app,
            ws_idx as int,
            workspace.tabs@[tab_idx as int].panes@[0].id,
        )->0;
        super::open_laws::lemma_reach(app.state.peers@, view.target@, workspace.peer->0@);
    }
}

/// What is heard of a peer's connection is recorded: its state and its identity. A
/// peer that turns out to be a server that another peer already is, is in error, and
/// says which; and only a peer that has just come back has its leaks undone.
pub open spec fn change_lands(
    before: App,
    after: App,
    r: PeerChanged,
    handle: Seq<char>,
    connection: ConnectionView,
    identity: Option<PeerIdentity>,
    q: int,
) -> bool {
    let was = before.state.peers@[q];
    let now = after.state.peers@[q];
    &&& after.state.peers@.len() == before.state.peers@.len()
    &&& now.handle == was.handle
    &&& now.target == was.target
    &&& r.identified is Some == identity is Some
    &&& r.identified matches Some(SetIdentity::Duplicate { held_by }) ==> {
        &&& now.connection == (ConnectionView::Error {
            message: "same server as peer '"@ + held_by@ + "'"@,
        })
        &&& now.identity == was.identity
        &&& r.closes@.len() == 0
    }
    &&& !(r.identified matches Some(SetIdentity::Duplicate { .. })) ==> {
        &&& now.connection == connection
        &&& r.moved == (was.connection != connection)
        &&& identity matches Some(identity) ==> now.identity == Some(identity@)
        &&& identity is None ==> now.identity == was.identity
    }
    &&& !(r.moved && connection is Connected) ==> r.closes@.len() == 0
    &&& after.state.workspaces == before.state.workspaces
    &&& after.state.active == before.state.active
}

/// What is heard of a connection is recorded as [`change_lands`] says.
pub proof fn law_what_is_heard_of_a_peer_is_recorded(
    handle: &PeerHandle,
    connection: PeerConnectionState,
    identity: Option<PeerIdentity>,
    q: int,
)
    ensures
        forall|app: &mut App, r: PeerChanged| #[trigger]
            call_ensures(
                App::handle_peer_connection_changed,
                (app, handle, connection, identity),
                r,
            ) && is_peer((*app).state.peers@, q, handle@) ==> change_lands(
                *app,
                *final(app),
                r,
                handle@,
                connection@,
                identity,
                q,
            ),
{
    assert forall|app: &mut App, r: PeerChanged| #[trigger]
        call_ensures(
            App::handle_peer_connection_changed,
            (app, handle, connection, identity),
            r,
        ) && is_peer((*app).state.peers@, q, handle@) implies change_lands(
        *app,
        *final(app),
        r,
        handle@,
        connection@,
        identity,
        q,
    ) by {
        lemma_change_lands(*app, *final(app), r, handle@, connection@, identity, q);
    }
}

proof fn lemma_position(peers: Seq<crate::app::peers::PeerView>, q: int, handle: Seq<char>)
    requires
        is_peer(peers, q, handle),
    ensures
        crate::app::peers::position(peers, handle) == q,
{
    crate::search::lemma_first_is(peers, crate::app::peers::has_handle(handle), 0, q);
}

proof fn lemma_change_lands(
    before: App,
    after: App,
    r: PeerChanged,
    handle: Seq<char>,
    connection: ConnectionView,
    identity: Option<PeerIdentity>,
    q: int,
)
    requires
        super::connection::changes_peer(
            before,
            after,
            r,
            handle,
            connection,
            super::connection::reported(identity),
        ),
        is_peer(before.state.peers@, q, handle),
    ensures
        change_lands(before, after, r, handle, connection, identity, q),
{
    let told = super::connection::reported(identity);
    let known = choose|known: App| #[trigger]
        super::connection::hears(before, known, r.identified, handle, told)
            && super::connection::settles(known, after, r, handle, connection);
    lemma_position(before.state.peers@, q, handle);
    if identity is Some {
        let p = crate::app::peers::other_has_instance(handle, identity->0.instance_id@);
        crate::search::lemma_first(before.state.peers@, p, 0);
    }
    assert(is_peer(known.state.peers@, q, handle)) by {
        assert forall|j: int| 0 <= j < q implies (#[trigger] known.state.peers@[j]).handle
            != handle by {
            assert(before.state.peers@[j].handle != handle);
        }
    }
    lemma_position(known.state.peers@, q, handle);
    if !(r.identified matches Some(SetIdentity::Duplicate { .. })) {
        let there = choose|there: App| #[trigger]
            super::connection::moves(known, there, r.moved, handle, connection)
                && super::connection::follows(there, after, r, handle, connection);
        assert(is_peer(there.state.peers@, q, handle)) by {
            assert forall|j: int| 0 <= j < q implies (#[trigger] there.state.peers@[j]).handle
                != handle by {
                assert(known.state.peers@[j].handle != handle);
            }
        }
        lemma_position(there.state.peers@, q, handle);
        if r.moved && connection is Connected {
            let awake = choose|awake: App| #[trigger]
                super::connection::wakes(there, awake, handle)
                    && super::lifecycle::takes_cleanups(awake, after, r.closes@, handle);
            assert(awake.state.peers@ == there.state.peers@);
        }
    }
}

} // verus!
