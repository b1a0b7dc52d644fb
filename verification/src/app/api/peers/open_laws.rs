//! What holds of opening, splitting and showing what a peer owns.

use vstd::prelude::*;

use crate::api::schema::peers::PeerWorkspaceOpenParams;
use crate::api::schema::requests::{
    Direction, Method, PaneSplitParams, SplitDirection, TabCreateParams, WorkspaceTarget,
};
use crate::api::schema::responses::ErrorBody;
use crate::app::api::announce::Announcement;
use crate::app::api::peers::forward::{PeerWork, Reply, Started};
use crate::app::api::peers::lifecycle::Placed;
use crate::app::layout::{FreshPane, FreshTab, FreshWorkspace};
use crate::app::peers::{PeerView, TargetView};
use crate::app::state::{App, Mode, PaneId};
use crate::events::{
    PeerPaneSplitResult, PeerTabCreateResult, PeerViewOpenResult, PeerViewPlacement,
    PeerWorktreeAnswer,
};
use crate::pane::state::PaneKind;
use crate::terminal::{RemoteView, TerminalRuntime};

verus! {

/// The workspace at this position is the one that is shown, and the one the
/// sidebar's cursor is on.
pub open spec fn is_shown(app: App, at: usize) -> bool {
    app.state.active == Some(at) && app.state.selected == at
}

/// What is shown, and where the cursor is, stayed.
pub open spec fn shows_the_same(before: App, after: App) -> bool {
    after.state.active == before.state.active && after.state.selected == before.state.selected
}

/// The peer at `q` is the one with this handle.
pub open spec fn is_peer(peers: Seq<PeerView>, q: int, handle: Seq<char>) -> bool {
    &&& 0 <= q < peers.len()
    &&& peers[q].handle == handle
    &&& forall|j: int| 0 <= j < q ==> (#[trigger] peers[j]).handle != handle
}

/// The peer is connected, and this is the socket it answers on and the server that
/// answers: its own socket, or the one its bridge came up on.
pub open spec fn answers_on(peer: PeerView, socket: Seq<char>, instance_id: Seq<char>) -> bool {
    &&& peer.connection is Connected
    &&& peer.identity is Some
    &&& peer.identity->0.instance_id == instance_id
    &&& match peer.target {
        TargetView::SocketPath(path) => path == socket,
        TargetView::Ssh { .. } => peer.transport_socket == Some(socket),
    }
}

/// Switching to a workspace shows it and puts the cursor on it, and changes nothing
/// else.
pub proof fn law_switching_shows_the_workspace(at: usize)
    ensures
        forall|app: &mut App| #[trigger]
            call_ensures(App::switch_workspace, (app, at), ()) ==> {
                &&& is_shown(*final(app), at)
                &&& (*final(app)).state.workspaces == (*app).state.workspaces
                &&& (*final(app)).state.peers == (*app).state.peers
                &&& (*final(app)).state.mode == (*app).state.mode
                &&& (*final(app)).terminal_runtimes == (*app).terminal_runtimes
                &&& (*final(app)).peer_view_opens_in_flight == (*app).peer_view_opens_in_flight
            },
{
}

/// An open that is answered with a workspace shows that workspace when it was to be
/// focused, and shows what was shown before when it was not.
pub proof fn law_a_focused_open_is_shown(
    target: String,
    name: Option<&str>,
    label: Option<String>,
    focus: bool,
    takeover: bool,
    worktree: Option<PeerWorktreeAnswer>,
    params: PeerWorkspaceOpenParams,
)
    ensures
        forall|app: &mut App, r: Started| #[trigger]
            call_ensures(
                App::start_peer_workspace_open,
                (app, target, name, label, focus, takeover, worktree),
                r,
            ) ==> {
                &&& r matches Started::Answered(Reply::Workspace { ws_idx }) ==> if focus {
                    is_shown(*final(app), ws_idx)
                } else {
                    shows_the_same(*app, *final(app))
                }
                &&& (r is Deferred ==> shows_the_same(*app, *final(app)))
            },
        forall|app: &mut App, r: Started| #[trigger]
            call_ensures(App::handle_deferred_peer_workspace_open, (app, params), r) ==> (
            r matches Started::Answered(Reply::Workspace { ws_idx }) ==> if params.focus {
                is_shown(*final(app), ws_idx)
            } else {
                shows_the_same(*app, *final(app))
            }),
{
}

/// Focusing a peer's workspace that is viewed already shows the view, and one that
/// is not is opened to be shown.
pub proof fn law_focusing_a_peers_workspace_shows_its_view(
    target: WorkspaceTarget,
    launch_env: Result<Vec<(String, String)>, ErrorBody>,
)
    ensures
        forall|app: &mut App, r: Started| #[trigger]
            call_ensures(
                App::handle_deferred_peer_workspace_api_request,
                (app, Method::WorkspaceFocus(target), launch_env),
                r,
            ) ==> {
                &&& r matches Started::Answered(Reply::Workspace { ws_idx }) ==> is_shown(
                    *final(app),
                    ws_idx,
                )
                &&& r matches Started::Deferred(work) ==> {
                    &&& work matches PeerWork::OpenView { placement, takeover, .. }
                    &&& !takeover
                    &&& placement matches PeerViewPlacement::Workspace { focus, label, .. }
                    &&& focus
                    &&& label is None
                }
            },
{
}

/// A view that is held already is found: opening the very pane that a workspace
/// here views is answered with that workspace, whatever state the peer is in.
pub proof fn law_a_viewed_pane_is_handed_back(
    target: String,
    name: &str,
    focus: bool,
    takeover: bool,
    at: int,
    tab: int,
    pane: int,
    run: int,
    view: RemoteView,
)
    ensures
        forall|app: &mut App, r: Started| #[trigger]
            call_ensures(
                App::start_peer_workspace_open,
                (app, target, Some(name), None, focus, takeover, None),
                r,
            ) && {
                let workspaces = (*app).state.workspaces@;
                let runtimes = (*app).terminal_runtimes@;
                &&& 0 <= at < workspaces.len() && 0 <= tab < workspaces[at].tabs@.len() && 0 <= pane
                    < workspaces[at].tabs@[tab].panes@.len()
                &&& 0 <= run < runtimes.len()
                &&& runtimes[run].runtime == TerminalRuntime::Remote(view)
                &&& view.peer@ == name@
                &&& view.target@ == target@
                &&& workspaces[at].tabs@[tab].panes@[pane].state.attached_terminal_id@
                    == runtimes[run].terminal_id@
                &&& crate::text::trimmed(name@) == name@
                &&& crate::app::peers::split_id(target@) is None
                &&& !super::resolve::is_enumerated((*app).state.peers@, name@, target@)
                &&& forall|i: int|
                    0 <= i < run ==> !super::resolve::views_target(name@, target@)(
                        #[trigger] runtimes[i],
                    )
            } ==> {
                &&& r matches Started::Answered(Reply::Workspace { ws_idx })
                &&& ws_idx <= at
                &&& (focus ==> is_shown(*final(app), ws_idx))
                &&& crate::app::state::workspace_has(
                    crate::app::state::PaneKeyView::Terminal(
                        (*app).terminal_runtimes@[run].terminal_id@,
                    ),
                )((*app).state.workspaces@[ws_idx as int])
            },
{
    assert forall|app: &mut App, r: Started| #[trigger]
        call_ensures(
            App::start_peer_workspace_open,
            (app, target, Some(name), None, focus, takeover, None),
            r,
        ) && {
            let workspaces = (*app).state.workspaces@;
            let runtimes = (*app).terminal_runtimes@;
            &&& 0 <= at < workspaces.len() && 0 <= tab < workspaces[at].tabs@.len() && 0 <= pane
                < workspaces[at].tabs@[tab].panes@.len()
            &&& 0 <= run < runtimes.len()
            &&& runtimes[run].runtime == TerminalRuntime::Remote(view)
            &&& view.peer@ == name@
            &&& view.target@ == target@
            &&& workspaces[at].tabs@[tab].panes@[pane].state.attached_terminal_id@
                == runtimes[run].terminal_id@
            &&& crate::text::trimmed(name@) == name@
            &&& crate::app::peers::split_id(target@) is None
            &&& !super::resolve::is_enumerated((*app).state.peers@, name@, target@)
            &&& forall|i: int|
                0 <= i < run ==> !super::resolve::views_target(name@, target@)(
                    #[trigger] runtimes[i],
                )
        } implies {
        &&& r matches Started::Answered(Reply::Workspace { ws_idx })
        &&& ws_idx <= at
        &&& (focus ==> is_shown(*final(app), ws_idx))
        &&& crate::app::state::workspace_has(
            crate::app::state::PaneKeyView::Terminal(
                (*app).terminal_runtimes@[run].terminal_id@,
            ),
        )((*app).state.workspaces@[ws_idx as int])
    } by {
        let workspaces = (*app).state.workspaces@;
        let runtimes = (*app).terminal_runtimes@;
        let key = crate::app::state::PaneKeyView::Terminal(runtimes[run].terminal_id@);
        crate::search::lemma_first_is(
            runtimes,
            super::resolve::views_target(name@, target@),
            0,
            run,
        );
        crate::search::lemma_any(
            workspaces[at].tabs@[tab].panes@,
            crate::app::state::pane_has(key),
        );
        assert(crate::app::state::pane_has(key)(workspaces[at].tabs@[tab].panes@[pane]));
        assert(crate::app::state::tab_has(key)(workspaces[at].tabs@[tab]));
        crate::search::lemma_any(workspaces[at].tabs@, crate::app::state::tab_has(key));
        assert(crate::app::state::workspace_has(key)(workspaces[at]));
        crate::search::lemma_first(workspaces, crate::app::state::workspace_has(key), 0);
        assert((*app).state.workspaces.len() == workspaces.len());
        assert(super::resolve::name_view(Some(name)) == Some(name@));
    }
}

/// The opening that was started is for this target, as asked: at the size a new pane
/// gets, on a peer that answers, and claimed.
pub open spec fn opens_as_asked(
    before: App,
    after: App,
    r: Started,
    target: Seq<char>,
    label: Option<String>,
    focus: bool,
    takeover: bool,
    worktree: Option<PeerWorktreeAnswer>,
) -> bool {
    &&& r matches Started::Deferred(
        PeerWork::OpenView {
            connection,
            handle,
            requested_target,
            local_target,
            resolve_workspace,
            size,
            takeover: take,
            placement,
        },
    )
    &&& requested_target@ == target
    &&& (crate::app::peers::split_id(local_target@) is None ==> connection.local_target@
        == local_target@)
    &&& size == before.state.pane_size
    &&& take == takeover
    &&& placement matches PeerViewPlacement::Workspace {
        label: named,
        created,
        focus: focused,
        worktree: answer,
        ..
    }
    &&& named == label
    &&& !created
    &&& focused == focus
    &&& answer == worktree
    &&& exists|q: int|
        #![trigger before.state.peers@[q]]
        is_peer(before.state.peers@, q, crate::text::trimmed(handle@)) && answers_on(
            before.state.peers@[q],
            connection.api_socket@,
            connection.instance_id@,
        )
    &&& after.peer_view_opens_in_flight@.len() == before.peer_view_opens_in_flight@.len() + 1
    &&& after.peer_view_opens_in_flight@.last().0@ == handle@
    &&& after.peer_view_opens_in_flight@.last().1@ == local_target@
}

/// What is opened is what was asked for: the target under the peer's own id, at the
/// size a new pane gets, taken over and focused as asked.
pub proof fn law_an_open_carries_what_was_asked(
    target: String,
    name: Option<&str>,
    label: Option<String>,
    focus: bool,
    takeover: bool,
    worktree: Option<PeerWorktreeAnswer>,
)
    ensures
        forall|app: &mut App, r: Started| #[trigger]
            call_ensures(
                App::start_peer_workspace_open,
                (app, target, name, label, focus, takeover, worktree),
                r,
            ) && r is Deferred ==> opens_as_asked(
                *app,
                *final(app),
                r,
                target@,
                label,
                focus,
                takeover,
                worktree,
            ),
{
    assert forall|app: &mut App, r: Started| #[trigger]
        call_ensures(
            App::start_peer_workspace_open,
            (app, target, name, label, focus, takeover, worktree),
            r,
        ) && r is Deferred implies opens_as_asked(
        *app,
        *final(app),
        r,
        target@,
        label,
        focus,
        takeover,
        worktree,
    ) by {
        let peers = (*app).state.peers@;
        let owner = super::resolve::target_owner(
            peers,
            target@,
            super::resolve::name_view(name),
        )->Ok_0;
        lemma_reach(peers, owner.1, owner.0);
    }
}

/// A peer that can be reached is one that answers.
pub proof fn lemma_reach(peers: Seq<PeerView>, local: Seq<char>, handle: Seq<char>)
    ensures
        super::resolve::reach(peers, local, Some(handle)) matches Ok(reached) ==> {
            &&& exists|q: int|
                #![trigger peers[q]]
                is_peer(peers, q, crate::text::trimmed(handle)) && answers_on(
                    peers[q],
                    reached.api_socket,
                    reached.instance_id,
                )
        },
{
    let name = crate::text::trimmed(handle);
    crate::search::lemma_first(peers, crate::app::peers::has_handle(name), 0);
    let q = crate::search::first(peers, crate::app::peers::has_handle(name), 0);
    if super::resolve::reach(peers, local, Some(handle)) is Ok {
        assert forall|j: int| 0 <= j < q implies (#[trigger] peers[j]).handle != name by {
            assert(!crate::app::peers::has_handle(name)(peers[j]));
        }
        assert(crate::app::peers::has_handle(name)(peers[q]));
        assert(is_peer(peers, q, name));
    }
}

/// A split of a peer's pane is laid out on the side it was asked for: to the right
/// side by side, and down one above the other. The peer is asked for the same side,
/// and focus and the ratio stay here.
pub proof fn law_a_split_goes_to_its_side(
    app: App,
    params: PaneSplitParams,
    launch_env: Result<Vec<(String, String)>, ErrorBody>,
    owner: Option<String>,
    r: Started,
)
    requires
        call_ensures(App::start_peer_pane_split, (&app, params, launch_env, owner), r),
    ensures
        r matches Started::Deferred(work) ==> {
            &&& work matches PeerWork::SplitPane {
                connection,
                handle,
                method,
                target_pane,
                direction,
                ratio,
                focus,
                size,
                ..
            }
            &&& (params.direction == SplitDirection::Right ==> direction == Direction::Horizontal)
            &&& (params.direction == SplitDirection::Down ==> direction == Direction::Vertical)
            &&& ratio == params.ratio
            &&& focus == params.focus
            &&& size == app.state.pane_size
            &&& method matches Method::PaneSplit(sent)
            &&& sent.direction == params.direction
            &&& sent.cwd == params.cwd
            &&& sent.right_click == params.right_click
            &&& !sent.focus
            &&& sent.ratio is None
            &&& sent.workspace_id is None
            &&& sent.owner_instance_id == owner
            &&& launch_env is Ok && sent.env == launch_env->Ok_0
            &&& sent.target_pane_id is Some && sent.target_pane_id->0@ == connection.local_target@
        },
        r matches Started::Answered(reply) ==> reply is Error,
{
}

/// Two splits of one pane that differ in their side are laid out differently.
pub proof fn law_splits_to_different_sides_differ(
    app: App,
    right: PaneSplitParams,
    down: PaneSplitParams,
    launch_env: Result<Vec<(String, String)>, ErrorBody>,
    owner: Option<String>,
    r: Started,
    s: Started,
)
    requires
        call_ensures(App::start_peer_pane_split, (&app, right, launch_env, owner), r),
        call_ensures(App::start_peer_pane_split, (&app, down, launch_env, owner), s),
        right.direction != down.direction,
        right == (PaneSplitParams { direction: right.direction, ..down }),
        r is Deferred,
    ensures
        r matches Started::Deferred(PeerWork::SplitPane { direction: a, target_pane: x, .. }) && s
            matches Started::Deferred(PeerWork::SplitPane { direction: b, target_pane: y, .. }) && a
            != b && x == y,
{
}

/// A pane that views a pane of a peer that answers is split by asking that peer.
pub proof fn law_a_split_of_a_reachable_pane_is_asked_for(
    app: App,
    params: PaneSplitParams,
    launch_env: Result<Vec<(String, String)>, ErrorBody>,
    owner: Option<String>,
    r: Started,
    at: int,
    pane: PaneId,
    view: RemoteView,
    q: int,
    socket: Seq<char>,
    instance_id: Seq<char>,
)
    requires
        call_ensures(App::start_peer_pane_split, (&app, params, launch_env, owner), r),
        launch_env is Ok,
        params.target_pane_id is Some,
        crate::app::state::located(
            app.state.workspaces@,
            crate::app::state::PaneKeyView::Public(params.target_pane_id->0@),
        ) == Some((at, pane)),
        0 <= at < app.state.workspaces@.len(),
        app.state.workspaces@[at].peer is Some,
        app.state.workspaces@[at].peer->0@ == view.peer@,
        crate::app::state::remote_of_pane(app, at, pane) == Some(view),
        is_peer(app.state.peers@, q, view.peer@),
        answers_on(app.state.peers@[q], socket, instance_id),
        view.instance is Some ==> view.instance->0@ == instance_id,
        crate::app::peers::split_id(view.target@) is None,
        crate::text::trimmed(view.peer@) == view.peer@,
    ensures
        r matches Started::Deferred(PeerWork::SplitPane { connection, target_pane, handle, .. })
            && connection.api_socket@ == socket && connection.instance_id@ == instance_id
            && connection.local_target@ == view.target@ && target_pane == pane && handle@
            == view.peer@,
{
    crate::search::lemma_first_is(
        app.state.peers@,
        crate::app::peers::has_handle(view.peer@),
        0,
        q,
    );
}

/// A split that a peer made takes its place beside the pane that was split, with the
/// side and the ratio that were asked for, behind every pane that was there. It is
/// shown when it was to be focused, and nothing else moves when not.
pub open spec fn split_lands(
    before: App,
    after: App,
    r: Placed,
    finished: PeerPaneSplitResult,
    fresh: FreshPane,
    at: int,
    tab: int,
) -> bool {
    let was = before.state.workspaces@[at];
    let now = after.state.workspaces@[at];
    let pane = now.tabs@[tab].panes@.last();
    &&& r.reply matches Reply::Pane { ws_idx, tab_idx, pane_id, split }
    &&& ws_idx == at && tab_idx == tab && pane_id == fresh.id
    &&& split.from == finished.target_pane
    &&& split.direction == finished.direction
    &&& split.ratio == finished.ratio
    &&& r.discarded is None
    &&& r.events@.len() == 2
    &&& r.events@[0] == (Announcement::PaneCreated { ws_idx, pane_id })
    &&& r.events@[1] == (Announcement::LayoutUpdated { ws_idx, tab_idx })
    &&& after.state.workspaces@.len() == before.state.workspaces@.len()
    &&& now.tabs@.len() == was.tabs@.len()
    &&& now.tabs@[tab].panes@.drop_last() == was.tabs@[tab].panes@
    &&& pane.id == fresh.id
    &&& pane.public_id == fresh.public_id
    &&& pane.state.attached_terminal_id == fresh.terminal_id
    &&& pane.state.kind == PaneKind::Terminal
    &&& pane.split == Some(split)
    &&& if finished.focus {
        &&& is_shown(after, ws_idx)
        &&& now.active_tab == tab
        &&& now.focused_pane == Some(fresh.id)
        &&& after.state.mode == Mode::Terminal
    } else {
        &&& shows_the_same(before, after)
        &&& now.active_tab == was.active_tab
        &&& now.focused_pane == was.focused_pane
        &&& after.state.mode == before.state.mode
    }
}

/// A view that a peer made for a split lands where it was asked for.
pub proof fn law_a_finished_split_lands_beside_its_pane(
    finished: PeerPaneSplitResult,
    fresh: FreshPane,
    at: int,
    tab: int,
    pane: int,
)
    ensures
        forall|app: &mut App, r: Placed| #[trigger]
            call_ensures(App::handle_peer_pane_split_finished, (app, finished, fresh), r)
                && finished.result is Ok && holds_pane(
                *app,
                at,
                tab,
                pane,
                finished.workspace_id@,
                finished.target_pane,
            ) ==> split_lands(*app, *final(app), r, finished, fresh, at, tab),
{
    assert forall|app: &mut App, r: Placed| #[trigger]
        call_ensures(App::handle_peer_pane_split_finished, (app, finished, fresh), r)
            && finished.result is Ok && holds_pane(
            *app,
            at,
            tab,
            pane,
            finished.workspace_id@,
            finished.target_pane,
        ) implies split_lands(*app, *final(app), r, finished, fresh, at, tab) by {
        let workspaces = (*app).state.workspaces@;
        let key = crate::app::state::PaneKeyView::Id(finished.target_pane);
        crate::search::lemma_first_is(
            workspaces,
            crate::app::state::has_id(finished.workspace_id@),
            0,
            at,
        );
        assert forall|t: int| 0 <= t < tab implies !crate::app::state::tab_has(key)(
            #[trigger] workspaces[at].tabs@[t],
        ) by {
            crate::search::lemma_any(
                workspaces[at].tabs@[t].panes@,
                crate::app::state::pane_has(key),
            );
        }
        crate::search::lemma_any(
            workspaces[at].tabs@[tab].panes@,
            crate::app::state::pane_has(key),
        );
        assert(crate::app::state::pane_has(key)(workspaces[at].tabs@[tab].panes@[pane]));
        crate::search::lemma_first_is(
            workspaces[at].tabs@,
            crate::app::state::tab_has(key),
            0,
            tab,
        );
        assert((*app).state.workspaces.len() == workspaces.len());
        assert(workspaces[at].tabs.len() == workspaces[at].tabs@.len());
        let now = (*final(app)).state.workspaces@[at];
        assert(now.tabs@[tab].panes@.drop_last() =~= workspaces[at].tabs@[tab].panes@);
    }
}

/// The first workspace with this id is at `at`, and the first tab of it that holds
/// this pane is at `tab`.
pub open spec fn holds_pane(
    app: App,
    at: int,
    tab: int,
    pane: int,
    workspace_id: Seq<char>,
    id: PaneId,
) -> bool {
    let workspaces = app.state.workspaces@;
    &&& 0 <= at < workspaces.len()
    &&& workspaces[at].id@ == workspace_id
    &&& forall|j: int| 0 <= j < at ==> (#[trigger] workspaces[j]).id@ != workspace_id
    &&& 0 <= tab < workspaces[at].tabs@.len()
    &&& 0 <= pane < workspaces[at].tabs@[tab].panes@.len()
    &&& workspaces[at].tabs@[tab].panes@[pane].id == id
    &&& forall|t: int, p: int|
        0 <= t < tab && 0 <= p < workspaces[at].tabs@[t].panes@.len() ==> (
        #[trigger] workspaces[at].tabs@[t].panes@[p]).id != id
}

/// A split or a tab whose workspace was closed in the meantime, or whose pane was,
/// changes nothing here: the view is thrown away, and the caller is told why.
pub proof fn law_a_view_without_a_place_is_thrown_away(
    split: PeerPaneSplitResult,
    fresh: FreshPane,
    made: PeerTabCreateResult,
    tab: FreshTab,
)
    ensures
        forall|app: &mut App, r: Placed| #[trigger]
            call_ensures(App::handle_peer_pane_split_finished, (app, split, fresh), r)
                && split.result is Ok && (forall|j: int|
                0 <= j < (*app).state.workspaces@.len() ==> (
                #[trigger] (*app).state.workspaces@[j]).id@ != split.workspace_id@) ==> {
                &&& *final(app) == *app
                &&& r.reply matches Reply::Error(error)
                &&& error@.0 == "workspace_not_found"@
                &&& r.discarded is Some && (r.discarded->0).view == split.result->Ok_0
                &&& (r.discarded->0).close is Some == (split.result->Ok_0).spawned_on_peer
                &&& r.events@.len() == 0
            },
        forall|app: &mut App, r: Placed| #[trigger]
            call_ensures(App::handle_peer_tab_create_finished, (app, made, tab), r)
                && made.result is Ok && (forall|j: int|
                0 <= j < (*app).state.workspaces@.len() ==> (
                #[trigger] (*app).state.workspaces@[j]).id@ != made.workspace_id@) ==> {
                &&& *final(app) == *app
                &&& r.reply matches Reply::Error(error)
                &&& error@.0 == "workspace_not_found"@
                &&& r.discarded is Some && (r.discarded->0).view == made.result->Ok_0
                &&& (r.discarded->0).close is Some == (made.result->Ok_0).spawned_on_peer
                &&& r.events@.len() == 0
            },
{
    assert forall|app: &mut App, id: Seq<char>|
        (forall|j: int|
            0 <= j < (*app).state.workspaces@.len() ==> (
            #[trigger] (*app).state.workspaces@[j]).id@ != id) implies #[trigger] crate::search::first(
        (*app).state.workspaces@,
        crate::app::state::has_id(id),
        0,
    ) >= (*app).state.workspaces@.len() by {
        crate::search::lemma_first(
            (*app).state.workspaces@,
            crate::app::state::has_id(id),
            0,
        );
    }
}

/// A tab that a peer made is put behind every tab of its workspace, with one pane,
/// under the label it was asked for, and is shown when it was to be focused.
pub open spec fn tab_lands(
    before: App,
    after: App,
    r: Placed,
    made: PeerTabCreateResult,
    fresh: FreshTab,
    at: int,
) -> bool {
    let was = before.state.workspaces@[at];
    let now = after.state.workspaces@[at];
    let tab = now.tabs@.last();
    &&& r.reply matches Reply::Tab { ws_idx, tab_idx }
    &&& ws_idx == at && tab_idx == was.tabs@.len()
    &&& r.discarded is None
    &&& r.events@.len() == 1
    &&& r.events@[0] == (Announcement::TabCreated { ws_idx, tab_idx })
    &&& after.state.workspaces@.len() == before.state.workspaces@.len()
    &&& now.tabs@.drop_last() == was.tabs@
    &&& tab.public_id == fresh.public_id
    &&& tab.custom_name == made.label
    &&& tab.panes@.len() == 1
    &&& tab.panes@[0].id == fresh.pane.id
    &&& tab.panes@[0].public_id == fresh.pane.public_id
    &&& tab.panes@[0].state.attached_terminal_id == fresh.pane.terminal_id
    &&& tab.panes@[0].split is None
    &&& if made.focus {
        &&& is_shown(after, ws_idx)
        &&& now.active_tab == tab_idx
        &&& now.focused_pane == Some(fresh.pane.id)
        &&& after.state.mode == Mode::Terminal
    } else {
        &&& shows_the_same(before, after)
        &&& now.active_tab == was.active_tab
        &&& now.focused_pane == was.focused_pane
        &&& after.state.mode == before.state.mode
    }
}

/// A tab that a peer made lands in the workspace it was asked for.
pub proof fn law_a_finished_tab_lands_in_its_workspace(
    made: PeerTabCreateResult,
    fresh: FreshTab,
    at: int,
)
    ensures
        forall|app: &mut App, r: Placed| #[trigger]
            call_ensures(App::handle_peer_tab_create_finished, (app, made, fresh), r)
                && made.result is Ok && 0 <= at < (*app).state.workspaces@.len() && (
            *app).state.workspaces@[at].id@ == made.workspace_id@ && (forall|j: int|
                0 <= j < at ==> (#[trigger] (*app).state.workspaces@[j]).id@
                    != made.workspace_id@) ==> tab_lands(*app, *final(app), r, made, fresh, at),
{
    assert forall|app: &mut App, r: Placed| #[trigger]
        call_ensures(App::handle_peer_tab_create_finished, (app, made, fresh), r)
            && made.result is Ok && 0 <= at < (*app).state.workspaces@.len() && (
        *app).state.workspaces@[at].id@ == made.workspace_id@ && (forall|j: int|
            0 <= j < at ==> (#[trigger] (*app).state.workspaces@[j]).id@
                != made.workspace_id@) implies tab_lands(
        *app,
        *final(app),
        r,
        made,
        fresh,
        at,
    ) by {
        let workspaces = (*app).state.workspaces@;
        crate::search::lemma_first_is(
            workspaces,
            crate::app::state::has_id(made.workspace_id@),
            0,
            at,
        );
        assert((*app).state.workspaces.len() == workspaces.len());
        assert(workspaces[at].tabs.len() == workspaces[at].tabs@.len());
        let now = (*final(app)).state.workspaces@[at];
        assert(now.tabs@.drop_last() =~= workspaces[at].tabs@);
    }
}

/// A tab in a view is asked of the peer behind the view, in the workspace that is
/// viewed, and is focused here alone.
pub proof fn law_a_tab_is_asked_of_the_views_peer(
    app: App,
    params: TabCreateParams,
    launch_env: Result<Vec<(String, String)>, ErrorBody>,
    r: Started,
)
    requires
        call_ensures(App::start_peer_tab_create, (&app, params, launch_env), r),
    ensures
        r matches Started::Deferred(work) ==> {
            &&& work matches PeerWork::CreateTab {
                handle,
                method,
                workspace_id,
                label,
                focus,
                size,
                ..
            }
            &&& label == params.label
            &&& focus == params.focus
            &&& size == app.state.pane_size
            &&& method matches Method::TabCreate(sent)
            &&& sent.cwd == params.cwd
            &&& sent.label == params.label
            &&& !sent.focus
            &&& launch_env is Ok && sent.env == launch_env->Ok_0
            &&& exists|at: int|
                #![trigger app.state.workspaces@[at]]
                {
                    let workspace = app.state.workspaces@[at];
                    &&& 0 <= at < app.state.workspaces@.len()
                    &&& workspace.id == workspace_id
                    &&& workspace.peer is Some && workspace.peer->0@ == handle@
                    &&& workspace.peer_workspace is Some
                    &&& sent.workspace_id == workspace.peer_workspace
                    &&& match params.workspace_id {
                        Some(id) => workspace.public_id@ == id@,
                        None => app.state.active == Some(at as usize),
                    }
                }
        },
        r matches Started::Answered(reply) ==> reply is Error,
{
    if r is Deferred {
        let at = super::resolve::tab_workspace(
            app,
            crate::text::opt_view(params.workspace_id),
        )->0 as int;
        if params.workspace_id is Some {
            crate::search::lemma_first(
                app.state.workspaces@,
                crate::app::state::has_public_id(params.workspace_id->0@),
                0,
            );
            assert(app.state.workspaces.len() == app.state.workspaces@.len());
        }
        assert(app.state.workspaces@[at].id == app.state.workspaces@[at].id);
    }
}

/// A view that was connected gets a workspace of its own at the end of the list:
/// the peer's, under the label that was asked for or the peer's name, and shown when
/// it was to be focused.
pub open spec fn view_lands(
    before: App,
    after: App,
    r: Placed,
    finished: PeerViewOpenResult,
    fresh: FreshWorkspace,
) -> bool {
    let added = after.state.workspaces@.last();
    let at = before.state.workspaces@.len();
    &&& r.discarded is None
    &&& after.state.workspaces@.len() == at + 1
    &&& after.state.workspaces@.drop_last() == before.state.workspaces@
    &&& added.id == fresh.id
    &&& added.public_id == fresh.public_id
    &&& added.peer is Some && added.peer->0@ == finished.handle@
    &&& added.tabs@.len() == 1 && added.tabs@[0].panes@.len() == 1
    &&& added.tabs@[0].panes@[0].state.attached_terminal_id == fresh.tab.pane.terminal_id
    &&& added.focused_pane == Some(fresh.tab.pane.id)
    &&& finished.placement matches PeerViewPlacement::Workspace {
        label,
        created,
        focus,
        peer_workspace,
        worktree,
    }
    &&& added.peer_workspace == peer_workspace
    &&& added.label is Some
    &&& (label is Some ==> added.label->0@ == label->0@)
    &&& (label is None && !created ==> added.label->0@ == finished.handle@)
    &&& (label is None && created ==> added.label->0@ == finished.handle@ + ":"@ + (
    finished.result->Ok_0).local_target@)
    &&& (worktree is None ==> r.reply == (Reply::Workspace { ws_idx: at as usize }))
    &&& if focus {
        is_shown(after, at as usize)
    } else {
        shows_the_same(before, after)
    }
}

/// A view onto what is not viewed yet lands in a workspace of its own.
pub proof fn law_a_finished_open_lands(finished: PeerViewOpenResult, fresh: FreshWorkspace)
    ensures
        forall|app: &mut App, r: Placed| #[trigger]
            call_ensures(App::handle_peer_view_open_finished, (app, finished, fresh), r)
                && finished.result is Ok && finished.placement is Workspace && (forall|i: int|
                0 <= i < (*app).terminal_runtimes@.len() ==> !super::resolve::views_target(
                    finished.handle@,
                    (finished.result->Ok_0).local_target@,
                )(#[trigger] (*app).terminal_runtimes@[i])) ==> view_lands(
                *app,
                *final(app),
                r,
                finished,
                fresh,
            ),
{
    assert forall|app: &mut App, r: Placed| #[trigger]
        call_ensures(App::handle_peer_view_open_finished, (app, finished, fresh), r)
            && finished.result is Ok && finished.placement is Workspace && (forall|i: int|
            0 <= i < (*app).terminal_runtimes@.len() ==> !super::resolve::views_target(
                finished.handle@,
                (finished.result->Ok_0).local_target@,
            )(#[trigger] (*app).terminal_runtimes@[i])) implies view_lands(
        *app,
        *final(app),
        r,
        finished,
        fresh,
    ) by {
        crate::search::lemma_first(
            (*app).terminal_runtimes@,
            super::resolve::views_target(
                finished.handle@,
                (finished.result->Ok_0).local_target@,
            ),
            0,
        );
        assert((*final(app)).state.workspaces@.drop_last() =~= (*app).state.workspaces@);
    }
}

/// A view onto what is viewed already is not held twice: the new connection goes,
/// nothing is closed on the peer, and the workspace that exists is answered, and
/// shown when it was to be focused.
pub proof fn law_a_second_view_joins_the_first(
    finished: PeerViewOpenResult,
    fresh: FreshWorkspace,
    run: int,
)
    ensures
        forall|app: &mut App, r: Placed| #[trigger]
            call_ensures(App::handle_peer_view_open_finished, (app, finished, fresh), r)
                && finished.result is Ok && finished.placement is Workspace && 0 <= run < (
            *app).terminal_runtimes@.len() && super::resolve::views_target(
                finished.handle@,
                (finished.result->Ok_0).local_target@,
            )((*app).terminal_runtimes@[run]) ==> {
                &&& r.discarded is Some
                &&& (r.discarded->0).view == (finished.result->Ok_0).view
                &&& (r.discarded->0).close is None
                &&& (*final(app)).state.workspaces == (*app).state.workspaces
                &&& (*final(app)).terminal_runtimes == (*app).terminal_runtimes
                &&& (r.reply matches Reply::Workspace { ws_idx } ==> if finished.placement->focus {
                    is_shown(*final(app), ws_idx)
                } else {
                    shows_the_same(*app, *final(app))
                })
                &&& (r.reply is Error ==> shows_the_same(*app, *final(app))
                    || finished.placement->worktree is Some)
            },
{
    assert forall|app: &mut App|
        finished.result is Ok && 0 <= run < (*app).terminal_runtimes@.len()
            && super::resolve::views_target(
            finished.handle@,
            (finished.result->Ok_0).local_target@,
        )((*app).terminal_runtimes@[run]) implies #[trigger] crate::search::first(
        (*app).terminal_runtimes@,
        super::resolve::views_target(
            finished.handle@,
            (finished.result->Ok_0).local_target@,
        ),
        0,
    ) < (*app).terminal_runtimes@.len() by {
        crate::search::lemma_any(
            (*app).terminal_runtimes@,
            super::resolve::views_target(
                finished.handle@,
                (finished.result->Ok_0).local_target@,
            ),
        );
    }
}

} // verus!
