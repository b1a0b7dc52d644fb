//! Sending work to a peer, off the event loop.
//!
//! Everything here follows one shape: decide on the event loop, act on a worker.
//! The decision needs local state and must be instant; the action is a round
//! trip to another machine. A decision answers the caller at once or says what
//! the worker is to do.

use vstd::prelude::*;

use crate::api::schema::peers::{
    PeerTerminalInfo, PeerTerminalOpenParams, PeerWorkspaceCreateParams, PeerWorkspaceOpenParams,
};
use crate::api::schema::requests::{
    Direction, Method, Request, TabCreateParams, WorkspaceCreateParams, WorkspaceRenameParams,
    WorkspaceTarget,
};
use crate::api::schema::responses::ErrorBody;
use crate::api::schema::worktrees::WorktreeInfo;
use crate::app::api::peers::resolve::{ExistingPeerView, PeerConnection};
use crate::app::api::peers::rewrite::LocalPaneIds;
use crate::app::peers::{is_peer_id, PeerHandle};
use crate::app::state::{App, PaneId, Split};
use crate::events::{PeerViewPlacement, PeerWorktreeAnswer};
use crate::terminal::TerminalSize;
use crate::text::{cat5, str_eq};

verus! {

/// How long a request forwarded to a peer may take, in seconds. A dead peer must
/// not pin the forwarding thread.
pub const PEER_REQUEST_TIMEOUT_SECS: u64 = 5;

/// What a caller is answered. What goes out to subscribers with an answer is
/// [`Reply::announcements`].
#[derive(Debug, PartialEq, Eq)]
pub enum Reply {
    Error(ErrorBody),
    /// The workspace at this position.
    Workspace { ws_idx: usize },
    PeerTerminal(PeerTerminalInfo),
    /// A checkout was made, and the workspace at this position views it.
    WorktreeCreated { ws_idx: usize, tab_idx: usize, worktree: WorktreeInfo },
    /// A checkout was opened, and the workspace at this position views it.
    WorktreeOpened { ws_idx: usize, tab_idx: usize, worktree: WorktreeInfo, already_open: bool },
    /// No agent has this name.
    AgentNotFound { target: String },
    /// The tab at this position, which is new.
    Tab { ws_idx: usize, tab_idx: usize },
    /// A pane, which is new, and the split that made room for it.
    Pane { ws_idx: usize, tab_idx: usize, pane_id: PaneId, split: Split },
    TerminalClosed { terminal_id: String },
}

/// How a peer's answer is restated for the caller.
#[derive(Debug, PartialEq, Eq)]
pub enum Restate {
    Workspace { remap_ids: bool },
    Read(LocalPaneIds),
    /// The pane named at `result.<field>` becomes this one.
    Pane { field: String, local_pane_id: String },
    Explain { peer: PeerHandle, peer_pane_id: String },
    WorktreeList { local_ids: Vec<(String, String)> },
}

/// What a worker is to do with a peer.
#[derive(Debug, PartialEq, Eq)]
pub enum PeerWork {
    /// Send the request, restate the answer, and hand it to the caller.
    Forward { connection: PeerConnection, method: Method, restate: Restate },
    /// Connect a view, resolving a workspace to one of its panes first when
    /// `resolve_workspace` says so.
    OpenView {
        connection: PeerConnection,
        handle: PeerHandle,
        requested_target: String,
        local_target: String,
        resolve_workspace: bool,
        size: TerminalSize,
        takeover: bool,
        placement: PeerViewPlacement,
    },
    /// Have the peer create a workspace; the view is opened when it answers.
    CreateWorkspace {
        api_socket: String,
        instance_id: String,
        handle: PeerHandle,
        method: Method,
        label: Option<String>,
        focus: bool,
    },
    /// Have the peer create a tab and connect a view onto its pane.
    CreateTab {
        connection: PeerConnection,
        handle: PeerHandle,
        method: Method,
        workspace_id: String,
        label: Option<String>,
        focus: bool,
        size: TerminalSize,
    },
    /// Have the peer split a pane and connect a view onto the new one.
    SplitPane {
        connection: PeerConnection,
        handle: PeerHandle,
        method: Method,
        workspace_id: String,
        target_pane: PaneId,
        direction: Direction,
        /// The share of the room the split pane keeps here; the peer is not told.
        ratio: Option<u32>,
        focus: bool,
        size: TerminalSize,
    },
    /// Have the peer create or open a worktree; the view is opened when it
    /// answers.
    WorktreeView {
        connection: PeerConnection,
        handle: PeerHandle,
        method: Method,
        opened: bool,
        label: Option<String>,
        focus: bool,
    },
    /// Have the peer remove a checkout.
    WorktreeRemove { connection: PeerConnection, method: Method, workspace_id: String },
    /// Have the peer rename the tab that holds this pane.
    RenameTab { connection: PeerConnection, name: String },
}

/// What came of a request so far.
#[derive(Debug, PartialEq, Eq)]
pub enum Started {
    Answered(Reply),
    Deferred(PeerWork),
}

impl Started {
    /// The caller is refused with this.
    pub open spec fn refuses(self, error: (Seq<char>, Seq<char>)) -> bool {
        self matches Started::Answered(Reply::Error(body)) && body@ == error
    }
}

/// Refuses a request.
pub fn refused(error: ErrorBody) -> (r: Started)
    ensures
        r.refuses(error@),
{
    Started::Answered(Reply::Error(error))
}

/// The workspace at this position is a view onto a peer.
pub open spec fn views_a_peer(app: App, ws_idx: Option<usize>) -> bool {
    match ws_idx {
        Some(at) => at < app.state.workspaces@.len() && app.state.workspaces@[at as int].peer is Some,
        None => false,
    }
}

/// Which workspace a worktree request means: the named one, else the active one,
/// else the selected one.
pub open spec fn worktree_workspace(app: App, workspace_id: Option<Seq<char>>) -> Option<usize> {
    match workspace_id {
        Some(id) => super::resolve::public_position(app, id),
        None => if app.state.active is Some {
            app.state.active
        } else if app.state.selected < app.state.workspaces@.len() {
            Some(app.state.selected)
        } else {
            None
        },
    }
}

/// A worktree request acts on a view onto a peer. A `cwd` names a path on this
/// filesystem, so it never does.
pub open spec fn worktree_targets_peer(
    app: App,
    workspace_id: Option<Seq<char>>,
    cwd: Option<Seq<char>>,
) -> bool {
    cwd is None && views_a_peer(app, worktree_workspace(app, workspace_id))
}

/// The request has to be handled by asking a peer.
pub open spec fn targets_peer_workspace(app: App, method: Method) -> bool {
    match method {
        Method::WorkspaceRename(params) => crate::app::peers::split_id(
            params.workspace_id@,
        ) is Some,
        Method::WorkspaceClose(target) => crate::app::peers::split_id(target.workspace_id@) is Some,
        Method::WorkspaceFocus(target) => crate::app::peers::split_id(target.workspace_id@) is Some,
        Method::PeerWorkspaceCreate(_) => true,
        Method::PeerWorkspaceOpen(_) => true,
        Method::PeerTerminalOpen(_) => true,
        Method::TabCreate(params) => views_a_peer(
            app,
            super::resolve::tab_workspace(app, crate::text::opt_view(params.workspace_id)),
        ),
        Method::WorktreeList(params) => worktree_targets_peer(
            app,
            crate::text::opt_view(params.workspace_id),
            crate::text::opt_view(params.cwd),
        ),
        Method::WorktreeCreate(params) => worktree_targets_peer(
            app,
            crate::text::opt_view(params.workspace_id),
            crate::text::opt_view(params.cwd),
        ),
        Method::WorktreeOpen(params) => worktree_targets_peer(
            app,
            crate::text::opt_view(params.workspace_id),
            crate::text::opt_view(params.cwd),
        ),
        Method::WorktreeRemove(params) => worktree_targets_peer(
            app,
            Some(params.workspace_id@),
            None,
        ),
        _ => false,
    }
}

/// The text of an optional string.
pub fn opt_str(value: &Option<String>) -> (r: Option<&str>)
    ensures
        super::resolve::name_view(r) == crate::text::opt_view(*value),
{
    match value {
        Some(value) => Some(value.as_str()),
        None => None,
    }
}

impl App {
    /// Whether the workspace at this position is a view onto a peer.
    pub fn is_peer_workspace(&self, ws_idx: Option<usize>) -> (r: bool)
        ensures
            r == views_a_peer(*self, ws_idx),
    {
        match ws_idx {
            Some(at) => at < self.state.workspaces.len()
                && self.state.workspaces[at].peer.is_some(),
            None => false,
        }
    }

    /// Which local workspace a `worktree.*` request means.
    ///
    /// The same resolution the local handlers use, so the routing gate and the
    /// local path can never disagree about which workspace is being asked for.
    pub fn worktree_request_workspace_index(&self, workspace_id: Option<&str>) -> (r: Option<usize>)
        ensures
            r == worktree_workspace(*self, super::resolve::name_view(workspace_id)),
    {
        match workspace_id {
            Some(workspace_id) => self.parse_workspace_id(workspace_id),
            None => if self.state.active.is_some() {
                self.state.active
            } else if self.state.selected < self.state.workspaces.len() {
                Some(self.state.selected)
            } else {
                None
            },
        }
    }

    /// Whether a worktree request acts on a workspace that is a view onto a peer.
    ///
    /// A `cwd` never qualifies: it names a path on *this* filesystem, which is
    /// what the caller asked about even when a peer view happens to be active.
    pub fn worktree_request_targets_peer(&self, workspace_id: Option<&str>, cwd: Option<&str>) -> (r:
        bool)
        ensures
            r == worktree_targets_peer(
                *self,
                super::resolve::name_view(workspace_id),
                super::resolve::name_view(cwd),
            ),
    {
        if cwd.is_some() {
            return false;
        }
        self.is_peer_workspace(self.worktree_request_workspace_index(workspace_id))
    }

    /// Whether this request has to be handled by asking a peer, rather than
    /// answered from local state.
    ///
    /// Rename and close qualify by carrying a peer-namespaced workspace id, and
    /// focus because on such an id it opens a view. A tab is created in a
    /// workspace this server holds a *view* of, whose id is local — so the test
    /// is what the workspace is attached to, not what it is called; the worktree
    /// requests qualify on the same basis. The opens always do: nothing about
    /// them is forwarded, but every one ends in a handshake with another machine.
    pub fn request_targets_peer_workspace(&self, request: &Request) -> (r: bool)
        ensures
            r == targets_peer_workspace(*self, request.method),
    {
        match &request.method {
            Method::WorkspaceRename(params) => is_peer_id(params.workspace_id.as_str()),
            Method::WorkspaceClose(target) => is_peer_id(target.workspace_id.as_str()),
            Method::WorkspaceFocus(target) => is_peer_id(target.workspace_id.as_str()),
            Method::PeerWorkspaceCreate(_) => true,
            Method::PeerWorkspaceOpen(_) => true,
            Method::PeerTerminalOpen(_) => true,
            Method::TabCreate(params) => self.is_peer_workspace(
                self.workspace_index_for_tab_create(opt_str(&params.workspace_id)),
            ),
            Method::WorktreeList(params) => self.worktree_request_targets_peer(
                opt_str(&params.workspace_id),
                opt_str(&params.cwd),
            ),
            Method::WorktreeCreate(params) => self.worktree_request_targets_peer(
                opt_str(&params.workspace_id),
                opt_str(&params.cwd),
            ),
            Method::WorktreeOpen(params) => self.worktree_request_targets_peer(
                opt_str(&params.workspace_id),
                opt_str(&params.cwd),
            ),
            Method::WorktreeRemove(params) => self.worktree_request_targets_peer(
                Some(params.workspace_id.as_str()),
                None,
            ),
            _ => false,
        }
    }

    /// Shows the workspace at this position.
    pub fn switch_workspace(&mut self, ws_idx: usize)
        ensures
            *final(self) == switched(*old(self), ws_idx),
    {
        self.state.active = Some(ws_idx);
        self.state.selected = ws_idx;
    }
}

/// The workspace at this position is shown.
pub open spec fn switched(app: App, ws_idx: usize) -> App {
    App {
        state: crate::app::state::AppState {
            active: Some(ws_idx),
            selected: ws_idx,
            ..app.state
        },
        ..app
    }
}

/// The claim is on this target of this peer.
pub open spec fn claim_is(peer: Seq<char>, target: Seq<char>) -> spec_fn((String, String)) -> bool {
    |c: (String, String)| c.0@ == peer && c.1@ == target
}

/// Nothing changed but that this target is claimed.
pub open spec fn claimed(before: App, after: App, peer: Seq<char>, target: Seq<char>) -> bool {
    let claims = after.peer_view_opens_in_flight@;
    &&& after.state == before.state
    &&& after.terminal_runtimes == before.terminal_runtimes
    &&& claims.len() > 0 && claims.drop_last() == before.peer_view_opens_in_flight@
    &&& claim_is(peer, target)(claims.last())
}

/// A view onto this target is being opened already.
pub open spec fn already_opening(peer: Seq<char>, target: Seq<char>) -> (Seq<char>, Seq<char>) {
    (
        "already_exists"@,
        "a view onto '"@ + target + "' on peer '"@ + peer + "' is already opening"@,
    )
}

/// This target is open already, as a terminal no workspace can be built around.
pub open spec fn open_as_terminal(
    peer: Seq<char>,
    target: Seq<char>,
    terminal: Seq<char>,
) -> (Seq<char>, Seq<char>) {
    (
        "already_exists"@,
        "'"@ + target + "' on peer '"@ + peer + "' is already open as terminal '"@ + terminal
            + "'"@,
    )
}

/// What handing a view's opening to a worker comes to, for a peer and target
/// that were resolved: the peer must be reachable and the target unclaimed.
pub open spec fn hands_out_open(
    before: App,
    after: App,
    started: Started,
    handle: Seq<char>,
    requested: Seq<char>,
    local: Seq<char>,
    resolve: bool,
    wanted: TerminalSize,
    take: bool,
) -> bool {
    match super::resolve::reach(before.state.peers@, local, Some(handle)) {
        Err(error) => started.refuses(error) && after == before,
        Ok(reached) => if crate::search::any(
            before.peer_view_opens_in_flight@,
            claim_is(handle, local),
        ) {
            started.refuses(already_opening(handle, local)) && after == before
        } else {
            &&& started matches Started::Deferred(
                PeerWork::OpenView {
                    connection,
                    handle: peer,
                    requested_target,
                    local_target,
                    resolve_workspace,
                    size,
                    takeover,
                    placement,
                },
            )
            &&& connection@ == reached
            &&& peer@ == handle
            &&& requested_target@ == requested
            &&& local_target@ == local
            &&& resolve_workspace == resolve
            &&& size == wanted
            &&& takeover == take
            &&& claimed(before, after, handle, local)
        },
    }
}

/// The placement a worker carries, when one was started.
pub open spec fn placement_of(started: Started) -> Option<PeerViewPlacement> {
    match started {
        Started::Deferred(PeerWork::OpenView { placement, .. }) => Some(placement),
        _ => None,
    }
}

/// The answer to a worktree request whose view is the workspace at this
/// position.
pub open spec fn is_worktree_reply(
    app: App,
    at: usize,
    answer: PeerWorktreeAnswer,
    reply: Reply,
) -> bool {
    let workspace = app.state.workspaces@[at as int];
    if workspace.active_tab >= workspace.tabs@.len() {
        reply matches Reply::Error(error) && error@ == (
            "worktree_open_failed"@,
            "the view onto the peer's worktree has no tab"@,
        )
    } else if workspace.tabs@[workspace.active_tab as int].panes@.len() == 0 {
        reply matches Reply::Error(error) && error@ == (
            "worktree_open_failed"@,
            "the view onto the peer's worktree has no pane"@,
        )
    } else {
        let checkout = WorktreeInfo {
            open_workspace_id: Some(workspace.public_id),
            ..answer.checkout()
        };
        match answer {
            PeerWorktreeAnswer::Created { .. } => reply == (Reply::WorktreeCreated {
                ws_idx: at,
                tab_idx: workspace.active_tab,
                worktree: checkout,
            }),
            PeerWorktreeAnswer::Opened { already_open, .. } => reply == (Reply::WorktreeOpened {
                ws_idx: at,
                tab_idx: workspace.active_tab,
                worktree: checkout,
                already_open,
            }),
        }
    }
}

/// The answer to a request for a view that is the workspace at this position: a
/// worktree request gets the checkout back alongside.
pub open spec fn is_view_reply(
    app: App,
    at: usize,
    worktree: Option<PeerWorktreeAnswer>,
    reply: Reply,
) -> bool {
    match worktree {
        Some(answer) => is_worktree_reply(app, at, answer, reply),
        None => reply == (Reply::Workspace { ws_idx: at }),
    }
}

/// The peer's own id of the workspace behind a view onto this target.
pub open spec fn workspace_behind(target: Seq<char>, targets_workspace: bool) -> Option<Seq<char>> {
    if targets_workspace {
        Some(target)
    } else {
        crate::public_id::workspace_of_pane(target)
    }
}

/// What opening a target as a workspace comes to.
///
/// A view that exists is handed back even while its peer is down; a bare
/// terminal onto the same target is refused; otherwise a worker connects one.
/// `made` says whether the peer made the target for this server.
pub open spec fn opens_workspace(
    before: App,
    after: App,
    started: Started,
    target: Seq<char>,
    name: Option<Seq<char>>,
    wanted_label: Option<String>,
    made: bool,
    wanted_focus: bool,
    takeover: bool,
    answer: Option<PeerWorktreeAnswer>,
) -> bool {
    match super::resolve::target_owner(before.state.peers@, target, name) {
        Err(error) => started.refuses(error) && after == before,
        Ok((handle, local)) => {
            let whole = super::resolve::is_enumerated(before.state.peers@, handle, local);
            match super::resolve::already_open(before, handle, local, whole) {
                Some(ExistingPeerView::InWorkspace { ws_idx, .. }) => {
                    &&& after == if wanted_focus {
                        switched(before, ws_idx)
                    } else {
                        before
                    }
                    &&& started matches Started::Answered(reply)
                    &&& is_view_reply(
                        before,
                        ws_idx,
                        match answer {
                            Some(answer) => Some(answer.held()),
                            None => None,
                        },
                        reply,
                    )
                },
                Some(ExistingPeerView::Bare { terminal_id }) => started.refuses(
                    open_as_terminal(handle, local, terminal_id@),
                ) && after == before,
                None => {
                    &&& hands_out_open(
                        before,
                        after,
                        started,
                        handle,
                        target,
                        local,
                        whole,
                        before.state.pane_size,
                        takeover,
                    )
                    &&& match placement_of(started) {
                        Some(placement) => {
                            &&& placement matches PeerViewPlacement::Workspace {
                                peer_workspace,
                                label,
                                created,
                                focus,
                                worktree,
                            }
                            &&& crate::text::opt_view(peer_workspace) == workspace_behind(
                                local,
                                whole,
                            )
                            &&& label == wanted_label
                            &&& created == made
                            &&& focus == wanted_focus
                            &&& worktree == answer
                        },
                        None => true,
                    }
                },
            }
        },
    }
}

/// What opening a target as a bare terminal comes to.
pub open spec fn opens_terminal(
    before: App,
    after: App,
    started: Started,
    params: PeerTerminalOpenParams,
) -> bool {
    let cols = if params.cols == 0 {
        1
    } else {
        params.cols
    };
    let rows = if params.rows == 0 {
        1
    } else {
        params.rows
    };
    match super::resolve::target_owner(
        before.state.peers@,
        params.target@,
        crate::text::opt_view(params.name),
    ) {
        Err(error) => started.refuses(error) && after == before,
        Ok((handle, local)) => match super::resolve::already_open(before, handle, local, false) {
            Some(existing) => {
                let size = match crate::app::state::runtime_of(
                    before.terminal_runtimes@,
                    existing.terminal()@,
                ) {
                    Some(runtime) => runtime.size(),
                    None => TerminalSize { rows, cols },
                };
                &&& after == before
                &&& started matches Started::Answered(Reply::PeerTerminal(info))
                &&& info@ == (crate::api::schema::peers::PeerTerminalView {
                    terminal_id: existing.terminal()@,
                    name: handle,
                    target: params.target@,
                    local_target: local,
                    cols: size.cols,
                    rows: size.rows,
                })
            },
            None => {
                &&& hands_out_open(
                    before,
                    after,
                    started,
                    handle,
                    params.target@,
                    local,
                    false,
                    TerminalSize { rows, cols },
                    params.takeover,
                )
                &&& match placement_of(started) {
                    Some(placement) => placement matches PeerViewPlacement::Terminal { target }
                        && target == params.target,
                    None => true,
                }
            },
        },
    }
}

impl App {
    fn is_claimed(&self, peer: &str, target: &str) -> (r: bool)
        ensures
            r == crate::search::any(self.peer_view_opens_in_flight@, claim_is(peer@, target@)),
    {
        let claims = &self.peer_view_opens_in_flight;
        let mut i: usize = 0;
        while i < claims.len()
            invariant
                i <= claims.len(),
                claims == self.peer_view_opens_in_flight,
                crate::search::first(claims@, claim_is(peer@, target@), 0) == crate::search::first(
                    claims@,
                    claim_is(peer@, target@),
                    i as int,
                ),
            decreases claims.len() - i,
        {
            if str_eq(claims[i].0.as_str(), peer) && str_eq(claims[i].1.as_str(), target) {
                return true;
            }
            i += 1;
        }
        false
    }

    /// Resolves the peer, claims the target, and hands the connect to a worker.
    ///
    /// The test for an existing view cannot see an open that has not landed yet,
    /// and two views onto one peer terminal reclaim each other's attach forever;
    /// the claim is what keeps a second one from being started.
    pub fn spawn_peer_view_open(
        &mut self,
        handle: PeerHandle,
        requested_target: String,
        local_target: String,
        resolve_workspace: bool,
        size: TerminalSize,
        takeover: bool,
        placement: PeerViewPlacement,
    ) -> (r: Started)
        ensures
            hands_out_open(
                *old(self),
                *final(self),
                r,
                handle@,
                requested_target@,
                local_target@,
                resolve_workspace,
                size,
                takeover,
            ),
            placement_of(r) is Some ==> placement_of(r) == Some(placement),
    {
        let connection = match self.resolve_peer_connection(
            local_target.as_str(),
            Some(handle.as_str()),
        ) {
            Ok(connection) => connection,
            Err(error) => {
                return refused(error);
            },
        };
        if self.is_claimed(handle.as_str(), local_target.as_str()) {
            return refused(
                ErrorBody::new(
                    "already_exists",
                    cat5(
                        "a view onto '",
                        local_target.as_str(),
                        "' on peer '",
                        handle.as_str(),
                        "' is already opening",
                    ),
                ),
            );
        }
        self.peer_view_opens_in_flight.push(
            (handle.as_str().to_owned(), local_target.clone()),
        );
        assert(self.peer_view_opens_in_flight@.drop_last()
            == old(self).peer_view_opens_in_flight@);
        Started::Deferred(
            PeerWork::OpenView {
                connection,
                handle,
                requested_target,
                local_target,
                resolve_workspace,
                size,
                takeover,
                placement,
            },
        )
    }

    /// Answers a routed worktree request once its view exists.
    ///
    /// The workspace, tab and pane are this server's, while the checkout is
    /// reported exactly as the peer described it, with only `open_workspace_id`
    /// restated, because that is the one field naming something local.
    pub fn peer_worktree_view_response(&self, ws_idx: usize, answer: PeerWorktreeAnswer) -> (r:
        Reply)
        requires
            ws_idx < self.state.workspaces@.len(),
        ensures
            is_worktree_reply(*self, ws_idx, answer, r),
    {
        let workspace = &self.state.workspaces[ws_idx];
        if workspace.active_tab >= workspace.tabs.len() {
            return Reply::Error(
                ErrorBody::of(
                    "worktree_open_failed",
                    "the view onto the peer's worktree has no tab",
                ),
            );
        }
        if workspace.tabs[workspace.active_tab].panes.len() == 0 {
            return Reply::Error(
                ErrorBody::of(
                    "worktree_open_failed",
                    "the view onto the peer's worktree has no pane",
                ),
            );
        }
        match answer {
            PeerWorktreeAnswer::Created { worktree } => {
                let worktree = self.local_peer_worktree_info(ws_idx, worktree);
                Reply::WorktreeCreated { ws_idx, tab_idx: workspace.active_tab, worktree }
            },
            PeerWorktreeAnswer::Opened { worktree, already_open } => {
                let worktree = self.local_peer_worktree_info(ws_idx, worktree);
                Reply::WorktreeOpened {
                    ws_idx,
                    tab_idx: workspace.active_tab,
                    worktree,
                    already_open,
                }
            },
        }
    }

    /// The peer's checkout, with the one field that names a workspace restated
    /// as the local view now holding it.
    fn local_peer_worktree_info(&self, ws_idx: usize, worktree: WorktreeInfo) -> (r: WorktreeInfo)
        requires
            ws_idx < self.state.workspaces@.len(),
        ensures
            r == (WorktreeInfo {
                open_workspace_id: Some(self.state.workspaces@[ws_idx as int].public_id),
                ..worktree
            }),
    {
        WorktreeInfo {
            open_workspace_id: Some(self.state.workspaces[ws_idx].public_id.clone()),
            ..worktree
        }
    }

    /// Answers with the view that is the workspace at this position.
    pub fn view_response(&self, ws_idx: usize, worktree: Option<PeerWorktreeAnswer>) -> (r: Reply)
        requires
            ws_idx < self.state.workspaces@.len(),
        ensures
            is_view_reply(*self, ws_idx, worktree, r),
    {
        match worktree {
            Some(answer) => self.peer_worktree_view_response(ws_idx, answer),
            None => Reply::Workspace { ws_idx },
        }
    }

    /// Starts opening a peer-backed terminal, off the event loop.
    ///
    /// One view per target: a second one would reclaim the first's attach on the
    /// peer, and the first would reclaim it straight back. A view inside a
    /// workspace counts as one. Answering "already open" is the one thing this
    /// side can do without asking the peer.
    pub fn start_peer_terminal_open(&mut self, params: PeerTerminalOpenParams) -> (r: Started)
        ensures
            opens_terminal(*old(self), *final(self), r, params),
    {
        let (handle, local_target) = match self.resolve_peer_target(
            params.target.as_str(),
            opt_str(&params.name),
        ) {
            Ok(resolved) => resolved,
            Err(error) => {
                return refused(error);
            },
        };
        let cols: u16 = if params.cols == 0 {
            1
        } else {
            params.cols
        };
        let rows: u16 = if params.rows == 0 {
            1
        } else {
            params.rows
        };
        match self.peer_view_already_open(handle.as_str(), local_target.as_str(), false) {
            Some(existing) => {
                let terminal_id = existing.terminal_id();
                let size = match self.runtime(terminal_id) {
                    Some(runtime) => runtime.current_size(),
                    None => TerminalSize { rows, cols },
                };
                return Started::Answered(
                    Reply::PeerTerminal(
                        PeerTerminalInfo {
                            terminal_id: terminal_id.as_str().to_owned(),
                            name: handle.as_str().to_owned(),
                            target: params.target,
                            local_target,
                            cols: size.cols,
                            rows: size.rows,
                        },
                    ),
                );
            },
            None => {},
        }
        let requested = params.target.clone();
        self.spawn_peer_view_open(
            handle,
            requested,
            local_target,
            false,
            TerminalSize { rows, cols },
            params.takeover,
            PeerViewPlacement::Terminal { target: params.target },
        )
    }

    /// Starts opening a peer's terminal as a local workspace, off the event loop.
    ///
    /// Idempotent per target: opening a peer terminal this server already views
    /// focuses the existing view, and is answered before a live connection is
    /// required — a view that exists is switchable even while its peer is down.
    ///
    /// Without a label the workspace is named after the peer.
    ///
    /// `worktree` is set only when a routed worktree request is what opened this
    /// view. It changes nothing about the view and only decides which shape the
    /// caller's answer takes.
    pub fn start_peer_workspace_open(
        &mut self,
        target: String,
        name: Option<&str>,
        label: Option<String>,
        focus: bool,
        takeover: bool,
        worktree: Option<PeerWorktreeAnswer>,
    ) -> (r: Started)
        ensures
            opens_workspace(
                *old(self),
                *final(self),
                r,
                target@,
                super::resolve::name_view(name),
                label,
                false,
                focus,
                takeover,
                worktree,
            ),
    {
        self.start_peer_view(target, name, label, false, focus, takeover, worktree)
    }

    /// Starts opening what a peer just created for this server. Without a label
    /// the workspace is named after the peer and the target.
    pub fn start_peer_created_open(
        &mut self,
        target: String,
        name: &str,
        label: Option<String>,
        focus: bool,
        worktree: Option<PeerWorktreeAnswer>,
    ) -> (r: Started)
        ensures
            opens_workspace(
                *old(self),
                *final(self),
                r,
                target@,
                Some(name@),
                label,
                true,
                focus,
                false,
                worktree,
            ),
    {
        self.start_peer_view(target, Some(name), label, true, focus, false, worktree)
    }

    /// Starts opening a view in a workspace of its own; `created` says whether the
    /// peer made its target for this server.
    fn start_peer_view(
        &mut self,
        target: String,
        name: Option<&str>,
        label: Option<String>,
        created: bool,
        focus: bool,
        takeover: bool,
        worktree: Option<PeerWorktreeAnswer>,
    ) -> (r: Started)
        ensures
            opens_workspace(
                *old(self),
                *final(self),
                r,
                target@,
                super::resolve::name_view(name),
                label,
                created,
                focus,
                takeover,
                worktree,
            ),
    {
        let (handle, local_target) = match self.resolve_peer_target(target.as_str(), name) {
            Ok(resolved) => resolved,
            Err(error) => {
                return refused(error);
            },
        };
        let targets_workspace = self.peer_target_is_an_enumerated_workspace(
            &handle,
            local_target.as_str(),
        );
        match self.peer_view_already_open(
            handle.as_str(),
            local_target.as_str(),
            targets_workspace,
        ) {
            Some(ExistingPeerView::InWorkspace { ws_idx, terminal_id }) => {
                assert(ws_idx < self.state.workspaces@.len()) by {
                    crate::search::lemma_first(
                        self.state.workspaces@,
                        crate::app::state::workspace_has(
                            crate::app::state::PaneKeyView::Terminal(terminal_id@),
                        ),
                        0,
                    );
                }
                // A worktree caller asked about a checkout, and this server
                // already had a view onto it, which is what the answer says.
                let worktree = match worktree {
                    Some(answer) => Some(answer.into_already_open()),
                    None => None,
                };
                let reply = self.view_response(ws_idx, worktree);
                if focus {
                    self.switch_workspace(ws_idx);
                }
                return Started::Answered(reply);
            },
            Some(ExistingPeerView::Bare { terminal_id }) => {
                return refused(
                    open_as_terminal_error(
                        handle.as_str(),
                        local_target.as_str(),
                        terminal_id.as_str(),
                    ),
                );
            },
            None => {},
        }
        // The peer's workspace id is captured before the worker's resolution
        // replaces it with a pane id: it is what later names this workspace on
        // the peer, and nothing else records it.
        let peer_workspace = if targets_workspace {
            Some(local_target.clone())
        } else {
            crate::public_id::peer_workspace_of_pane_id(local_target.as_str())
        };
        let size = self.state.pane_size;
        self.spawn_peer_view_open(
            handle,
            target,
            local_target,
            targets_workspace,
            size,
            takeover,
            PeerViewPlacement::Workspace { peer_workspace, label, created, focus, worktree },
        )
    }

    /// Opens a peer's terminal as a local workspace.
    pub fn handle_deferred_peer_workspace_open(&mut self, params: PeerWorkspaceOpenParams) -> (r:
        Started)
        ensures
            opens_workspace(
                *old(self),
                *final(self),
                r,
                params.target@,
                crate::text::opt_view(params.name),
                params.label,
                false,
                params.focus,
                params.takeover,
                None,
            ),
    {
        self.start_peer_workspace_open(
            params.target,
            opt_str(&params.name),
            params.label,
            params.focus,
            params.takeover,
            None,
        )
    }
}

/// The refusal of a workspace around a target that is open as a bare terminal.
pub fn open_as_terminal_error(peer: &str, target: &str, terminal: &str) -> (r: ErrorBody)
    ensures
        r@ == open_as_terminal(peer@, target@, terminal@),
{
    let head = cat5("'", target, "' on peer '", peer, "' is already open as terminal '");
    ErrorBody::new("already_exists", crate::text::cat3(head.as_str(), terminal, "'"))
}

/// What creating a workspace on a peer comes to. It names a peer rather than one
/// of its workspaces, and the peer picks the directory when none is given.
pub open spec fn creates_workspace(
    app: App,
    started: Started,
    wanted: PeerWorkspaceCreateParams,
) -> bool {
    let name = crate::text::trimmed(wanted.name@);
    match crate::search::find(app.state.peers@, crate::app::peers::has_handle(name)) {
        None => started.refuses(super::resolve::no_peer_named(name)),
        Some(peer) => match crate::app::peer_picker::unavailable_text(peer.connection) {
            Some(reason) => started.refuses(
                ("unavailable"@, "peer '"@ + name + "' is unavailable: "@ + reason),
            ),
            None => if peer.api_socket() is None {
                started.refuses(
                    (
                        "unavailable"@,
                        super::resolve::about_peer(
                            "peer '"@,
                            name,
                            "' has no reachable socket"@,
                        ),
                    ),
                )
            } else if peer.instance_id() is None {
                started.refuses(
                    (
                        "unavailable"@,
                        super::resolve::about_peer(
                            "peer '"@,
                            name,
                            "' has not identified itself yet"@,
                        ),
                    ),
                )
            } else {
                &&& started matches Started::Deferred(
                    PeerWork::CreateWorkspace {
                        api_socket,
                        instance_id,
                        handle,
                        method,
                        label,
                        focus,
                    },
                )
                &&& peer.api_socket() == Some(api_socket@)
                &&& peer.instance_id() == Some(instance_id@)
                &&& handle@ == name
                &&& label == wanted.label
                &&& focus == wanted.focus
                &&& method matches Method::WorkspaceCreate(params)
                &&& params.cwd == wanted.cwd
                &&& !params.focus
                &&& params.label is None
                &&& params.env@.len() == 0
            },
        },
    }
}

/// What creating a tab inside a view comes to. The peer is found through what
/// the local workspace is attached to; focus stays local.
pub open spec fn creates_tab(
    app: App,
    started: Started,
    wanted: TabCreateParams,
    launch_env: Result<Vec<(String, String)>, ErrorBody>,
) -> bool {
    match super::resolve::tab_workspace(app, crate::text::opt_view(wanted.workspace_id)) {
        None => started.refuses(("workspace_not_found"@, "no workspace to create a tab in"@)),
        Some(at) => if at >= app.state.workspaces@.len() {
            started.refuses(("workspace_not_found"@, "workspace not found"@))
        } else {
            let workspace = app.state.workspaces@[at as int];
            if workspace.peer is None || workspace.peer_workspace is None {
                started.refuses(
                    ("invalid_request"@, "this view does not name a workspace on its peer"@),
                )
            } else if launch_env is Err {
                started.refuses(launch_env->Err_0@)
            } else {
                match super::resolve::reach(
                    app.state.peers@,
                    workspace.peer_workspace->0@,
                    Some(workspace.peer->0@),
                ) {
                    Err(error) => started.refuses(error),
                    Ok(reached) => {
                        &&& started matches Started::Deferred(
                            PeerWork::CreateTab {
                                connection,
                                handle,
                                method,
                                workspace_id,
                                label,
                                focus,
                                size,
                            },
                        )
                        &&& connection@ == reached
                        &&& handle@ == workspace.peer->0@
                        &&& workspace_id == workspace.id
                        &&& label == wanted.label
                        &&& focus == wanted.focus
                        &&& size == app.state.pane_size
                        &&& method == Method::TabCreate(
                            TabCreateParams {
                                workspace_id: workspace.peer_workspace,
                                cwd: wanted.cwd,
                                focus: false,
                                label: wanted.label,
                                env: launch_env->Ok_0,
                            },
                        )
                    },
                }
            }
        },
    }
}

/// What renaming or closing a peer's own workspace comes to: the request goes to
/// the peer under the peer's own id, and only a rename's answer carries ids.
pub open spec fn forwards_workspace(app: App, started: Started, wanted: Method) -> bool {
    let target = match wanted {
        Method::WorkspaceRename(params) => params.workspace_id@,
        Method::WorkspaceClose(target) => target.workspace_id@,
        _ => Seq::empty(),
    };
    match super::resolve::reach(app.state.peers@, target, None) {
        Err(error) => started.refuses(error),
        Ok(reached) => {
            &&& started matches Started::Deferred(PeerWork::Forward { connection, method, restate })
            &&& connection@ == reached
            &&& restate == (Restate::Workspace { remap_ids: wanted is WorkspaceRename })
            &&& match wanted {
                Method::WorkspaceRename(params) => method matches Method::WorkspaceRename(sent)
                    && sent.workspace_id@ == reached.local_target && sent.label == params.label,
                _ => method matches Method::WorkspaceClose(sent) && sent.workspace_id@
                    == reached.local_target,
            }
        },
    }
}

/// What a request that targets a peer workspace comes to.
pub open spec fn dispatches_workspace(
    before: App,
    after: App,
    started: Started,
    method: Method,
    launch_env: Result<Vec<(String, String)>, ErrorBody>,
) -> bool {
    match method {
        Method::PeerWorkspaceCreate(params) => after == before && creates_workspace(
            before,
            started,
            params,
        ),
        Method::TabCreate(params) => after == before && creates_tab(
            before,
            started,
            params,
            launch_env,
        ),
        Method::PeerWorkspaceOpen(params) => opens_workspace(
            before,
            after,
            started,
            params.target@,
            crate::text::opt_view(params.name),
            params.label,
            false,
            params.focus,
            params.takeover,
            None,
        ),
        Method::PeerTerminalOpen(params) => opens_terminal(before, after, started, params),
        Method::WorkspaceFocus(target) => opens_workspace(
            before,
            after,
            started,
            target.workspace_id@,
            None,
            None,
            false,
            true,
            false,
            None,
        ),
        Method::WorktreeList(params) => after == before && super::worktrees::lists_worktrees(
            before,
            started,
            crate::text::opt_view(params.workspace_id),
        ),
        Method::WorktreeCreate(params) => after == before && super::worktrees::creates_worktree(
            before,
            started,
            params,
        ),
        Method::WorktreeOpen(params) => after == before && super::worktrees::opens_worktree(
            before,
            started,
            params,
        ),
        Method::WorktreeRemove(params) => after == before && super::worktrees::removes_worktree(
            before,
            started,
            params,
        ),
        Method::WorkspaceRename(_) => after == before && forwards_workspace(
            before,
            started,
            method,
        ),
        Method::WorkspaceClose(_) => after == before && forwards_workspace(before, started, method),
        _ => after == before && started.refuses(
            ("invalid_request"@, "request does not target a peer workspace"@),
        ),
    }
}

impl App {
    /// Asks a peer to create a workspace, then opens a local view onto it.
    ///
    /// Only the round trip runs on the worker. Opening the view happens back on
    /// the loop, because it creates a local workspace and nothing off the loop
    /// may touch that.
    pub fn start_peer_workspace_create(&self, params: PeerWorkspaceCreateParams) -> (r: Started)
        ensures
            creates_workspace(*self, r, params),
    {
        let handle = PeerHandle::new(crate::text::trim(params.name.as_str()));
        let peer = match self.state.peers.get(&handle) {
            Some(peer) => peer,
            None => {
                return refused(super::resolve::no_such_peer(&handle));
            },
        };
        match crate::app::peer_picker::peer_unavailable_reason(&peer.connection) {
            Some(reason) => {
                return refused(
                    ErrorBody::new(
                        "unavailable",
                        crate::text::cat4(
                            "peer '",
                            handle.as_str(),
                            "' is unavailable: ",
                            reason.as_str(),
                        ),
                    ),
                );
            },
            None => {},
        }
        let api_socket = match peer.api_socket() {
            Some(path) => path.to_owned(),
            None => {
                return refused(
                    ErrorBody::new(
                        "unavailable",
                        crate::text::cat3(
                            "peer '",
                            handle.as_str(),
                            "' has no reachable socket",
                        ),
                    ),
                );
            },
        };
        let instance_id = match peer.instance_id() {
            Some(id) => id.to_owned(),
            None => {
                return refused(
                    ErrorBody::new(
                        "unavailable",
                        crate::text::cat3(
                            "peer '",
                            handle.as_str(),
                            "' has not identified itself yet",
                        ),
                    ),
                );
            },
        };
        let method = Method::WorkspaceCreate(
            WorkspaceCreateParams { cwd: params.cwd, focus: false, label: None, env: Vec::new() },
        );
        Started::Deferred(
            PeerWork::CreateWorkspace {
                api_socket,
                instance_id,
                handle,
                method,
                label: params.label,
                focus: params.focus,
            },
        )
    }

    /// Asks a peer to create a tab in the workspace a local view is attached
    /// to, then opens a view onto the pane that tab was created around.
    ///
    /// `launch_env` is the request's environment once it was held to the local
    /// rules, so a bad key fails here rather than on the peer.
    pub fn start_peer_tab_create(
        &self,
        params: TabCreateParams,
        launch_env: Result<Vec<(String, String)>, ErrorBody>,
    ) -> (r: Started)
        ensures
            creates_tab(*self, r, params, launch_env),
    {
        let at = match self.workspace_index_for_tab_create(opt_str(&params.workspace_id)) {
            Some(at) => at,
            None => {
                return refused(
                    ErrorBody::of("workspace_not_found", "no workspace to create a tab in"),
                );
            },
        };
        if at >= self.state.workspaces.len() {
            return refused(ErrorBody::of("workspace_not_found", "workspace not found"));
        }
        let workspace = &self.state.workspaces[at];
        let (peer, peer_workspace) = match (&workspace.peer, &workspace.peer_workspace) {
            (Some(peer), Some(peer_workspace)) => (peer, peer_workspace),
            _ => {
                // A view onto a bare pane never learned which workspace holds
                // it, so there is nothing to name on the peer.
                return refused(
                    ErrorBody::of(
                        "invalid_request",
                        "this view does not name a workspace on its peer",
                    ),
                );
            },
        };
        let env = match launch_env {
            Ok(env) => env,
            Err(error) => {
                return refused(error);
            },
        };
        // The id is the peer's own, not namespaced, so the peer name has to come
        // alongside it.
        let connection = match self.resolve_peer_connection(
            peer_workspace.as_str(),
            Some(peer.as_str()),
        ) {
            Ok(connection) => connection,
            Err(error) => {
                return refused(error);
            },
        };
        let label = crate::text::opt_clone(&params.label);
        let method = Method::TabCreate(
            TabCreateParams {
                workspace_id: Some(peer_workspace.clone()),
                cwd: params.cwd,
                focus: false,
                label,
                env,
            },
        );
        Started::Deferred(
            PeerWork::CreateTab {
                connection,
                handle: PeerHandle::new(peer.as_str()),
                method,
                workspace_id: workspace.id.clone(),
                label: params.label,
                focus: params.focus,
                size: self.state.pane_size,
            },
        )
    }

    /// Dispatches a request that targets a peer workspace, off the event loop.
    ///
    /// A rename or a close of a peer-owned id is forwarded to the owning peer: a
    /// dead or slow peer must never stall the loop, and there is no local state
    /// to change on completion, so the worker answers the client directly. Meant
    /// for requests that [`Self::request_targets_peer_workspace`] confirmed; any
    /// other is answered with a refusal rather than dropped.
    pub fn handle_deferred_peer_workspace_api_request(
        &mut self,
        method: Method,
        launch_env: Result<Vec<(String, String)>, ErrorBody>,
    ) -> (r: Started)
        ensures
            dispatches_workspace(*old(self), *final(self), r, method, launch_env),
    {
        match method {
            // Creating names a peer rather than one of its workspaces, so it has
            // no id to resolve and takes its own path.
            Method::PeerWorkspaceCreate(params) => self.start_peer_workspace_create(params),
            // A tab is created inside a view, so the peer is found through what
            // the local workspace is attached to rather than through a peer id.
            Method::TabCreate(params) => self.start_peer_tab_create(params, launch_env),
            // Opening is not forwarded at all: it connects here.
            Method::PeerWorkspaceOpen(params) => self.handle_deferred_peer_workspace_open(params),
            Method::PeerTerminalOpen(params) => self.start_peer_terminal_open(params),
            // Focusing a peer-owned id has no local index to focus: it opens a
            // view of that workspace, which is the same open by another name.
            Method::WorkspaceFocus(target) => self.start_peer_workspace_open(
                target.workspace_id,
                None,
                None,
                true,
                false,
                None,
            ),
            // A worktree action inside a view runs where the checkout is.
            Method::WorktreeList(params) => self.start_peer_worktree_list(params),
            Method::WorktreeCreate(params) => self.start_peer_worktree_create(params),
            Method::WorktreeOpen(params) => self.start_peer_worktree_open(params),
            Method::WorktreeRemove(params) => self.start_peer_worktree_remove(params),
            Method::WorkspaceRename(params) => match self.resolve_peer_connection(
                params.workspace_id.as_str(),
                None,
            ) {
                Ok(connection) => {
                    let method = Method::WorkspaceRename(
                        WorkspaceRenameParams {
                            workspace_id: connection.local_target.clone(),
                            label: params.label,
                        },
                    );
                    Started::Deferred(
                        PeerWork::Forward {
                            connection,
                            method,
                            restate: Restate::Workspace { remap_ids: true },
                        },
                    )
                },
                Err(error) => refused(error),
            },
            Method::WorkspaceClose(target) => match self.resolve_peer_connection(
                target.workspace_id.as_str(),
                None,
            ) {
                Ok(connection) => {
                    let method = Method::WorkspaceClose(
                        WorkspaceTarget { workspace_id: connection.local_target.clone() },
                    );
                    Started::Deferred(
                        PeerWork::Forward {
                            connection,
                            method,
                            restate: Restate::Workspace { remap_ids: false },
                        },
                    )
                },
                Err(error) => refused(error),
            },
            _ => refused(
                ErrorBody::of("invalid_request", "request does not target a peer workspace"),
            ),
        }
    }
}

} // verus!
