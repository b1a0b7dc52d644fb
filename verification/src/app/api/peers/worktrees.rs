//! Routing `worktree.*` to the peer that owns the checkout.
//!
//! A peer view's cwd is a path on another machine. Running Git here against it
//! either fails or — worse, when the same path also exists locally — succeeds
//! against the wrong host's repo. So none of these are answered here: every one
//! is the peer's own call, and what comes back is restated in local ids.

use vstd::prelude::*;

use crate::api::schema::requests::{
    Method, WorktreeCreateParams, WorktreeListParams, WorktreeOpenParams, WorktreeRemoveParams,
};
use crate::api::schema::responses::ErrorBody;
use crate::api::schema::workspaces::WorkspaceWorktreeInfo;
use crate::api::schema::worktrees::WorktreeInfo;
use crate::app::api::announce::Announcement;
use crate::app::api::peers::forward::{opt_str, refused, PeerWork, Reply, Restate, Started};
use crate::app::peers::{split_peer_id, PeerHandle};
use crate::app::state::{App, AppState, RuntimeEntry, Workspace};
use crate::events::{PeerWorktreeRemoveResult, PeerWorktreeViewResult};
use crate::text::{opt_is, str_eq};

verus! {

/// The peer workspace a routed worktree request acts on.
#[derive(Debug, PartialEq, Eq)]
pub struct PeerWorktreeTarget {
    pub handle: PeerHandle,
    /// The peer's own workspace id behind the view. Peer-local, never
    /// namespaced: it is what the peer knows its workspace by.
    pub peer_workspace: String,
    /// The local workspace holding the view, by local id rather than index so a
    /// completion can re-resolve it after the peer round trip.
    pub workspace_id: String,
}

/// The contents of a [`PeerWorktreeTarget`].
pub struct WorktreeTargetView {
    pub handle: Seq<char>,
    pub peer_workspace: Seq<char>,
    pub workspace_id: Seq<char>,
}

impl View for PeerWorktreeTarget {
    type V = WorktreeTargetView;

    open spec fn view(&self) -> WorktreeTargetView {
        WorktreeTargetView {
            handle: self.handle@,
            peer_workspace: self.peer_workspace@,
            workspace_id: self.workspace_id@,
        }
    }
}

/// The peer and peer-side workspace a worktree request must reach, or why there
/// is none.
pub open spec fn worktree_target(app: App, workspace_id: Option<Seq<char>>) -> Result<
    WorktreeTargetView,
    (Seq<char>, Seq<char>),
> {
    match super::forward::worktree_workspace(app, workspace_id) {
        None => Err(("workspace_not_found"@, "no workspace to run a worktree action in"@)),
        Some(at) => if at >= app.state.workspaces@.len() {
            Err(("workspace_not_found"@, "workspace not found"@))
        } else {
            let workspace = app.state.workspaces@[at as int];
            if workspace.peer is None {
                Err(("invalid_request"@, "workspace is not a view onto a peer"@))
            } else if workspace.peer_workspace is None {
                Err(("invalid_request"@, "this view does not name a workspace on its peer"@))
            } else {
                Ok(
                    WorktreeTargetView {
                        handle: workspace.peer->0@,
                        peer_workspace: workspace.peer_workspace->0@,
                        workspace_id: workspace.id@,
                    },
                )
            }
        },
    }
}

/// The local ids of the views onto a peer's workspaces, by the peer's own ids.
pub open spec fn local_ids(
    workspaces: Seq<crate::app::state::Workspace>,
    handle: Seq<char>,
) -> Map<Seq<char>, Seq<char>>
    decreases workspaces.len(),
{
    if workspaces.len() == 0 {
        Map::empty()
    } else {
        let before = local_ids(workspaces.drop_last(), handle);
        let last = workspaces.last();
        if last.peer is Some && last.peer->0@ == handle && last.peer_workspace is Some {
            before.insert(last.peer_workspace->0@, last.public_id@)
        } else {
            before
        }
    }
}

/// The peer a worktree request must reach, and how to reach it.
pub open spec fn worktree_reach(app: App, workspace_id: Option<Seq<char>>) -> Result<
    (WorktreeTargetView, super::resolve::ReachView),
    (Seq<char>, Seq<char>),
> {
    match worktree_target(app, workspace_id) {
        Ok(target) => match super::resolve::reach(
            app.state.peers@,
            target.peer_workspace,
            Some(target.handle),
        ) {
            Ok(reached) => Ok((target, reached)),
            Err(error) => Err(error),
        },
        Err(error) => Err(error),
    }
}

/// A worktree list is the peer's own, with its workspace ids restated.
pub open spec fn lists_worktrees(app: App, started: Started, workspace_id: Option<Seq<char>>) -> bool {
    match worktree_reach(app, workspace_id) {
        Err(error) => started.refuses(error),
        Ok((target, reached)) => {
            &&& started matches Started::Deferred(PeerWork::Forward { connection, method, restate })
            &&& connection@ == reached
            &&& method matches Method::WorktreeList(params)
            &&& crate::text::opt_view(params.workspace_id) == Some(reached.local_target)
            &&& params.cwd is None
            &&& restate matches Restate::WorktreeList { local_ids: ids }
            &&& crate::pairs::pairs_view(ids@) == local_ids(
                app.state.workspaces@,
                target.handle,
            )
        },
    }
}

/// A worktree is created by the peer. The branch, the base and the directory are
/// the peer's; focus and label stay local.
pub open spec fn creates_worktree(app: App, started: Started, wanted: WorktreeCreateParams) -> bool {
    match worktree_reach(app, crate::text::opt_view(wanted.workspace_id)) {
        Err(error) => started.refuses(error),
        Ok((target, reached)) => {
            &&& started matches Started::Deferred(
                PeerWork::WorktreeView { connection, handle, method, opened, label, focus },
            )
            &&& connection@ == reached
            &&& handle@ == target.handle
            &&& !opened
            &&& label == wanted.label
            &&& focus == wanted.focus
            &&& method matches Method::WorktreeCreate(params)
            &&& crate::text::opt_view(params.workspace_id) == Some(reached.local_target)
            &&& params == (WorktreeCreateParams {
                workspace_id: params.workspace_id,
                cwd: None,
                branch: wanted.branch,
                base: wanted.base,
                path: wanted.path,
                label: None,
                focus: false,
            })
        },
    }
}

/// A worktree is opened by the peer.
pub open spec fn opens_worktree(app: App, started: Started, wanted: WorktreeOpenParams) -> bool {
    match worktree_reach(app, crate::text::opt_view(wanted.workspace_id)) {
        Err(error) => started.refuses(error),
        Ok((target, reached)) => {
            &&& started matches Started::Deferred(
                PeerWork::WorktreeView { connection, handle, method, opened, label, focus },
            )
            &&& connection@ == reached
            &&& handle@ == target.handle
            &&& opened
            &&& label == wanted.label
            &&& focus == wanted.focus
            &&& method matches Method::WorktreeOpen(params)
            &&& crate::text::opt_view(params.workspace_id) == Some(reached.local_target)
            &&& params == (WorktreeOpenParams {
                workspace_id: params.workspace_id,
                cwd: None,
                path: wanted.path,
                branch: wanted.branch,
                label: None,
                focus: false,
            })
        },
    }
}

/// A checkout is removed by the peer.
pub open spec fn removes_worktree(app: App, started: Started, wanted: WorktreeRemoveParams) -> bool {
    match worktree_reach(app, Some(wanted.workspace_id@)) {
        Err(error) => started.refuses(error),
        Ok((target, reached)) => {
            &&& started matches Started::Deferred(
                PeerWork::WorktreeRemove { connection, method, workspace_id },
            )
            &&& connection@ == reached
            &&& workspace_id@ == target.workspace_id
            &&& method matches Method::WorktreeRemove(params)
            &&& params.workspace_id@ == reached.local_target
            &&& params.force == wanted.force
        },
    }
}

/// The contents of what resolving a worktree request's target gives.
pub open spec fn target_view(r: Result<PeerWorktreeTarget, ErrorBody>) -> Result<
    WorktreeTargetView,
    (Seq<char>, Seq<char>),
> {
    match r {
        Ok(target) => Ok(target@),
        Err(error) => Err(error@),
    }
}

impl App {
    /// The peer and peer-side workspace a routed worktree request must reach.
    pub fn resolve_peer_worktree_target(&self, workspace_id: Option<&str>) -> (r: Result<
        PeerWorktreeTarget,
        ErrorBody,
    >)
        ensures
            target_view(r) == worktree_target(*self, super::resolve::name_view(workspace_id)),
    {
        let at = match self.worktree_request_workspace_index(workspace_id) {
            Some(at) => at,
            None => {
                return Err(
                    ErrorBody::of(
                        "workspace_not_found",
                        "no workspace to run a worktree action in",
                    ),
                );
            },
        };
        if at >= self.state.workspaces.len() {
            return Err(ErrorBody::of("workspace_not_found", "workspace not found"));
        }
        let workspace = &self.state.workspaces[at];
        let peer = match &workspace.peer {
            Some(peer) => peer,
            None => {
                return Err(
                    ErrorBody::of("invalid_request", "workspace is not a view onto a peer"),
                );
            },
        };
        // A view onto a bare pane never learned which workspace holds it, so
        // there is no cwd on the peer to start a worktree action from.
        match &workspace.peer_workspace {
            Some(peer_workspace) => Ok(
                PeerWorktreeTarget {
                    handle: PeerHandle::new(peer.as_str()),
                    peer_workspace: peer_workspace.clone(),
                    workspace_id: workspace.id.clone(),
                },
            ),
            None => Err(
                ErrorBody::of(
                    "invalid_request",
                    "this view does not name a workspace on its peer",
                ),
            ),
        }
    }

    /// The local workspace ids this server holds views under, keyed by the
    /// peer-local workspace id each view is attached to.
    pub fn local_workspace_ids_for_peer(&self, handle: &PeerHandle) -> (r: Vec<(String, String)>)
        ensures
            crate::pairs::pairs_view(r@) == local_ids(self.state.workspaces@, handle@),
    {
        let mut out: Vec<(String, String)> = Vec::new();
        let mut i: usize = 0;
        while i < self.state.workspaces.len()
            invariant
                i <= self.state.workspaces.len(),
                crate::pairs::pairs_view(out@) == local_ids(
                    self.state.workspaces@.take(i as int),
                    handle@,
                ),
            decreases self.state.workspaces.len() - i,
        {
            let workspace = &self.state.workspaces[i];
            let ghost before = out@;
            assert(self.state.workspaces@.take(i as int + 1).drop_last()
                =~= self.state.workspaces@.take(i as int));
            if opt_is(&workspace.peer, handle.as_str()) {
                match &workspace.peer_workspace {
                    Some(peer_workspace) => {
                        out.push((peer_workspace.clone(), workspace.public_id.clone()));
                        assert(out@.drop_last() =~= before);
                    },
                    None => {},
                }
            }
            i += 1;
        }
        assert(self.state.workspaces@.take(i as int) =~= self.state.workspaces@);
        out
    }

    /// Lists the peer's worktrees for the repo its workspace sits in.
    pub fn start_peer_worktree_list(&self, params: WorktreeListParams) -> (r: Started)
        ensures
            lists_worktrees(*self, r, crate::text::opt_view(params.workspace_id)),
    {
        let target = match self.resolve_peer_worktree_target(opt_str(&params.workspace_id)) {
            Ok(target) => target,
            Err(error) => {
                return refused(error);
            },
        };
        let connection = match self.resolve_peer_connection(
            target.peer_workspace.as_str(),
            Some(target.handle.as_str()),
        ) {
            Ok(connection) => connection,
            Err(error) => {
                return refused(error);
            },
        };
        let local_ids = self.local_workspace_ids_for_peer(&target.handle);
        let method = Method::WorktreeList(
            WorktreeListParams { workspace_id: Some(connection.local_target.clone()), cwd: None },
        );
        Started::Deferred(
            PeerWork::Forward { connection, method, restate: Restate::WorktreeList { local_ids } },
        )
    }

    /// Asks a peer to create a worktree of its own, then opens a view onto it.
    ///
    /// The checkout, the branch and the directory it lands in are all the peer's:
    /// this server's worktree directory names a path on the wrong machine, so an
    /// absent `path` is left absent for the peer to fill in.
    pub fn start_peer_worktree_create(&self, params: WorktreeCreateParams) -> (r: Started)
        ensures
            creates_worktree(*self, r, params),
    {
        let target = match self.resolve_peer_worktree_target(opt_str(&params.workspace_id)) {
            Ok(target) => target,
            Err(error) => {
                return refused(error);
            },
        };
        let connection = match self.resolve_peer_connection(
            target.peer_workspace.as_str(),
            Some(target.handle.as_str()),
        ) {
            Ok(connection) => connection,
            Err(error) => {
                return refused(error);
            },
        };
        let method = Method::WorktreeCreate(
            WorktreeCreateParams {
                workspace_id: Some(connection.local_target.clone()),
                cwd: None,
                branch: params.branch,
                base: params.base,
                path: params.path,
                label: None,
                focus: false,
            },
        );
        Started::Deferred(
            PeerWork::WorktreeView {
                connection,
                handle: target.handle,
                method,
                opened: false,
                label: params.label,
                focus: params.focus,
            },
        )
    }

    /// Asks a peer to open one of its existing worktrees, then views it.
    ///
    /// `path` and `branch` name the peer's filesystem and the peer's refs, so
    /// both are passed through untouched.
    pub fn start_peer_worktree_open(&self, params: WorktreeOpenParams) -> (r: Started)
        ensures
            opens_worktree(*self, r, params),
    {
        let target = match self.resolve_peer_worktree_target(opt_str(&params.workspace_id)) {
            Ok(target) => target,
            Err(error) => {
                return refused(error);
            },
        };
        let connection = match self.resolve_peer_connection(
            target.peer_workspace.as_str(),
            Some(target.handle.as_str()),
        ) {
            Ok(connection) => connection,
            Err(error) => {
                return refused(error);
            },
        };
        let method = Method::WorktreeOpen(
            WorktreeOpenParams {
                workspace_id: Some(connection.local_target.clone()),
                cwd: None,
                path: params.path,
                branch: params.branch,
                label: None,
                focus: false,
            },
        );
        Started::Deferred(
            PeerWork::WorktreeView {
                connection,
                handle: target.handle,
                method,
                opened: true,
                label: params.label,
                focus: params.focus,
            },
        )
    }

    /// Asks a peer to remove the worktree checkout one of our views sits in.
    pub fn start_peer_worktree_remove(&self, params: WorktreeRemoveParams) -> (r: Started)
        ensures
            removes_worktree(*self, r, params),
    {
        let target = match self.resolve_peer_worktree_target(Some(params.workspace_id.as_str())) {
            Ok(target) => target,
            Err(error) => {
                return refused(error);
            },
        };
        let connection = match self.resolve_peer_connection(
            target.peer_workspace.as_str(),
            Some(target.handle.as_str()),
        ) {
            Ok(connection) => connection,
            Err(error) => {
                return refused(error);
            },
        };
        let method = Method::WorktreeRemove(
            WorktreeRemoveParams {
                workspace_id: connection.local_target.clone(),
                force: params.force,
            },
        );
        Started::Deferred(
            PeerWork::WorktreeRemove { connection, method, workspace_id: target.workspace_id },
        )
    }
}

/// The peer's own account of the checkout behind a view, as it last enumerated
/// it.
pub open spec fn space_behind(state: AppState, ws_idx: int) -> Option<
    crate::api::schema::workspaces::WorkspaceWorktreeView,
> {
    if 0 <= ws_idx < state.workspaces@.len() {
        let workspace = state.workspaces@[ws_idx];
        match (workspace.peer, workspace.peer_workspace) {
            (Some(peer), Some(peer_workspace)) => match crate::search::find(
                state.peers@,
                crate::app::peers::has_handle(peer@),
            ) {
                Some(peer) => match crate::search::find(
                    peer.workspaces,
                    super::resolve::enumerates(peer_workspace@),
                ) {
                    Some(info) => info.worktree,
                    None => None,
                },
                None => None,
            },
            _ => None,
        }
    } else {
        None
    }
}

/// The peer's account of a checkout in the shape worktree answers use. The branch
/// is absent rather than guessed: an enumeration says which checkout it is, not
/// which ref that checkout has out.
pub open spec fn checkout_behind(app: App, ws_idx: int) -> Option<
    crate::api::schema::worktrees::WorktreeView,
> {
    match space_behind(app.state, ws_idx) {
        Some(space) => Some(
            crate::api::schema::worktrees::WorktreeView {
                path: space.checkout_path,
                branch: None,
                is_bare: false,
                is_detached: false,
                is_prunable: false,
                is_linked_worktree: space.is_linked_worktree,
                open_workspace_id: Some(app.state.workspaces@[ws_idx].public_id@),
                label: space.repo_name,
            },
        ),
        None => None,
    }
}

/// What is known of a checkout once the view holding it is gone: the path.
pub open spec fn removed_checkout(path: Seq<char>) -> crate::api::schema::worktrees::WorktreeView {
    crate::api::schema::worktrees::WorktreeView {
        path,
        branch: None,
        is_bare: false,
        is_detached: false,
        is_prunable: false,
        is_linked_worktree: true,
        open_workspace_id: None,
        label: Seq::empty(),
    }
}

/// A checkout a peer removed, and the view that was closed with it.
#[derive(Debug, PartialEq, Eq)]
pub struct RemovedWorktree {
    /// The id the closed view went by, or the one that was asked for when no view
    /// was left.
    pub workspace_id: String,
    pub path: String,
    pub forced: bool,
    /// What is reported of the checkout.
    pub worktree: WorktreeInfo,
    /// The view that was closed.
    pub closed: Option<Workspace>,
    /// What goes out to subscribers: the closing of the view, when there was one,
    /// and the removal.
    pub events: Vec<Announcement>,
    pub ended: Vec<RuntimeEntry>,
}

/// What a finished removal comes to: the view is closed when it is still there.
pub open spec fn finishes_removal(
    before: App,
    after: App,
    r: Result<RemovedWorktree, ErrorBody>,
    finished: PeerWorktreeRemoveResult,
) -> bool {
    match finished.result {
        Err(error) => r == Err::<RemovedWorktree, ErrorBody>(error) && after == before,
        Ok((path, forced)) => {
            let at = crate::search::first(
                before.state.workspaces@,
                crate::app::state::has_id(finished.workspace_id@),
                0,
            );
            &&& r matches Ok(removed)
            &&& removed.path == path
            &&& removed.forced == forced
            &&& removed.events@ == (match removed.closed {
                Some(closed) => seq![
                    Announcement::WorkspaceClosed { workspace_id: closed.public_id },
                ],
                None => Seq::empty(),
            }).push(
                Announcement::WorktreeRemoved {
                    workspace_id: removed.workspace_id,
                    worktree: removed.worktree,
                    forced,
                },
            )
            &&& if at < before.state.workspaces@.len() {
                let workspace = before.state.workspaces@[at];
                &&& removed.workspace_id == workspace.public_id
                &&& removed.closed == Some(workspace)
                &&& removed.worktree@ == (match checkout_behind(before, at) {
                    Some(worktree) => worktree,
                    None => removed_checkout(path@),
                })
                &&& crate::app::layout::closes_workspace(
                    before,
                    after,
                    at as usize,
                    removed.ended@,
                )
            } else {
                &&& removed.workspace_id == finished.workspace_id
                &&& removed.closed is None
                &&& removed.worktree@ == removed_checkout(path@)
                &&& removed.ended@.len() == 0
                &&& after == before
            }
        },
    }
}

impl AppState {
    /// The peer's own account of the worktree the workspace behind a view sits
    /// in, as the peer reported it when enumerating.
    ///
    /// Reading it costs no round trip and stays answerable while the peer is
    /// down.
    pub fn peer_view_worktree_space(&self, ws_idx: usize) -> (r: Option<&WorkspaceWorktreeInfo>)
        ensures
            match r {
                Some(space) => space_behind(*self, ws_idx as int) == Some(space@),
                None => space_behind(*self, ws_idx as int) is None,
            },
    {
        if ws_idx >= self.workspaces.len() {
            return None;
        }
        let workspace = &self.workspaces[ws_idx];
        let (peer, peer_workspace) = match (&workspace.peer, &workspace.peer_workspace) {
            (Some(peer), Some(peer_workspace)) => (peer, peer_workspace),
            _ => {
                return None;
            },
        };
        let state = match self.peers.get(&PeerHandle::new(peer.as_str())) {
            Some(state) => state,
            None => {
                return None;
            },
        };
        let ghost all = state@.workspaces;
        let ghost p = super::resolve::enumerates(peer_workspace@);
        let mut i: usize = 0;
        while i < state.workspaces.len()
            invariant
                i <= state.workspaces.len(),
                all == state@.workspaces,
                p == super::resolve::enumerates(peer_workspace@),
                crate::search::first(all, p, 0) == crate::search::first(all, p, i as int),
                ws_idx < self.workspaces@.len(),
                self.workspaces@[ws_idx as int].peer == Some(*peer),
                self.workspaces@[ws_idx as int].peer_workspace == Some(*peer_workspace),
                crate::search::find(self.peers@, crate::app::peers::has_handle(peer@)) == Some(
                    state@,
                ),
            decreases state.workspaces.len() - i,
        {
            let info = &state.workspaces[i];
            assert(all[i as int] == info@);
            match split_peer_id(info.workspace_id.as_str()) {
                Some((_, local)) => {
                    if str_eq(local, peer_workspace.as_str()) {
                        return match &info.worktree {
                            Some(worktree) => Some(worktree),
                            None => None,
                        };
                    }
                },
                None => {},
            }
            i += 1;
        }
        None
    }
}

/// What is known about a removed peer checkout once the view holding it is gone.
///
/// The peer no longer has the workspace to describe, and this server never had
/// the checkout, so only the path it reported survives.
pub fn removed_peer_worktree_info(path: &str) -> (r: WorktreeInfo)
    ensures
        r@ == removed_checkout(path@),
{
    let label = String::new();
    assert(label@ =~= Seq::empty());
    WorktreeInfo {
        path: path.to_owned(),
        branch: None,
        is_bare: false,
        is_detached: false,
        is_prunable: false,
        is_linked_worktree: true,
        open_workspace_id: None,
        label,
    }
}

impl App {
    /// The peer's own account of the worktree behind a view, restated in the
    /// shape worktree answers use.
    pub fn peer_view_worktree_info(&self, ws_idx: usize) -> (r: Option<WorktreeInfo>)
        ensures
            match r {
                Some(worktree) => checkout_behind(*self, ws_idx as int) == Some(worktree@),
                None => checkout_behind(*self, ws_idx as int) is None,
            },
    {
        match self.state.peer_view_worktree_space(ws_idx) {
            Some(space) => Some(
                WorktreeInfo {
                    path: space.checkout_path.clone(),
                    branch: None,
                    is_bare: false,
                    is_detached: false,
                    is_prunable: false,
                    is_linked_worktree: space.is_linked_worktree,
                    open_workspace_id: Some(self.state.workspaces[ws_idx].public_id.clone()),
                    label: space.repo_name.clone(),
                },
            ),
            None => None,
        }
    }

    /// Opens the view onto the worktree workspace a peer just created or opened.
    ///
    /// The ordinary open path, so this view reconnects, dedupes and reports
    /// exactly like one opened from the picker; only the answer differs.
    pub fn handle_peer_worktree_view_finished(&mut self, finished: PeerWorktreeViewResult) -> (r:
        Started)
        ensures
            match finished.result {
                Err(error) => r == Started::Answered(Reply::Error(error)) && *final(self) == *old(
                    self,
                ),
                Ok((pane, answer)) => super::forward::opens_workspace(
                    *old(self),
                    *final(self),
                    r,
                    pane@,
                    Some(finished.handle@),
                    finished.label,
                    true,
                    finished.focus,
                    false,
                    Some(answer),
                ),
            },
    {
        match finished.result {
            Err(error) => Started::Answered(Reply::Error(error)),
            Ok((pane, answer)) => self.start_peer_created_open(
                pane,
                finished.handle.as_str(),
                finished.label,
                finished.focus,
                Some(answer),
            ),
        }
    }

    /// Closes the view whose checkout a peer just removed.
    ///
    /// The workspace list can change while the peer round trip is in flight, so
    /// the view is found again by id. Its pane is gone on the peer either way, so
    /// a view that is still here is closed rather than left to rediscover that on
    /// its own.
    pub fn handle_peer_worktree_remove_finished(&mut self, finished: PeerWorktreeRemoveResult) -> (r:
        Result<RemovedWorktree, ErrorBody>)
        ensures
            finishes_removal(*old(self), *final(self), r, finished),
    {
        let (path, forced) = match finished.result {
            Ok(removed) => removed,
            Err(error) => {
                return Err(error);
            },
        };
        match self.workspace_position(finished.workspace_id.as_str()) {
            Some(ws_idx) => {
                let worktree = match self.peer_view_worktree_info(ws_idx) {
                    Some(worktree) => worktree,
                    None => removed_peer_worktree_info(path.as_str()),
                };
                let (closed, ended) = self.close_workspace(ws_idx);
                let workspace_id = closed.public_id.clone();
                let mut events: Vec<Announcement> = Vec::new();
                events.push(
                    Announcement::WorkspaceClosed { workspace_id: closed.public_id.clone() },
                );
                events.push(
                    Announcement::WorktreeRemoved {
                        workspace_id: workspace_id.clone(),
                        worktree: worktree.clone(),
                        forced,
                    },
                );
                Ok(
                    RemovedWorktree {
                        workspace_id,
                        path,
                        forced,
                        worktree,
                        closed: Some(closed),
                        events,
                        ended,
                    },
                )
            },
            None => {
                let worktree = removed_peer_worktree_info(path.as_str());
                let mut events: Vec<Announcement> = Vec::new();
                events.push(
                    Announcement::WorktreeRemoved {
                        workspace_id: finished.workspace_id.clone(),
                        worktree: worktree.clone(),
                        forced,
                    },
                );
                Ok(
                    RemovedWorktree {
                        workspace_id: finished.workspace_id,
                        path,
                        forced,
                        worktree,
                        closed: None,
                        events,
                        ended: Vec::new(),
                    },
                )
            },
        }
    }
}

} // verus!
