//! Changes the user asks for at the screen.
//!
//! A request over the socket is tested for whether a peer owns its target before
//! it is handled here. What the screen asks for passes through the same test, so
//! that a new tab in a workspace that views a peer is made on the peer.

use vstd::prelude::*;

use crate::api::schema::peers::PeerWorkspaceOpenParams;
use crate::api::schema::requests::{
    Method, PaneSplitParams, PaneTarget, Request, TabCreateParams, TabRenameParams, TabTarget,
    WorkspaceCreateParams, WorkspaceRenameParams, WorkspaceTarget, WorktreeCreateParams,
    WorktreeOpenParams, WorktreeRemoveParams,
};
use crate::api::schema::responses::ErrorBody;
use crate::app::api::peers::forward::Started;
use crate::app::state::App;
use crate::json::{as_str, get, parse};

verus! {

/// What a change produced here.
///
/// [`Self::Accepted`] is not a success: the request went to the peer that owns its
/// target, which answers later.
#[derive(Debug, PartialEq, Eq)]
pub enum RuntimeMutation {
    /// Answered by this server: the serialized answer.
    Answered(String),
    /// Routed to the peer that owns the target.
    Accepted,
}

impl Clone for RuntimeMutation {
    fn clone(&self) -> (r: Self)
        ensures
            r == *self,
    {
        match self {
            RuntimeMutation::Answered(response) => RuntimeMutation::Answered(response.clone()),
            RuntimeMutation::Accepted => RuntimeMutation::Accepted,
        }
    }
}

impl RuntimeMutation {
    /// The answer this server produced, or none when a peer owes one.
    pub fn answered(&self) -> (r: Option<&str>)
        ensures
            match self {
                RuntimeMutation::Answered(response) => r is Some && r->0@ == response@,
                RuntimeMutation::Accepted => r is None,
            },
    {
        match self {
            RuntimeMutation::Answered(response) => Some(response.as_str()),
            RuntimeMutation::Accepted => None,
        }
    }
}

/// Where a change goes.
#[derive(Debug, PartialEq, Eq)]
pub enum Dispatched {
    /// It is handled here.
    Local(Request),
    /// A peer owns its target.
    Peer(Started),
}

/// The failure a forwarded answer tells of, if it does.
pub open spec fn failure_in(value: crate::json::Json) -> Option<Seq<char>> {
    match value.member("error"@) {
        None => None,
        Some(error) => Some(
            match error.text_member("message"@) {
                Some(message) => message,
                None => "the peer refused the request"@,
            },
        ),
    }
}

/// The failure a forwarded answer tells of, if it does. What is not JSON tells of
/// none.
pub open spec fn forward_failure(response: Seq<char>) -> Option<Seq<char>> {
    if response.len() == 0 {
        None
    } else {
        match crate::json::parsed(response) {
            Ok(value) => failure_in(value),
            Err(_) => None,
        }
    }
}

/// The failure a forwarded answer tells of, if it does.
pub fn failure_message(value: &serde_json::Value) -> (r: Option<String>)
    ensures
        crate::text::opt_view(r) == failure_in(crate::json::json(*value)),
{
    let error = match get(value, "error") {
        Some(error) => error,
        None => {
            return None;
        },
    };
    let message = match get(error, "message") {
        Some(message) => match as_str(message) {
            Some(message) => message,
            None => "the peer refused the request",
        },
        None => "the peer refused the request",
    };
    Some(message.to_owned())
}

/// The failure in a peer's answer, if it failed. A success needs no telling: the
/// peer's own events show it.
pub fn peer_forward_error_message(response: &str) -> (r: Option<String>)
    ensures
        crate::text::opt_view(r) == forward_failure(response@),
{
    if response.is_empty() {
        return None;
    }
    match parse(response) {
        Ok(value) => failure_message(&value),
        Err(_) => None,
    }
}

/// The request a change stands for.
pub open spec fn is_request(request: Request, id: Seq<char>, method: Method) -> bool {
    request.id@ == id && request.method == method
}

/// What a change comes to.
pub open spec fn dispatches(
    before: App,
    after: App,
    r: Dispatched,
    id: Seq<char>,
    method: Method,
    launch_env: Result<Vec<(String, String)>, ErrorBody>,
) -> bool {
    if crate::app::api::peers::forward::targets_peer_workspace(before, method) {
        r is Peer && crate::app::api::peers::forward::dispatches_workspace(
            before,
            after,
            r->Peer_0,
            method,
            launch_env,
        )
    } else {
        stays_here(before, after, r, id, method)
    }
}

/// The change is handled here, and nothing was done yet.
pub open spec fn stays_here(
    before: App,
    after: App,
    r: Dispatched,
    id: Seq<char>,
    method: Method,
) -> bool {
    after == before && r is Local && is_request(r->Local_0, id, method)
}

impl App {
    /// Runs a change the user asked for, routing it to a peer when the workspace
    /// it targets is a view onto one.
    pub fn dispatch_runtime_mutation(
        &mut self,
        id: &str,
        method: Method,
        launch_env: Result<Vec<(String, String)>, ErrorBody>,
    ) -> (r: Dispatched)
        ensures
            dispatches(*old(self), *final(self), r, id@, method, launch_env),
    {
        let request = Request { id: id.to_owned(), method };
        if !self.request_targets_peer_workspace(&request) {
            return Dispatched::Local(request);
        }
        Dispatched::Peer(
            self.handle_deferred_peer_workspace_api_request(request.method, launch_env),
        )
    }

    /// Runs a change that never concerns a peer.
    fn dispatch_here(&mut self, id: &str, method: Method) -> (r: Dispatched)
        requires
            !crate::app::api::peers::forward::targets_peer_workspace(*old(self), method),
        ensures
            stays_here(*old(self), *final(self), r, id@, method),
    {
        self.dispatch_runtime_mutation(id, method, Ok(Vec::new()))
    }

    /// Focuses a workspace.
    pub fn runtime_workspace_focus(
        &mut self,
        id: &str,
        workspace_id: String,
        launch_env: Result<Vec<(String, String)>, ErrorBody>,
    ) -> (r: Dispatched)
        ensures
            dispatches(
                *old(self),
                *final(self),
                r,
                id@,
                Method::WorkspaceFocus(WorkspaceTarget { workspace_id }),
                launch_env,
            ),
    {
        self.dispatch_runtime_mutation(
            id,
            Method::WorkspaceFocus(WorkspaceTarget { workspace_id }),
            launch_env,
        )
    }

    /// Creates a workspace.
    pub fn runtime_workspace_create(
        &mut self,
        id: &str,
        params: WorkspaceCreateParams,
        launch_env: Result<Vec<(String, String)>, ErrorBody>,
    ) -> (r: Dispatched)
        ensures
            dispatches(
                *old(self),
                *final(self),
                r,
                id@,
                Method::WorkspaceCreate(params),
                launch_env,
            ),
    {
        self.dispatch_runtime_mutation(id, Method::WorkspaceCreate(params), launch_env)
    }

    /// Renames a workspace.
    pub fn runtime_workspace_rename(
        &mut self,
        id: &str,
        params: WorkspaceRenameParams,
        launch_env: Result<Vec<(String, String)>, ErrorBody>,
    ) -> (r: Dispatched)
        ensures
            dispatches(
                *old(self),
                *final(self),
                r,
                id@,
                Method::WorkspaceRename(params),
                launch_env,
            ),
    {
        self.dispatch_runtime_mutation(id, Method::WorkspaceRename(params), launch_env)
    }

    /// Closes a workspace.
    pub fn runtime_workspace_close(
        &mut self,
        id: &str,
        workspace_id: String,
        launch_env: Result<Vec<(String, String)>, ErrorBody>,
    ) -> (r: Dispatched)
        ensures
            dispatches(
                *old(self),
                *final(self),
                r,
                id@,
                Method::WorkspaceClose(WorkspaceTarget { workspace_id }),
                launch_env,
            ),
    {
        self.dispatch_runtime_mutation(
            id,
            Method::WorkspaceClose(WorkspaceTarget { workspace_id }),
            launch_env,
        )
    }

    /// Creates a tab.
    pub fn runtime_tab_create(
        &mut self,
        id: &str,
        params: TabCreateParams,
        launch_env: Result<Vec<(String, String)>, ErrorBody>,
    ) -> (r: Dispatched)
        ensures
            dispatches(*old(self), *final(self), r, id@, Method::TabCreate(params), launch_env),
    {
        self.dispatch_runtime_mutation(id, Method::TabCreate(params), launch_env)
    }

    /// Renames a tab.
    pub fn runtime_tab_rename(
        &mut self,
        id: &str,
        params: TabRenameParams,
        launch_env: Result<Vec<(String, String)>, ErrorBody>,
    ) -> (r: Dispatched)
        ensures
            dispatches(*old(self), *final(self), r, id@, Method::TabRename(params), launch_env),
    {
        self.dispatch_runtime_mutation(id, Method::TabRename(params), launch_env)
    }

    /// Closes a pane.
    pub fn runtime_pane_close(
        &mut self,
        id: &str,
        pane_id: String,
        launch_env: Result<Vec<(String, String)>, ErrorBody>,
    ) -> (r: Dispatched)
        ensures
            dispatches(
                *old(self),
                *final(self),
                r,
                id@,
                Method::PaneClose(PaneTarget { pane_id }),
                launch_env,
            ),
    {
        self.dispatch_runtime_mutation(id, Method::PaneClose(PaneTarget { pane_id }), launch_env)
    }

    /// Opens a worktree.
    pub fn runtime_worktree_open(
        &mut self,
        id: &str,
        params: WorktreeOpenParams,
        launch_env: Result<Vec<(String, String)>, ErrorBody>,
    ) -> (r: Dispatched)
        ensures
            dispatches(*old(self), *final(self), r, id@, Method::WorktreeOpen(params), launch_env),
    {
        self.dispatch_runtime_mutation(id, Method::WorktreeOpen(params), launch_env)
    }

    /// Opens a view onto a workspace of a peer.
    pub fn runtime_peer_workspace_open(
        &mut self,
        id: &str,
        params: PeerWorkspaceOpenParams,
        launch_env: Result<Vec<(String, String)>, ErrorBody>,
    ) -> (r: Dispatched)
        ensures
            dispatches(
                *old(self),
                *final(self),
                r,
                id@,
                Method::PeerWorkspaceOpen(params),
                launch_env,
            ),
    {
        self.dispatch_runtime_mutation(id, Method::PeerWorkspaceOpen(params), launch_env)
    }

    /// Moves a workspace in the list.
    pub fn runtime_workspace_move(&mut self, id: &str, params: String) -> (r: Dispatched)
        ensures
            stays_here(*old(self), *final(self), r, id@, Method::WorkspaceMove(params)),
    {
        self.dispatch_here(id, Method::WorkspaceMove(params))
    }

    /// Moves a block of workspaces in the list.
    pub fn runtime_workspace_move_block(&mut self, id: &str, params: String) -> (r: Dispatched)
        ensures
            stays_here(*old(self), *final(self), r, id@, Method::WorkspaceMoveBlock(params)),
    {
        self.dispatch_here(id, Method::WorkspaceMoveBlock(params))
    }

    /// Focuses a tab.
    pub fn runtime_tab_focus(&mut self, id: &str, tab_id: String) -> (r: Dispatched)
        ensures
            stays_here(*old(self), *final(self), r, id@, Method::TabFocus(TabTarget { tab_id })),
    {
        self.dispatch_here(id, Method::TabFocus(TabTarget { tab_id }))
    }

    /// Moves a tab.
    pub fn runtime_tab_move(&mut self, id: &str, params: String) -> (r: Dispatched)
        ensures
            stays_here(*old(self), *final(self), r, id@, Method::TabMove(params)),
    {
        self.dispatch_here(id, Method::TabMove(params))
    }

    /// Closes a tab.
    pub fn runtime_tab_close(&mut self, id: &str, tab_id: String) -> (r: Dispatched)
        ensures
            stays_here(*old(self), *final(self), r, id@, Method::TabClose(TabTarget { tab_id })),
    {
        self.dispatch_here(id, Method::TabClose(TabTarget { tab_id }))
    }

    /// Reads the configuration again.
    pub fn runtime_server_reload_config(&mut self, id: &str) -> (r: Dispatched)
        ensures
            stays_here(*old(self), *final(self), r, id@, Method::ServerReloadConfig),
    {
        self.dispatch_here(id, Method::ServerReloadConfig)
    }

    /// Focuses a pane.
    pub fn runtime_pane_focus(&mut self, id: &str, pane_id: String) -> (r: Dispatched)
        ensures
            stays_here(*old(self), *final(self), r, id@, Method::PaneFocus(PaneTarget { pane_id })),
    {
        self.dispatch_here(id, Method::PaneFocus(PaneTarget { pane_id }))
    }

    /// Renames a pane.
    pub fn runtime_pane_rename(&mut self, id: &str, params: String) -> (r: Dispatched)
        ensures
            stays_here(*old(self), *final(self), r, id@, Method::PaneRename(params)),
    {
        self.dispatch_here(id, Method::PaneRename(params))
    }

    /// Sets what a pane does with input.
    pub fn runtime_pane_input_set(&mut self, id: &str, params: String) -> (r: Dispatched)
        ensures
            stays_here(*old(self), *final(self), r, id@, Method::PaneInputSet(params)),
    {
        self.dispatch_here(id, Method::PaneInputSet(params))
    }

    /// Focuses the pane that lies in a direction.
    pub fn runtime_pane_focus_direction(&mut self, id: &str, params: String) -> (r: Dispatched)
        ensures
            stays_here(*old(self), *final(self), r, id@, Method::PaneFocusDirection(params)),
    {
        self.dispatch_here(id, Method::PaneFocusDirection(params))
    }

    /// Resizes a pane.
    pub fn runtime_pane_resize(&mut self, id: &str, params: String) -> (r: Dispatched)
        ensures
            stays_here(*old(self), *final(self), r, id@, Method::PaneResize(params)),
    {
        self.dispatch_here(id, Method::PaneResize(params))
    }

    /// Swaps two panes.
    pub fn runtime_pane_swap(&mut self, id: &str, params: String) -> (r: Dispatched)
        ensures
            stays_here(*old(self), *final(self), r, id@, Method::PaneSwap(params)),
    {
        self.dispatch_here(id, Method::PaneSwap(params))
    }

    /// Zooms a pane.
    pub fn runtime_pane_zoom(&mut self, id: &str, params: String) -> (r: Dispatched)
        ensures
            stays_here(*old(self), *final(self), r, id@, Method::PaneZoom(params)),
    {
        self.dispatch_here(id, Method::PaneZoom(params))
    }

    /// Moves the border of a split.
    pub fn runtime_layout_set_split_ratio(&mut self, id: &str, params: String) -> (r: Dispatched)
        ensures
            stays_here(*old(self), *final(self), r, id@, Method::LayoutSetSplitRatio(params)),
    {
        self.dispatch_here(id, Method::LayoutSetSplitRatio(params))
    }

    /// A change whose work is done beside the loop: the request that asks for it.
    pub fn dispatch_deferred_runtime_mutation(&self, id: &str, method: Method) -> (r: Request)
        ensures
            is_request(r, id@, method),
    {
        Request { id: id.to_owned(), method }
    }

    /// Creates a worktree, beside the loop.
    pub fn runtime_worktree_create_deferred(
        &self,
        id: &str,
        params: WorktreeCreateParams,
    ) -> (r: Request)
        ensures
            is_request(r, id@, Method::WorktreeCreate(params)),
    {
        self.dispatch_deferred_runtime_mutation(id, Method::WorktreeCreate(params))
    }

    /// Removes a worktree, beside the loop.
    pub fn runtime_worktree_remove_deferred(
        &self,
        id: &str,
        params: WorktreeRemoveParams,
    ) -> (r: Request)
        ensures
            is_request(r, id@, Method::WorktreeRemove(params)),
    {
        self.dispatch_deferred_runtime_mutation(id, Method::WorktreeRemove(params))
    }

    /// Splits a pane. What decides here is the pane, not the workspace: a split
    /// targets a local pane that happens to show a peer's.
    pub fn runtime_pane_split(
        &mut self,
        id: &str,
        params: PaneSplitParams,
        launch_env: Result<Vec<(String, String)>, ErrorBody>,
        owner: Option<String>,
    ) -> (r: Dispatched)
        ensures
            if crate::app::api::peers::panes::targets_peer_pane(
                *old(self),
                Method::PaneSplit(params),
            ) {
                *final(self) == *old(self) && r is Peer
                    && crate::app::api::peers::panes::dispatches_pane(
                    *old(self),
                    r->Peer_0,
                    Method::PaneSplit(params),
                    launch_env,
                    owner,
                )
            } else {
                stays_here(*old(self), *final(self), r, id@, Method::PaneSplit(params))
            },
    {
        let request = Request { id: id.to_owned(), method: Method::PaneSplit(params) };
        if !self.request_targets_peer_pane(&request) {
            return self.dispatch_runtime_mutation(id, request.method, launch_env);
        }
        Dispatched::Peer(
            self.handle_deferred_peer_pane_api_request(request.method, launch_env, owner),
        )
    }
}

/// A request the screen makes goes to a peer exactly when the same request over
/// the socket would.
pub proof fn law_both_entry_points_route_alike(
    before: App,
    after: App,
    r: Dispatched,
    id: Seq<char>,
    method: Method,
    launch_env: Result<Vec<(String, String)>, ErrorBody>,
)
    requires
        dispatches(before, after, r, id, method, launch_env),
    ensures
        (r is Peer) == crate::app::api::peers::forward::targets_peer_workspace(before, method),
        r is Local ==> after == before && (r->Local_0).method == method,
{
}

} // verus!
