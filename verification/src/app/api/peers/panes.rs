//! Requests on panes that a peer owns.
//!
//! The peer holds the screen, so it is the only side that can split, read,
//! search or explain one of its panes. Answered here, a read would come back
//! empty, which says "the pane is blank" rather than "the screen is elsewhere".

use vstd::prelude::*;

use crate::api::schema::requests::{
    AgentReadParams, AgentTarget, Direction, Method, PaneReadParams, PaneReadRangeParams,
    PaneSplitParams, PaneTextQueryParams, Request, SplitDirection,
};
use crate::api::schema::responses::ErrorBody;
use crate::app::api::peers::forward::{opt_str, refused, PeerWork, Reply, Restate, Started};
use crate::app::api::peers::resolve::PeerConnection;
use crate::app::api::peers::rewrite::LocalPaneIds;
use crate::app::peers::PeerHandle;
use crate::app::state::{App, PaneId, PaneKey};

verus! {

/// The pane a split divides: the named one, else the focused one of the named
/// or the active workspace.
pub open spec fn split_target(app: App, params: PaneSplitParams) -> Option<(int, PaneId)> {
    match params.target_pane_id {
        Some(id) => crate::app::state::located(
            app.state.workspaces@,
            crate::app::state::PaneKeyView::Public(id@),
        ),
        None => match super::resolve::tab_workspace(
            app,
            crate::text::opt_view(params.workspace_id),
        ) {
            Some(at) => if at < app.state.workspaces@.len() {
                match app.state.workspaces@[at as int].focused_pane {
                    Some(pane) => Some((at as int, pane)),
                    None => None,
                }
            } else {
                None
            },
            None => None,
        },
    }
}

/// The pane an agent runs in.
pub open spec fn agent_pane(app: App, name: Seq<char>) -> Option<(int, PaneId)> {
    match crate::search::find(app.state.agents@, crate::app::state::agent_named(name)) {
        Some(agent) => Some((agent.ws_idx as int, agent.pane_id)),
        None => None,
    }
}

/// The pane a request is about.
pub open spec fn pane_of(app: App, method: Method) -> Option<(int, PaneId)> {
    match method {
        Method::PaneSplit(params) => split_target(app, params),
        Method::PaneRead(params) => named_pane(app, params.pane_id@),
        Method::PaneReadRange(params) => named_pane(app, params.pane_id@),
        Method::PaneTextQuery(params) => named_pane(app, params.pane_id@),
        Method::AgentRead(params) => agent_pane(app, params.target@),
        Method::AgentExplain(target) => agent_pane(app, target.target@),
        _ => None,
    }
}

/// The pane that clients know by this id.
pub open spec fn named_pane(app: App, id: Seq<char>) -> Option<(int, PaneId)> {
    crate::app::state::located(
        app.state.workspaces@,
        crate::app::state::PaneKeyView::Public(id),
    )
}

/// The request operates on a pane that a peer owns.
pub open spec fn targets_peer_pane(app: App, method: Method) -> bool {
    match pane_of(app, method) {
        Some((at, pane)) => super::resolve::pane_source(app, at, pane) is Some,
        None => false,
    }
}

/// How to reach the peer behind a pane, or why not: the pane must be backed by a
/// peer, by the server that answers there now, and that must be reachable.
pub open spec fn pane_reach(app: App, at: int, pane: PaneId) -> Result<
    (Seq<char>, super::resolve::ReachView),
    (Seq<char>, Seq<char>),
> {
    match super::resolve::pane_source(app, at, pane) {
        None => Err(("pane_not_found"@, "pane is not backed by a peer"@)),
        Some((handle, target)) => match super::resolve::server_mismatch(app, at, pane) {
            Some(error) => Err(error),
            None => match super::resolve::reach(app.state.peers@, target, Some(handle)) {
                Ok(reached) => Ok((handle, reached)),
                Err(error) => Err(error),
            },
        },
    }
}

/// The contents of what reaching a pane's peer gives.
pub open spec fn pane_reach_view(r: Result<(PeerHandle, PeerConnection), ErrorBody>) -> Result<
    (Seq<char>, super::resolve::ReachView),
    (Seq<char>, Seq<char>),
> {
    match r {
        Ok((handle, connection)) => Ok((handle@, connection@)),
        Err(error) => Err(error@),
    }
}

/// No pane is known by that id.
pub open spec fn no_pane() -> (Seq<char>, Seq<char>) {
    ("pane_not_found"@, "pane not found"@)
}

/// How a layout is divided for a split to that side.
pub open spec fn layout_direction(direction: SplitDirection) -> Direction {
    match direction {
        SplitDirection::Right => Direction::Horizontal,
        SplitDirection::Down => Direction::Vertical,
    }
}

/// What splitting a peer's pane comes to. Only the direction and the directory
/// carry over to the peer; focus and the ratio stay local, and the peer records
/// the pane as this server's.
pub open spec fn splits_pane(
    app: App,
    started: Started,
    wanted: PaneSplitParams,
    launch_env: Result<Vec<(String, String)>, ErrorBody>,
    owner: Option<String>,
) -> bool {
    match split_target(app, wanted) {
        None => started.refuses(no_pane()),
        Some((at, pane)) => match super::resolve::pane_source(app, at, pane) {
            None => started.refuses(("pane_not_found"@, "pane is not backed by a peer"@)),
            Some((peer, target)) => match super::resolve::server_mismatch(app, at, pane) {
                Some(error) => started.refuses(error),
                None => if launch_env is Err {
                    started.refuses(launch_env->Err_0@)
                } else {
                    match super::resolve::reach(app.state.peers@, target, Some(peer)) {
                        Err(error) => started.refuses(error),
                        Ok(reached) => {
                            &&& started matches Started::Deferred(
                                PeerWork::SplitPane {
                                    connection,
                                    handle,
                                    method,
                                    workspace_id,
                                    target_pane,
                                    direction,
                                    ratio,
                                    focus,
                                    size,
                                },
                            )
                            &&& connection@ == reached
                            &&& handle@ == peer
                            &&& workspace_id == app.state.workspaces@[at].id
                            &&& target_pane == pane
                            &&& direction == layout_direction(wanted.direction)
                            &&& ratio == wanted.ratio
                            &&& focus == wanted.focus
                            &&& size == app.state.pane_size
                            &&& method matches Method::PaneSplit(sent)
                            &&& crate::text::opt_view(sent.target_pane_id) == Some(
                                reached.local_target,
                            )
                            &&& sent == (PaneSplitParams {
                                workspace_id: None,
                                target_pane_id: sent.target_pane_id,
                                direction: wanted.direction,
                                right_click: wanted.right_click,
                                ratio: None,
                                cwd: wanted.cwd,
                                focus: false,
                                env: launch_env->Ok_0,
                                owner_instance_id: owner,
                            })
                        },
                    }
                },
            },
        },
    }
}

/// The ids this server knows a pane by.
pub open spec fn ids_of(app: App, at: int, pane: PaneId, ids: LocalPaneIds) -> bool {
    let workspace = app.state.workspaces@[at];
    let key = crate::app::state::PaneKeyView::Id(pane);
    &&& 0 <= at < app.state.workspaces@.len()
    &&& crate::app::state::workspace_has(key)(workspace)
    &&& ids.pane_id == (crate::app::state::pane_in(workspace, key)->0).public_id
    &&& ids.workspace_id == workspace.public_id
    &&& ids.tab_id == (crate::search::find(
        workspace.tabs@,
        crate::app::state::tab_has(key),
    )->0).public_id
}

/// What reading a peer's pane comes to: the same read under the peer's own id,
/// its answer restated in the ids the pane is known by here.
pub open spec fn reads_pane(app: App, started: Started, pane_id: Seq<char>, options: Seq<char>) -> bool {
    match named_pane(app, pane_id) {
        None => started.refuses(no_pane()),
        Some((at, pane)) => match pane_reach(app, at, pane) {
            Err(error) => started.refuses(error),
            Ok((handle, reached)) => {
                &&& started matches Started::Deferred(
                    PeerWork::Forward { connection, method, restate },
                )
                &&& connection@ == reached
                &&& method matches Method::PaneRead(sent)
                &&& sent.pane_id@ == reached.local_target
                &&& sent.options@ == options
                &&& restate matches Restate::Read(ids)
                &&& ids_of(app, at, pane, ids)
            },
        },
    }
}

/// The answer's `result.<field>` names the pane that clients know by this id.
pub open spec fn restates_pane(restate: Restate, name: Seq<char>, pane_id: Seq<char>) -> bool {
    restate matches Restate::Pane { field, local_pane_id } && field@ == name && local_pane_id@
        == pane_id
}

/// What reading a span of a peer's pane comes to. The rows travel unchanged:
/// they already name rows in the peer's own buffer.
pub open spec fn reads_range(app: App, started: Started, wanted: PaneReadRangeParams) -> bool {
    match named_pane(app, wanted.pane_id@) {
        None => started.refuses(no_pane()),
        Some((at, pane)) => match pane_reach(app, at, pane) {
            Err(error) => started.refuses(error),
            Ok((handle, reached)) => {
                &&& started matches Started::Deferred(
                    PeerWork::Forward { connection, method, restate },
                )
                &&& connection@ == reached
                &&& method matches Method::PaneReadRange(sent)
                &&& sent.pane_id@ == reached.local_target
                &&& sent.options == wanted.options
                &&& restates_pane(restate, "read"@, public_id_of(app, at, pane))
            },
        },
    }
}

/// What a text query on a peer's pane comes to.
pub open spec fn queries_text(app: App, started: Started, wanted: PaneTextQueryParams) -> bool {
    match named_pane(app, wanted.pane_id@) {
        None => started.refuses(no_pane()),
        Some((at, pane)) => match pane_reach(app, at, pane) {
            Err(error) => started.refuses(error),
            Ok((handle, reached)) => {
                &&& started matches Started::Deferred(
                    PeerWork::Forward { connection, method, restate },
                )
                &&& connection@ == reached
                &&& method matches Method::PaneTextQuery(sent)
                &&& sent.pane_id@ == reached.local_target
                &&& sent.options == wanted.options
                &&& restates_pane(restate, "query"@, public_id_of(app, at, pane))
            },
        },
    }
}

/// The id that clients know a pane by.
pub open spec fn public_id_of(app: App, at: int, pane: PaneId) -> Seq<char> {
    (crate::app::state::pane_in(
        app.state.workspaces@[at],
        crate::app::state::PaneKeyView::Id(pane),
    )->0).public_id@
}

/// What reading for an agent named here comes to: the name becomes a pane id and
/// the read takes the pane path from there.
pub open spec fn reads_agent(app: App, started: Started, wanted: AgentReadParams) -> bool {
    match agent_pane(app, wanted.target@) {
        None => started == Started::Answered(Reply::AgentNotFound { target: wanted.target }),
        Some((at, pane)) => if 0 <= at < app.state.workspaces@.len()
            && crate::app::state::workspace_has(crate::app::state::PaneKeyView::Id(pane))(
            app.state.workspaces@[at],
        ) {
            reads_pane(app, started, public_id_of(app, at, pane), wanted.options@)
        } else {
            started == Started::Answered(Reply::AgentNotFound { target: wanted.target })
        },
    }
}

/// What explaining an agent in a peer's pane comes to: the peer ran the rules, so
/// the peer explains, and its answer says whose it is.
pub open spec fn explains_agent(app: App, started: Started, wanted: AgentTarget) -> bool {
    match agent_pane(app, wanted.target@) {
        None => started == Started::Answered(Reply::AgentNotFound { target: wanted.target }),
        Some((at, pane)) => if super::resolve::pane_source(app, at, pane) is None {
            started == Started::Answered(Reply::AgentNotFound { target: wanted.target })
        } else {
            match pane_reach(app, at, pane) {
                Err(error) => started.refuses(error),
                Ok((handle, reached)) => {
                    &&& started matches Started::Deferred(
                        PeerWork::Forward { connection, method, restate },
                    )
                    &&& connection@ == reached
                    &&& method matches Method::AgentExplain(sent)
                    &&& sent.target@ == reached.local_target
                    &&& restate matches Restate::Explain { peer, peer_pane_id }
                    &&& peer@ == handle
                    &&& peer_pane_id@ == reached.local_target
                },
            }
        },
    }
}

/// What a request that targets a peer pane comes to.
pub open spec fn dispatches_pane(
    app: App,
    started: Started,
    method: Method,
    launch_env: Result<Vec<(String, String)>, ErrorBody>,
    owner: Option<String>,
) -> bool {
    match method {
        Method::PaneSplit(params) => splits_pane(app, started, params, launch_env, owner),
        Method::PaneRead(params) => reads_pane(app, started, params.pane_id@, params.options@),
        Method::PaneReadRange(params) => reads_range(app, started, params),
        Method::PaneTextQuery(params) => queries_text(app, started, params),
        Method::AgentRead(params) => reads_agent(app, started, params),
        Method::AgentExplain(target) => explains_agent(app, started, target),
        _ => started.refuses(("invalid_request"@, "request does not target a peer pane"@)),
    }
}

impl App {
    /// The pane a split divides.
    pub fn resolve_pane_split_target(&self, params: &PaneSplitParams) -> (r: Option<
        (usize, PaneId),
    >)
        ensures
            match r {
                Some((at, pane)) => split_target(*self, *params) == Some((at as int, pane)),
                None => split_target(*self, *params) is None,
            },
    {
        match &params.target_pane_id {
            Some(id) => self.parse_pane_id(id.as_str()),
            None => match self.workspace_index_for_tab_create(opt_str(&params.workspace_id)) {
                Some(at) => if at < self.state.workspaces.len() {
                    match self.state.workspaces[at].focused_pane {
                        Some(pane) => Some((at, pane)),
                        None => None,
                    }
                } else {
                    None
                },
                None => None,
            },
        }
    }

    /// Whether a request operates on a pane that a peer owns.
    ///
    /// Unlike the workspace-level check this needs more than the id: the target
    /// pane is named by a local id and only its runtime says whether it is
    /// remote.
    pub fn request_targets_peer_pane(&self, request: &Request) -> (r: bool)
        ensures
            r == targets_peer_pane(*self, request.method),
    {
        let target = match &request.method {
            Method::PaneSplit(params) => self.resolve_pane_split_target(params),
            Method::PaneRead(params) => self.parse_pane_id(params.pane_id.as_str()),
            Method::PaneReadRange(params) => self.parse_pane_id(params.pane_id.as_str()),
            Method::PaneTextQuery(params) => self.parse_pane_id(params.pane_id.as_str()),
            Method::AgentRead(params) => self.resolve_agent_target(params.target.as_str()),
            Method::AgentExplain(target) => self.resolve_agent_target(target.target.as_str()),
            _ => {
                return false;
            },
        };
        match target {
            Some((at, pane)) => self.peer_pane_source(at, pane).is_some(),
            None => false,
        }
    }

    /// The peer behind a pane and how to reach it.
    pub fn reach_pane(&self, ws_idx: usize, pane_id: PaneId) -> (r: Result<
        (PeerHandle, PeerConnection),
        ErrorBody,
    >)
        ensures
            pane_reach_view(r) == pane_reach(*self, ws_idx as int, pane_id),
    {
        let (handle, peer_pane_id) = match self.peer_pane_source(ws_idx, pane_id) {
            Some(source) => source,
            None => {
                return Err(ErrorBody::of("pane_not_found", "pane is not backed by a peer"));
            },
        };
        match self.peer_pane_server_mismatch(ws_idx, pane_id) {
            Some(error) => {
                return Err(error);
            },
            None => {},
        }
        match self.resolve_peer_connection(peer_pane_id.as_str(), Some(handle.as_str())) {
            Ok(connection) => Ok((handle, connection)),
            Err(error) => Err(error),
        }
    }

    /// The id that clients know a pane by.
    pub fn public_pane_id(&self, ws_idx: usize, pane_id: PaneId) -> (r: Option<String>)
        ensures
            match r {
                Some(id) => {
                    &&& ws_idx < self.state.workspaces@.len()
                    &&& crate::app::state::workspace_has(
                        crate::app::state::PaneKeyView::Id(pane_id),
                    )(self.state.workspaces@[ws_idx as int])
                    &&& id@ == public_id_of(*self, ws_idx as int, pane_id)
                },
                None => ws_idx >= self.state.workspaces@.len() || !crate::app::state::workspace_has(
                    crate::app::state::PaneKeyView::Id(pane_id),
                )(self.state.workspaces@[ws_idx as int]),
            },
    {
        if ws_idx >= self.state.workspaces.len() {
            return None;
        }
        match self.state.workspaces[ws_idx].find_pane(&PaneKey::Id(pane_id)) {
            Some(pane) => Some(pane.public_id.clone()),
            None => None,
        }
    }

    /// The public ids this server knows a pane by, for restating a peer's answer
    /// in local terms.
    pub fn local_read_ids(&self, ws_idx: usize, pane_id: PaneId) -> (r: Option<LocalPaneIds>)
        ensures
            match r {
                Some(ids) => ids_of(*self, ws_idx as int, pane_id, ids),
                None => ws_idx >= self.state.workspaces@.len() || !crate::app::state::workspace_has(
                    crate::app::state::PaneKeyView::Id(pane_id),
                )(self.state.workspaces@[ws_idx as int]),
            },
    {
        if ws_idx >= self.state.workspaces.len() {
            return None;
        }
        let workspace = &self.state.workspaces[ws_idx];
        let tab = workspace.tab_position(&PaneKey::Id(pane_id));
        if tab >= workspace.tabs.len() {
            return None;
        }
        match workspace.find_pane(&PaneKey::Id(pane_id)) {
            Some(pane) => Some(
                LocalPaneIds {
                    pane_id: pane.public_id.clone(),
                    workspace_id: workspace.public_id.clone(),
                    tab_id: workspace.tabs[tab].public_id.clone(),
                },
            ),
            None => None,
        }
    }

    /// Splits a peer-backed pane by spawning a pane on the peer and connecting a
    /// second view onto it.
    ///
    /// `launch_env` is the request's environment once it was held to the local
    /// rules, and `owner` this server's own instance id.
    pub fn start_peer_pane_split(
        &self,
        params: PaneSplitParams,
        launch_env: Result<Vec<(String, String)>, ErrorBody>,
        owner: Option<String>,
    ) -> (r: Started)
        ensures
            splits_pane(*self, r, params, launch_env, owner),
    {
        let (ws_idx, target_pane) = match self.resolve_pane_split_target(&params) {
            Some(target) => target,
            None => {
                return refused(ErrorBody::of("pane_not_found", "pane not found"));
            },
        };
        let (handle, peer_pane_id) = match self.peer_pane_source(ws_idx, target_pane) {
            Some(source) => source,
            None => {
                return refused(ErrorBody::of("pane_not_found", "pane is not backed by a peer"));
            },
        };
        match self.peer_pane_server_mismatch(ws_idx, target_pane) {
            Some(error) => {
                return refused(error);
            },
            None => {},
        }
        let env = match launch_env {
            Ok(env) => env,
            Err(error) => {
                return refused(error);
            },
        };
        let connection = match self.resolve_peer_connection(
            peer_pane_id.as_str(),
            Some(handle.as_str()),
        ) {
            Ok(connection) => connection,
            Err(error) => {
                return refused(error);
            },
        };
        let direction = match params.direction {
            SplitDirection::Right => Direction::Horizontal,
            SplitDirection::Down => Direction::Vertical,
        };
        let method = Method::PaneSplit(
            PaneSplitParams {
                workspace_id: None,
                target_pane_id: Some(connection.local_target.clone()),
                direction: params.direction,
                right_click: params.right_click,
                ratio: None,
                cwd: params.cwd,
                focus: false,
                env,
                owner_instance_id: owner,
            },
        );
        Started::Deferred(
            PeerWork::SplitPane {
                connection,
                handle,
                method,
                workspace_id: self.state.workspaces[ws_idx].id.clone(),
                target_pane,
                direction,
                ratio: params.ratio,
                focus: params.focus,
                size: self.state.pane_size,
            },
        )
    }

    /// Reads a peer-backed pane by asking the peer to read its own.
    ///
    /// The peer answers about its own pane, so the ids it returns name its
    /// workspace, tab, and pane. They are replaced with the local ones captured
    /// here: the caller asked about a pane on this server and has to be able to
    /// use the id it gets back.
    pub fn start_peer_pane_read(&self, params: PaneReadParams) -> (r: Started)
        ensures
            reads_pane(*self, r, params.pane_id@, params.options@),
    {
        let (ws_idx, pane_id) = match self.parse_pane_id(params.pane_id.as_str()) {
            Some(target) => target,
            None => {
                return refused(ErrorBody::of("pane_not_found", "pane not found"));
            },
        };
        let reached = self.reach_pane(ws_idx, pane_id);
        match reached {
            Ok((_, connection)) => match self.local_read_ids(ws_idx, pane_id) {
                Some(local_ids) => {
                    let method = Method::PaneRead(
                        PaneReadParams {
                            pane_id: connection.local_target.clone(),
                            options: params.options,
                        },
                    );
                    Started::Deferred(
                        PeerWork::Forward { connection, method, restate: Restate::Read(local_ids) },
                    )
                },
                None => {
                    proof {
                        lemma_sources_have_panes(*self, ws_idx as int, pane_id);
                    }
                    refused(ErrorBody::of("pane_not_found", "pane not found"))
                },
            },
            Err(error) => refused(error),
        }
    }

    /// Asks the peer for a span of the screen it owns.
    pub fn start_peer_pane_read_range(&self, params: PaneReadRangeParams) -> (r: Started)
        ensures
            reads_range(*self, r, params),
    {
        let (ws_idx, pane_id) = match self.parse_pane_id(params.pane_id.as_str()) {
            Some(target) => target,
            None => {
                return refused(ErrorBody::of("pane_not_found", "pane not found"));
            },
        };
        match self.reach_pane(ws_idx, pane_id) {
            Ok((_, connection)) => match self.public_pane_id(ws_idx, pane_id) {
                Some(local_pane_id) => {
                    let method = Method::PaneReadRange(
                        PaneReadRangeParams {
                            pane_id: connection.local_target.clone(),
                            options: params.options,
                        },
                    );
                    Started::Deferred(
                        PeerWork::Forward {
                            connection,
                            method,
                            restate: Restate::Pane { field: "read".to_owned(), local_pane_id },
                        },
                    )
                },
                None => {
                    proof {
                        lemma_sources_have_panes(*self, ws_idx as int, pane_id);
                    }
                    refused(ErrorBody::of("pane_not_found", "pane not found"))
                },
            },
            Err(error) => refused(error),
        }
    }

    /// Runs a terminal text query on the peer that owns the pane's buffer.
    pub fn start_peer_pane_text_query(&self, params: PaneTextQueryParams) -> (r: Started)
        ensures
            queries_text(*self, r, params),
    {
        let (ws_idx, pane_id) = match self.parse_pane_id(params.pane_id.as_str()) {
            Some(target) => target,
            None => {
                return refused(ErrorBody::of("pane_not_found", "pane not found"));
            },
        };
        match self.reach_pane(ws_idx, pane_id) {
            Ok((_, connection)) => match self.public_pane_id(ws_idx, pane_id) {
                Some(local_pane_id) => {
                    let method = Method::PaneTextQuery(
                        PaneTextQueryParams {
                            pane_id: connection.local_target.clone(),
                            options: params.options,
                        },
                    );
                    Started::Deferred(
                        PeerWork::Forward {
                            connection,
                            method,
                            restate: Restate::Pane { field: "query".to_owned(), local_pane_id },
                        },
                    )
                },
                None => {
                    proof {
                        lemma_sources_have_panes(*self, ws_idx as int, pane_id);
                    }
                    refused(ErrorBody::of("pane_not_found", "pane not found"))
                },
            },
            Err(error) => refused(error),
        }
    }

    /// Reads a peer's screen for an agent named here.
    ///
    /// Resolving the name is local, while the screen behind it is not, so the
    /// name becomes a pane id and the read takes the pane path from there.
    pub fn start_peer_agent_read(&self, params: AgentReadParams) -> (r: Started)
        ensures
            reads_agent(*self, r, params),
    {
        let pane_id = match self.resolve_agent_target(params.target.as_str()) {
            Some((ws_idx, pane)) => self.public_pane_id(ws_idx, pane),
            None => None,
        };
        match pane_id {
            Some(pane_id) => self.start_peer_pane_read(
                PaneReadParams { pane_id, options: params.options },
            ),
            None => Started::Answered(Reply::AgentNotFound { target: params.target }),
        }
    }

    /// Explains a peer-backed pane by asking the peer to explain its own.
    ///
    /// The rules that decided this pane's agent state ran on the peer, against a
    /// screen only the peer holds, so the peer is the only side that can answer.
    pub fn start_peer_agent_explain(&self, target: AgentTarget) -> (r: Started)
        ensures
            explains_agent(*self, r, target),
    {
        let (ws_idx, pane_id) = match self.resolve_agent_target(target.target.as_str()) {
            Some(resolved) => resolved,
            None => {
                return Started::Answered(Reply::AgentNotFound { target: target.target });
            },
        };
        if self.peer_pane_source(ws_idx, pane_id).is_none() {
            return Started::Answered(Reply::AgentNotFound { target: target.target });
        }
        match self.reach_pane(ws_idx, pane_id) {
            Ok((peer, connection)) => {
                let method = Method::AgentExplain(
                    AgentTarget { target: connection.local_target.clone() },
                );
                let peer_pane_id = connection.local_target.clone();
                Started::Deferred(
                    PeerWork::Forward {
                        connection,
                        method,
                        restate: Restate::Explain { peer, peer_pane_id },
                    },
                )
            },
            Err(error) => refused(error),
        }
    }

    /// Dispatches a request that targets a peer-owned pane off the event loop.
    ///
    /// Meant for requests that [`Self::request_targets_peer_pane`] confirmed; any
    /// other is answered with a refusal rather than dropped.
    pub fn handle_deferred_peer_pane_api_request(
        &self,
        method: Method,
        launch_env: Result<Vec<(String, String)>, ErrorBody>,
        owner: Option<String>,
    ) -> (r: Started)
        ensures
            dispatches_pane(*self, r, method, launch_env, owner),
    {
        match method {
            Method::PaneSplit(params) => self.start_peer_pane_split(params, launch_env, owner),
            Method::PaneRead(params) => self.start_peer_pane_read(params),
            Method::PaneReadRange(params) => self.start_peer_pane_read_range(params),
            Method::PaneTextQuery(params) => self.start_peer_pane_text_query(params),
            Method::AgentRead(params) => self.start_peer_agent_read(params),
            Method::AgentExplain(target) => self.start_peer_agent_explain(target),
            _ => refused(ErrorBody::of("invalid_request", "request does not target a peer pane")),
        }
    }

    /// Carries a tab rename inside a peer view across to the tab the peer owns.
    ///
    /// Fire-and-forget: the local rename has already happened and been answered.
    /// The peer's tab id is not stored anywhere on this side, so any pane in the
    /// tab is used to ask for it.
    pub fn forward_tab_rename_to_peer(&self, ws_idx: usize, tab_idx: usize, label: &str) -> (r:
        Option<PeerWork>)
        ensures
            match tab_rename_reach(*self, ws_idx as int, tab_idx as int) {
                Some(reached) => r matches Some(PeerWork::RenameTab { connection, name })
                    && connection@ == reached && name@ == label@,
                None => r is None,
            },
    {
        if ws_idx >= self.state.workspaces.len() {
            return None;
        }
        let workspace = &self.state.workspaces[ws_idx];
        if workspace.peer.is_none() || tab_idx >= workspace.tabs.len()
            || workspace.tabs[tab_idx].panes.len() == 0 {
            return None;
        }
        let pane_id = workspace.tabs[tab_idx].panes[0].id;
        match self.peer_pane_source(ws_idx, pane_id) {
            Some((handle, peer_pane_id)) => match self.resolve_peer_connection(
                peer_pane_id.as_str(),
                Some(handle.as_str()),
            ) {
                Ok(connection) => Some(PeerWork::RenameTab { connection, name: label.to_owned() }),
                Err(_) => None,
            },
            None => None,
        }
    }
}

/// How to reach the peer that owns a tab of a view, if it can be reached.
pub open spec fn tab_rename_reach(app: App, at: int, tab: int) -> Option<
    super::resolve::ReachView,
> {
    if 0 <= at < app.state.workspaces@.len() && app.state.workspaces@[at].peer is Some && 0 <= tab
        < app.state.workspaces@[at].tabs@.len() && app.state.workspaces@[at].tabs@[tab].panes@.len()
        > 0 {
        match super::resolve::pane_source(
            app,
            at,
            app.state.workspaces@[at].tabs@[tab].panes@[0].id,
        ) {
            Some((handle, target)) => match super::resolve::reach(
                app.state.peers@,
                target,
                Some(handle),
            ) {
                Ok(reached) => Some(reached),
                Err(_) => None,
            },
            None => None,
        }
    } else {
        None
    }
}

/// A pane that a peer backs is a pane of its workspace.
proof fn lemma_sources_have_panes(app: App, at: int, pane: PaneId)
    requires
        super::resolve::pane_source(app, at, pane) is Some,
    ensures
        0 <= at < app.state.workspaces@.len(),
        crate::app::state::workspace_has(crate::app::state::PaneKeyView::Id(pane))(
            app.state.workspaces@[at],
        ),
{
}

} // verus!
