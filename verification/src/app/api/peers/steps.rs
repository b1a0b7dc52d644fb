//! The steps of a worker.
//!
//! Work with a peer takes one or more round trips. A worker does what a step
//! says, hands back what came of it, and gets the next step, until the work ends
//! with something to tell. Nothing here waits, so the event loop never does.

use vstd::prelude::*;

use crate::api::schema::requests::{
    Direction, Method, PaneInfo, PaneListParams, PaneTarget, Request, TabRenameParams,
};
use crate::api::schema::responses::ErrorBody;
use crate::api::schema::worktrees::WorktreeInfo;
use crate::app::api::peers::forward::{PeerWork, Restate};
use crate::app::api::peers::lifecycle::PaneClose;
use crate::app::api::peers::resolve::Route;
use crate::app::api::peers::views::Reconnect;
use crate::app::api::peers::worker::{
    answer_forwarded, close_peer_pane, open_peer_view, peer_tab_of, request_peer_created_pane,
    request_peer_split_pane, request_peer_worktree_removal, request_peer_worktree_view,
    resolve_peer_workspace_pane, spawned_peer_view, view_target, Forwarded, CLOSE_REQUEST_ID,
    FORWARD_REQUEST_ID, PANES_REQUEST_ID,
};
use crate::app::peers::PeerHandle;
use crate::app::state::PaneId;
use crate::events::{
    AppEvent, PeerPaneSplitResult, PeerTabCreateResult, PeerViewOpenResult, PeerViewPlacement,
    PeerWorkspaceCreateResult, PeerWorktreeRemoveResult, PeerWorktreeViewResult,
};
use crate::terminal::{RemoteView, TerminalSize};
use crate::text::cat2;

verus! {

/// How long a peer has to answer a request, in milliseconds.
pub const PEER_REQUEST_TIMEOUT_MS: u64 = 5000;

/// A request to one server.
#[derive(Debug, PartialEq, Eq)]
pub struct PeerRequest {
    pub route: Route,
    pub request: Request,
}

impl PeerRequest {
    /// It asks for `method` under the id `id`.
    pub open spec fn asks(self, route: Route, id: Seq<char>, method: Method) -> bool {
        &&& self.route == route
        &&& self.request.id@ == id
        &&& self.request.method == method
    }

    fn new(route: Route, id: &str, method: Method) -> (r: Self)
        ensures
            r.asks(route, id@, method),
    {
        PeerRequest { route, request: Request { id: id.to_owned(), method } }
    }
}

/// A terminal of a peer to attach to.
#[derive(Debug, PartialEq, Eq)]
pub struct Attach {
    pub api_socket: String,
    pub peer: String,
    pub target: String,
    pub size: TerminalSize,
    /// Whether an existing controller of the terminal is replaced.
    pub takeover: bool,
}

impl Attach {
    /// It attaches to this target of this peer.
    pub open spec fn goes_to(
        self,
        api_socket: String,
        peer: Seq<char>,
        target: Seq<char>,
        size: TerminalSize,
        takeover: bool,
    ) -> bool {
        &&& self.api_socket == api_socket
        &&& self.peer@ == peer
        &&& self.target@ == target
        &&& self.size == size
        &&& self.takeover == takeover
    }
}

/// What a pane that a peer makes is for.
#[derive(Debug, PartialEq, Eq)]
pub enum Spawned {
    Tab { id: String, workspace_id: String, label: Option<String>, focus: bool },
    Pane {
        id: String,
        workspace_id: String,
        target_pane: PaneId,
        direction: Direction,
        ratio: Option<u32>,
        focus: bool,
    },
}

impl Spawned {
    /// What is told once the view is there, or why it is not.
    pub open spec fn told(self, result: Result<RemoteView, ErrorBody>) -> AppEvent {
        match self {
            Spawned::Tab { id, workspace_id, label, focus } => AppEvent::PeerTabCreateFinished(
                PeerTabCreateResult { id, workspace_id, label, focus, result },
            ),
            Spawned::Pane { id, workspace_id, target_pane, direction, ratio, focus } =>
                AppEvent::PeerPaneSplitFinished(
                PeerPaneSplitResult {
                    id,
                    workspace_id,
                    target_pane,
                    direction,
                    ratio,
                    focus,
                    result,
                },
            ),
        }
    }

    /// The work ends by telling that this was refused.
    pub open spec fn ends_refused(self, step: Step, error: (Seq<char>, Seq<char>)) -> bool {
        exists|body: ErrorBody| #[trigger]
            body@ == error && step.ends_with(self.told(Err::<RemoteView, ErrorBody>(body)))
    }

    fn tell(self, result: Result<RemoteView, ErrorBody>) -> (r: AppEvent)
        ensures
            r == self.told(result),
    {
        match self {
            Spawned::Tab { id, workspace_id, label, focus } => AppEvent::PeerTabCreateFinished(
                PeerTabCreateResult { id, workspace_id, label, focus, result },
            ),
            Spawned::Pane { id, workspace_id, target_pane, direction, ratio, focus } =>
                AppEvent::PeerPaneSplitFinished(
                PeerPaneSplitResult {
                    id,
                    workspace_id,
                    target_pane,
                    direction,
                    ratio,
                    focus,
                    result,
                },
            ),
        }
    }
}

/// A view that is being opened.
#[derive(Debug, PartialEq, Eq)]
pub struct Opening {
    pub id: String,
    pub handle: PeerHandle,
    pub requested_target: String,
    /// The peer-local target the open was started against.
    pub started_target: String,
    pub placement: PeerViewPlacement,
}

impl Opening {
    /// What is told once the view is there, or why it is not.
    pub open spec fn told(
        self,
        result: Result<crate::events::PeerViewOpened, ErrorBody>,
    ) -> AppEvent {
        AppEvent::PeerViewOpenFinished(
            PeerViewOpenResult {
                id: self.id,
                handle: self.handle,
                requested_target: self.requested_target,
                started_target: self.started_target,
                placement: self.placement,
                result,
            },
        )
    }

    /// The work ends by telling that this was refused.
    pub open spec fn ends_refused(self, step: Step, error: (Seq<char>, Seq<char>)) -> bool {
        exists|body: ErrorBody| #[trigger]
            body@ == error && step.ends_with(
                self.told(Err::<crate::events::PeerViewOpened, ErrorBody>(body)),
            )
    }

    fn tell(self, result: Result<crate::events::PeerViewOpened, ErrorBody>) -> (r: AppEvent)
        ensures
            r == self.told(result),
    {
        AppEvent::PeerViewOpenFinished(
            PeerViewOpenResult {
                id: self.id,
                handle: self.handle,
                requested_target: self.requested_target,
                started_target: self.started_target,
                placement: self.placement,
                result,
            },
        )
    }
}

/// What the answer to a request is for.
#[derive(Debug, PartialEq, Eq)]
pub enum Replying {
    /// It is restated and handed to the caller.
    Forward { id: String, instance_id: String, restate: Restate },
    /// It names the pane of a new workspace.
    Workspace { id: String, handle: PeerHandle, label: Option<String>, focus: bool },
    /// It names a pane to be viewed.
    Spawn { goal: Spawned, route: Route, handle: PeerHandle, size: TerminalSize },
    /// It says whether a pane that no view holds was closed.
    Abandoned { goal: Spawned, error: ErrorBody },
    /// It names the pane of a worktree's workspace.
    Worktree { id: String, handle: PeerHandle, opened: bool, label: Option<String>, focus: bool },
    /// It says which checkout was removed.
    Removal { id: String, workspace_id: String },
    /// It names the tab that holds a pane.
    TabOf { route: Route, pane: String, name: String },
    /// It says whether a tab was renamed.
    Renamed,
}

/// A workspace whose pane is asked for before a view is opened onto it.
#[derive(Debug, PartialEq, Eq)]
pub struct Listing {
    pub opening: Opening,
    pub route: Route,
    pub size: TerminalSize,
    pub takeover: bool,
}

/// What a connection is for.
#[derive(Debug, PartialEq, Eq)]
pub enum Connecting {
    View { opening: Opening, target: String, instance_id: String },
    Spawned { goal: Spawned, route: Route, handle: PeerHandle, pane: String },
}

/// What is told when work has ended.
#[derive(Debug, PartialEq, Eq)]
pub struct Ended {
    /// For the caller that waits.
    pub answer: Option<Forwarded>,
    /// For the event loop.
    pub event: Option<AppEvent>,
    /// For the log.
    pub warning: Option<String>,
}

/// What a worker does next.
#[derive(Debug, PartialEq, Eq)]
pub enum Step {
    /// Send the request; the answer goes to [`replied`].
    Send(PeerRequest, Replying),
    /// Ask for the panes; the list goes to [`listed`].
    List(PeerRequest, Listing),
    /// Attach; the view goes to [`connected`].
    Connect(Attach, Connecting),
    /// The work has ended.
    End(Ended),
}

impl Replying {
    /// How many steps there are at most, this one counted.
    pub open spec fn left(self) -> nat {
        match self {
            Replying::Spawn { .. } => 3,
            Replying::TabOf { .. } => 2,
            _ => 1,
        }
    }
}

impl Connecting {
    /// How many steps there are at most, this one counted.
    pub open spec fn left(self) -> nat {
        match self {
            Connecting::View { .. } => 1,
            Connecting::Spawned { .. } => 2,
        }
    }
}

impl Step {
    /// How many steps there are at most, this one counted.
    pub open spec fn left(self) -> nat {
        match self {
            Step::Send(_, stage) => stage.left(),
            Step::List(_, _) => 2,
            Step::Connect(_, stage) => stage.left(),
            Step::End(_) => 0,
        }
    }

    /// The work has ended with this event, and nothing else to tell.
    pub open spec fn ends_with(self, event: AppEvent) -> bool {
        self == Step::End(Ended { answer: None, event: Some(event), warning: None })
    }

    /// The work has ended, and this goes to the log.
    pub open spec fn warns(self, message: Seq<char>) -> bool {
        &&& self matches Step::End(ended)
        &&& ended.answer is None
        &&& ended.event is None
        &&& ended.warning matches Some(warning)
        &&& warning@ == message
    }

    fn end(event: AppEvent) -> (r: Self)
        ensures
            r.ends_with(event),
    {
        Step::End(Ended { answer: None, event: Some(event), warning: None })
    }

    fn warn(message: String) -> (r: Self)
        ensures
            r.warns(message@),
    {
        Step::End(Ended { answer: None, event: None, warning: Some(message) })
    }
}

/// The request that closes a pane that was made on a peer, or why none can be
/// sent. What came of it is read by [`close_peer_pane`].
pub fn close_request(close: &PaneClose) -> (r: Result<PeerRequest, String>)
    ensures
        match close.route {
            Ok(route) => r matches Ok(request) && request.asks(
                route,
                CLOSE_REQUEST_ID@,
                Method::PaneClose(PaneTarget { pane_id: close.peer_pane_id }),
            ),
            Err(reason) => r == Err::<PeerRequest, String>(reason),
        },
{
    match &close.route {
        Ok(route) => Ok(
            PeerRequest::new(
                route.clone(),
                CLOSE_REQUEST_ID,
                Method::PaneClose(PaneTarget { pane_id: close.peer_pane_id.clone() }),
            ),
        ),
        Err(reason) => Err(reason.clone()),
    }
}

/// What an attempt to reconnect a view attaches to. It is never a takeover: the
/// peer lets this server have its own abandoned attach back, and anything else
/// that holds the terminal is somebody else's session.
pub fn reattach(attempt: &Reconnect) -> (r: Attach)
    ensures
        r.goes_to(attempt.api_socket, attempt.peer@, attempt.target@, attempt.size, false),
{
    Attach {
        api_socket: attempt.api_socket.clone(),
        peer: attempt.peer.clone(),
        target: attempt.target.clone(),
        size: attempt.size,
        takeover: false,
    }
}

/// The first step of a piece of work for the request `id`.
pub open spec fn begins(id: String, work: PeerWork, step: Step) -> bool {
    match work {
        PeerWork::Forward { connection, method, restate } => {
            &&& step matches Step::Send(request, stage)
            &&& request.asks(route_of(connection), FORWARD_REQUEST_ID@, method)
            &&& stage == (Replying::Forward { id, instance_id: connection.instance_id, restate })
        },
        PeerWork::OpenView {
            connection,
            handle,
            requested_target,
            local_target,
            resolve_workspace,
            size,
            takeover,
            placement,
        } => {
            let opening = Opening {
                id,
                handle,
                requested_target,
                started_target: local_target,
                placement,
            };
            if resolve_workspace {
                &&& step matches Step::List(request, stage)
                &&& request.asks(
                    route_of(connection),
                    PANES_REQUEST_ID@,
                    Method::PaneList(PaneListParams { workspace_id: Some(local_target) }),
                )
                &&& stage == (Listing { opening, route: route_of(connection), size, takeover })
            } else {
                &&& step matches Step::Connect(attach, stage)
                &&& attach.goes_to(
                    connection.api_socket,
                    handle@,
                    local_target@,
                    size,
                    takeover,
                )
                &&& stage == (Connecting::View {
                    opening,
                    target: local_target,
                    instance_id: connection.instance_id,
                })
            }
        },
        PeerWork::CreateWorkspace { api_socket, instance_id, handle, method, label, focus } => {
            &&& step matches Step::Send(request, stage)
            &&& request.asks(Route { api_socket, instance_id }, FORWARD_REQUEST_ID@, method)
            &&& stage == (Replying::Workspace { id, handle, label, focus })
        },
        PeerWork::CreateTab { connection, handle, method, workspace_id, label, focus, size } => {
            &&& step matches Step::Send(request, stage)
            &&& request.asks(route_of(connection), FORWARD_REQUEST_ID@, method)
            &&& stage == (Replying::Spawn {
                goal: Spawned::Tab { id, workspace_id, label, focus },
                route: route_of(connection),
                handle,
                size,
            })
        },
        PeerWork::SplitPane {
            connection,
            handle,
            method,
            workspace_id,
            target_pane,
            direction,
            ratio,
            focus,
            size,
        } => {
            &&& step matches Step::Send(request, stage)
            &&& request.asks(route_of(connection), FORWARD_REQUEST_ID@, method)
            &&& stage == (Replying::Spawn {
                goal: Spawned::Pane { id, workspace_id, target_pane, direction, ratio, focus },
                route: route_of(connection),
                handle,
                size,
            })
        },
        PeerWork::WorktreeView { connection, handle, method, opened, label, focus } => {
            &&& step matches Step::Send(request, stage)
            &&& request.asks(route_of(connection), FORWARD_REQUEST_ID@, method)
            &&& stage == (Replying::Worktree { id, handle, opened, label, focus })
        },
        PeerWork::WorktreeRemove { connection, method, workspace_id } => {
            &&& step matches Step::Send(request, stage)
            &&& request.asks(route_of(connection), FORWARD_REQUEST_ID@, method)
            &&& stage == (Replying::Removal { id, workspace_id })
        },
        PeerWork::RenameTab { connection, name } => {
            &&& step matches Step::Send(request, stage)
            &&& request.asks(
                route_of(connection),
                FORWARD_REQUEST_ID@,
                Method::PaneGet(PaneTarget { pane_id: connection.local_target }),
            )
            &&& stage == (Replying::TabOf {
                route: route_of(connection),
                pane: connection.local_target,
                name,
            })
        },
    }
}

/// The route of a connection.
pub open spec fn route_of(connection: super::resolve::PeerConnection) -> Route {
    Route { api_socket: connection.api_socket, instance_id: connection.instance_id }
}

/// The first step of a piece of work for the request `id`.
pub fn begin(id: String, work: PeerWork) -> (r: Step)
    ensures
        begins(id, work, r),
        1 <= r.left() <= 3,
{
    match work {
        PeerWork::Forward { connection, method, restate } => {
            let route = Route {
                api_socket: connection.api_socket,
                instance_id: connection.instance_id,
            };
            let instance_id = route.instance_id.clone();
            Step::Send(
                PeerRequest::new(route, FORWARD_REQUEST_ID, method),
                Replying::Forward { id, instance_id, restate },
            )
        },
        PeerWork::OpenView {
            connection,
            handle,
            requested_target,
            local_target,
            resolve_workspace,
            size,
            takeover,
            placement,
        } => {
            if resolve_workspace {
                let route = Route {
                    api_socket: connection.api_socket,
                    instance_id: connection.instance_id,
                };
                let list = Method::PaneList(
                    PaneListParams { workspace_id: Some(local_target.clone()) },
                );
                let opening = Opening {
                    id,
                    handle,
                    requested_target,
                    started_target: local_target,
                    placement,
                };
                Step::List(
                    PeerRequest::new(route.clone(), PANES_REQUEST_ID, list),
                    Listing { opening, route, size, takeover },
                )
            } else {
                let attach = Attach {
                    api_socket: connection.api_socket,
                    peer: handle.as_str().to_owned(),
                    target: local_target.clone(),
                    size,
                    takeover,
                };
                let target = local_target.clone();
                let opening = Opening {
                    id,
                    handle,
                    requested_target,
                    started_target: local_target,
                    placement,
                };
                Step::Connect(
                    attach,
                    Connecting::View { opening, target, instance_id: connection.instance_id },
                )
            }
        },
        PeerWork::CreateWorkspace { api_socket, instance_id, handle, method, label, focus } => {
            Step::Send(
                PeerRequest::new(Route { api_socket, instance_id }, FORWARD_REQUEST_ID, method),
                Replying::Workspace { id, handle, label, focus },
            )
        },
        PeerWork::CreateTab { connection, handle, method, workspace_id, label, focus, size } => {
            let route = Route {
                api_socket: connection.api_socket,
                instance_id: connection.instance_id,
            };
            Step::Send(
                PeerRequest::new(route.clone(), FORWARD_REQUEST_ID, method),
                Replying::Spawn {
                    goal: Spawned::Tab { id, workspace_id, label, focus },
                    route,
                    handle,
                    size,
                },
            )
        },
        PeerWork::SplitPane {
            connection,
            handle,
            method,
            workspace_id,
            target_pane,
            direction,
            ratio,
            focus,
            size,
        } => {
            let route = Route {
                api_socket: connection.api_socket,
                instance_id: connection.instance_id,
            };
            Step::Send(
                PeerRequest::new(route.clone(), FORWARD_REQUEST_ID, method),
                Replying::Spawn {
                    goal: Spawned::Pane { id, workspace_id, target_pane, direction, ratio, focus },
                    route,
                    handle,
                    size,
                },
            )
        },
        PeerWork::WorktreeView { connection, handle, method, opened, label, focus } => {
            let route = Route {
                api_socket: connection.api_socket,
                instance_id: connection.instance_id,
            };
            Step::Send(
                PeerRequest::new(route, FORWARD_REQUEST_ID, method),
                Replying::Worktree { id, handle, opened, label, focus },
            )
        },
        PeerWork::WorktreeRemove { connection, method, workspace_id } => {
            let route = Route {
                api_socket: connection.api_socket,
                instance_id: connection.instance_id,
            };
            Step::Send(
                PeerRequest::new(route, FORWARD_REQUEST_ID, method),
                Replying::Removal { id, workspace_id },
            )
        },
        PeerWork::RenameTab { connection, name } => {
            let route = Route {
                api_socket: connection.api_socket,
                instance_id: connection.instance_id,
            };
            let get = Method::PaneGet(PaneTarget { pane_id: connection.local_target.clone() });
            Step::Send(
                PeerRequest::new(route.clone(), FORWARD_REQUEST_ID, get),
                Replying::TabOf { route, pane: connection.local_target, name },
            )
        },
    }
}

/// What a peer's answer says of the pane it made, by a split or with a workspace
/// or a tab.
pub open spec fn pane_made(
    split: bool,
    reply: Result<serde_json::Value, String>,
    handle: Seq<char>,
) -> Result<Seq<char>, (Seq<char>, Seq<char>)> {
    match reply {
        Err(error) => Err(super::worker::request_failed(error@)),
        Ok(value) => if split {
            super::rewrite::pane_reply(
                crate::json::json(value),
                "pane"@,
                handle,
                "the split"@,
            )
        } else {
            super::rewrite::pane_reply(
                crate::json::json(value),
                "root_pane"@,
                handle,
                "the new workspace"@,
            )
        },
    }
}

/// What the end of an abandoned pane leaves for the log.
pub open spec fn left_behind(
    reply: Result<serde_json::Value, String>,
    warning: Option<String>,
) -> bool {
    match reply {
        Err(error) => warning matches Some(text) && text@ == "peer request failed: "@ + error@,
        Ok(value) => match crate::json::json(value).member("error"@) {
            None => warning is None,
            Some(error) => warning matches Some(text) && text@ == (match error.text_member(
                "message"@,
            ) {
                Some(message) => message,
                None => "peer rejected the close"@,
            }),
        },
    }
}

/// The step after the answer to a request. `worktree` is the checkout the answer
/// describes, as far as it could be read.
///
/// A pane the peer made is attached to next; when it made none, that is told. A
/// tab that is to be renamed is named by its pane first.
pub fn replied(
    stage: Replying,
    reply: Result<serde_json::Value, String>,
    worktree: Option<WorktreeInfo>,
) -> (r: Step)
    ensures
        r.left() < stage.left(),
        match stage {
            Replying::Forward { id, instance_id, restate } => {
                &&& r matches Step::End(ended)
                &&& ended.event is None
                &&& ended.warning is None
                &&& ended.answer matches Some(answer)
                &&& match reply {
                    Err(error) => answer matches Forwarded::Refused(body) && body@
                        == super::worker::request_failed(error@),
                    Ok(value) => answer matches Forwarded::Text(text) && text@
                        == crate::json::encoded(
                        super::worker::restated(
                            crate::json::json(value),
                            restate,
                            id@,
                            instance_id@,
                        ),
                    ),
                }
            },
            Replying::Workspace { id, handle, label, focus } => exists|
                result: Result<String, ErrorBody>,
            |
                {
                    &&& #[trigger] super::rewrite::result_view(result) == pane_made(
                        false,
                        reply,
                        handle@,
                    )
                    &&& r.ends_with(
                        AppEvent::PeerWorkspaceCreateFinished(
                            PeerWorkspaceCreateResult { id, handle, label, focus, result },
                        ),
                    )
                },
            Replying::Spawn { goal, route, handle, size } => match pane_made(
                goal is Pane,
                reply,
                handle@,
            ) {
                Err(error) => goal.ends_refused(r, error),
                Ok(pane) => {
                    &&& r matches Step::Connect(attach, next)
                    &&& attach.goes_to(route.api_socket, handle@, pane, size, false)
                    &&& next matches Connecting::Spawned { goal: g, route: to, handle: h, pane: p }
                    &&& g == goal
                    &&& to == route
                    &&& h == handle
                    &&& p@ == pane
                },
            },
            Replying::Abandoned { goal, error } => {
                &&& r matches Step::End(ended)
                &&& ended.answer is None
                &&& ended.event == Some(goal.told(Err::<RemoteView, ErrorBody>(error)))
                &&& left_behind(reply, ended.warning)
            },
            Replying::Worktree { id, handle, opened, label, focus } => {
                &&& r matches Step::End(ended)
                &&& ended.event matches Some(AppEvent::PeerWorktreeViewFinished(told))
                &&& r.ends_with(AppEvent::PeerWorktreeViewFinished(told))
                &&& told == (PeerWorktreeViewResult {
                    id,
                    handle,
                    label,
                    focus,
                    result: told.result,
                })
                &&& super::worker::tells_worktree(reply, worktree, handle@, opened, told.result)
            },
            Replying::Removal { id, workspace_id } => {
                &&& r matches Step::End(ended)
                &&& ended.event matches Some(AppEvent::PeerWorktreeRemoveFinished(told))
                &&& r.ends_with(AppEvent::PeerWorktreeRemoveFinished(told))
                &&& told == (PeerWorktreeRemoveResult { id, workspace_id, result: told.result })
                &&& super::worker::tells_removal(reply, told.result)
            },
            Replying::TabOf { route, pane, name } => match reply {
                Err(error) => r.warns("peer pane lookup failed: "@ + error@),
                Ok(value) => match super::worker::tab_named_in(crate::json::json(value)) {
                    None => r.warns("peer did not name a tab for pane "@ + pane@),
                    Some(tab) => {
                        &&& r matches Step::Send(request, next)
                        &&& next is Renamed
                        &&& request.route == route
                        &&& request.request.id@ == FORWARD_REQUEST_ID@
                        &&& request.request.method matches Method::TabRename(params)
                        &&& params.tab_id@ == tab
                        &&& params.label == name
                    },
                },
            },
            Replying::Renamed => match reply {
                Err(error) => r.warns("peer tab rename failed: "@ + error@),
                Ok(_) => r == Step::End(Ended { answer: None, event: None, warning: None }),
            },
        },
{
    match stage {
        Replying::Forward { id, instance_id, restate } => {
            let answer = answer_forwarded(reply, &restate, id.as_str(), instance_id.as_str());
            Step::End(Ended { answer: Some(answer), event: None, warning: None })
        },
        Replying::Workspace { id, handle, label, focus } => {
            let ghost given = reply;
            let result = request_peer_created_pane(reply, &handle);
            assert(super::rewrite::result_view(result) == pane_made(false, given, handle@));
            Step::end(
                AppEvent::PeerWorkspaceCreateFinished(
                    PeerWorkspaceCreateResult { id, handle, label, focus, result },
                ),
            )
        },
        Replying::Spawn { goal, route, handle, size } => {
            let ghost given = reply;
            let made = match &goal {
                Spawned::Pane { .. } => request_peer_split_pane(reply, &handle),
                Spawned::Tab { .. } => request_peer_created_pane(reply, &handle),
            };
            assert(super::rewrite::result_view(made) == pane_made(goal is Pane, given, handle@));
            match made {
                Err(error) => {
                    assert(error@ == pane_made(goal is Pane, given, handle@)->Err_0);
                    Step::end(goal.tell(Err(error)))
                },
                Ok(pane) => {
                    let attach = Attach {
                        api_socket: route.api_socket.clone(),
                        peer: handle.as_str().to_owned(),
                        target: pane.clone(),
                        size,
                        takeover: false,
                    };
                    Step::Connect(attach, Connecting::Spawned { goal, route, handle, pane })
                },
            }
        },
        Replying::Abandoned { goal, error } => {
            let warning = match close_peer_pane(reply) {
                Ok(_) => None,
                Err(reason) => Some(reason),
            };
            Step::End(Ended { answer: None, event: Some(goal.tell(Err(error))), warning })
        },
        Replying::Worktree { id, handle, opened, label, focus } => {
            let result = request_peer_worktree_view(reply, worktree, &handle, opened);
            Step::end(
                AppEvent::PeerWorktreeViewFinished(
                    PeerWorktreeViewResult { id, handle, label, focus, result },
                ),
            )
        },
        Replying::Removal { id, workspace_id } => {
            let result = request_peer_worktree_removal(reply);
            Step::end(
                AppEvent::PeerWorktreeRemoveFinished(
                    PeerWorktreeRemoveResult { id, workspace_id, result },
                ),
            )
        },
        Replying::TabOf { route, pane, name } => match reply {
            Err(error) => Step::warn(cat2("peer pane lookup failed: ", error.as_str())),
            Ok(value) => match peer_tab_of(&value, pane.as_str()) {
                Err(message) => Step::warn(message),
                Ok(tab_id) => Step::Send(
                    PeerRequest::new(
                        route,
                        FORWARD_REQUEST_ID,
                        Method::TabRename(TabRenameParams { tab_id, label: name }),
                    ),
                    Replying::Renamed,
                ),
            },
        },
        Replying::Renamed => match reply {
            Err(error) => Step::warn(cat2("peer tab rename failed: ", error.as_str())),
            Ok(_) => Step::End(Ended { answer: None, event: None, warning: None }),
        },
    }
}

/// The pane that a list says a workspace is viewed through, or why there is none.
/// `None` in the place of the list is an answer that is no list.
pub open spec fn listed_pane(
    list: Result<Option<Vec<PaneInfo>>, String>,
    workspace_id: Seq<char>,
) -> Result<Seq<char>, Seq<char>> {
    match list {
        Err(error) => Err(error@),
        Ok(None) => Err("peer returned an unexpected pane list result"@),
        Ok(Some(panes)) => match super::worker::entry_pane(panes@) {
            Some(pane) => Ok(pane.pane_id@),
            None => Err("workspace "@ + workspace_id + " has no panes"@),
        },
    }
}

/// The step after the panes of a workspace were asked for: a view is opened onto
/// one of them.
pub fn listed(stage: Listing, list: Result<Option<Vec<PaneInfo>>, String>) -> (r: Step)
    ensures
        r.left() < 2,
        match listed_pane(list, stage.opening.started_target@) {
            Err(error) => stage.opening.ends_refused(
                r,
                super::worker::could_not(
                    "could not resolve '"@,
                    stage.opening.started_target@,
                    stage.opening.handle@,
                    error,
                ),
            ),
            Ok(pane) => {
                &&& r matches Step::Connect(attach, next)
                &&& attach.goes_to(
                    stage.route.api_socket,
                    stage.opening.handle@,
                    pane,
                    stage.size,
                    stage.takeover,
                )
                &&& next matches Connecting::View { opening, target, instance_id }
                &&& opening == stage.opening
                &&& target@ == pane
                &&& instance_id == stage.route.instance_id
            },
        },
{
    let resolved = match list {
        Err(error) => Err(error),
        Ok(None) => Err("peer returned an unexpected pane list result".to_owned()),
        Ok(Some(panes)) => resolve_peer_workspace_pane(
            &panes,
            stage.opening.started_target.as_str(),
        ),
    };
    let started = stage.opening.started_target.clone();
    match view_target(&stage.opening.handle, started, Some(resolved)) {
        Err(error) => {
            let ghost body = error;
            assert(body@ == error@);
            Step::end(stage.opening.tell(Err(error)))
        },
        Ok(target) => {
            let attach = Attach {
                api_socket: stage.route.api_socket,
                peer: stage.opening.handle.as_str().to_owned(),
                target: target.clone(),
                size: stage.size,
                takeover: stage.takeover,
            };
            Step::Connect(
                attach,
                Connecting::View {
                    opening: stage.opening,
                    target,
                    instance_id: stage.route.instance_id,
                },
            )
        },
    }
}

/// The step after a view was connected, or could not be.
pub open spec fn connects(stage: Connecting, view: Result<RemoteView, String>, r: Step) -> bool {
    match stage {
        Connecting::View { opening, target, instance_id } => exists|
            result: Result<crate::events::PeerViewOpened, ErrorBody>,
        |
            #[trigger] super::worker::tells_view(view, target, opening.handle@, instance_id@, result)
                && r.ends_with(opening.told(result)),
        Connecting::Spawned { goal, route, handle, pane } => exists|
            result: Result<RemoteView, ErrorBody>,
        |
            {
                &&& #[trigger] super::worker::tells_spawned(
                    view,
                    pane@,
                    handle@,
                    route.instance_id@,
                    result,
                )
                &&& match result {
                    Ok(_) => r.ends_with(goal.told(result)),
                    Err(error) => {
                        &&& r matches Step::Send(request, next)
                        &&& request.asks(
                            route,
                            CLOSE_REQUEST_ID@,
                            Method::PaneClose(PaneTarget { pane_id: pane }),
                        )
                        &&& next == (Replying::Abandoned { goal, error })
                    },
                }
            },
    }
}

/// The step after a view was connected, or could not be.
///
/// A pane the peer made that no view holds is closed there: left alone it is an
/// orphan, and trying again would make another one.
pub fn connected(stage: Connecting, view: Result<RemoteView, String>) -> (r: Step)
    ensures
        r.left() < stage.left(),
        connects(stage, view, r),
{
    match stage {
        Connecting::View { opening, target, instance_id } => {
            let ghost given = view;
            let ghost to = target;
            let result = open_peer_view(&opening.handle, target, instance_id.as_str(), view);
            assert(super::worker::tells_view(given, to, opening.handle@, instance_id@, result));
            Step::end(opening.tell(result))
        },
        Connecting::Spawned { goal, route, handle, pane } => {
            let ghost given = view;
            let result = spawned_peer_view(
                &handle,
                pane.as_str(),
                route.instance_id.as_str(),
                view,
            );
            assert(super::worker::tells_spawned(
                given,
                pane@,
                handle@,
                route.instance_id@,
                result,
            ));
            match result {
                Ok(view) => Step::end(goal.tell(Ok(view))),
                Err(error) => Step::Send(
                    PeerRequest::new(
                        route,
                        CLOSE_REQUEST_ID,
                        Method::PaneClose(PaneTarget { pane_id: pane }),
                    ),
                    Replying::Abandoned { goal, error },
                ),
            }
        },
    }
}

/// A pane that a peer made for a view is either held by a view that closes it when
/// it is closed, or closed right away, on the server that made it. No other end
/// leaves it running there.
pub proof fn law_a_made_pane_is_viewed_or_closed(
    goal: Spawned,
    route: Route,
    handle: PeerHandle,
    pane: String,
    view: Result<RemoteView, String>,
    step: Step,
)
    requires
        connects(Connecting::Spawned { goal, route, handle, pane }, view, step),
    ensures
        match step {
            Step::End(ended) => {
                &&& view matches Ok(held)
                &&& !held.on_other_server(route.instance_id@)
                &&& ended.event == Some(
                    goal.told(
                        Ok::<RemoteView, ErrorBody>(RemoteView { spawned_on_peer: true, ..held }),
                    ),
                )
            },
            Step::Send(request, _) => request.asks(
                route,
                CLOSE_REQUEST_ID@,
                Method::PaneClose(PaneTarget { pane_id: pane }),
            ),
            _ => false,
        },
{
}

} // verus!
