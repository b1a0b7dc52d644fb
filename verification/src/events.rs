//! What background work reports to the event loop.

use vstd::prelude::*;

use crate::api::schema::requests::{Direction, PaneInfo};
use crate::api::schema::responses::ErrorBody;
use crate::api::schema::workspaces::WorkspaceInfo;
use crate::api::schema::worktrees::{WorktreeInfo, WorktreeSourceInfo};
use crate::app::api::peers::rewrite::AgentState;
use crate::app::peers::{PeerConnectionState, PeerHandle, PeerIdentity};
use crate::app::state::PaneId;
use crate::terminal::{RemoteView, TerminalId};

verus! {

/// A workspace's place among the checkouts of one repository.
#[derive(Debug, PartialEq, Eq)]
pub struct WorktreeSpaceMembership {
    pub repo_key: String,
    pub checkout_path: String,
    pub is_linked_worktree: bool,
}

/// An API request that waits for a checkout to be made.
#[derive(Debug, PartialEq, Eq)]
pub struct ApiWorktreeAddRequest {
    pub id: String,
    pub operation_id: u64,
    pub checkout_key: String,
    pub source_workspace_id: Option<String>,
    pub source_existing_membership: Option<WorktreeSpaceMembership>,
    pub source_checkout_path: String,
    pub source_repo_root: String,
    pub repo_key: String,
    pub repo_name: String,
    pub label: Option<String>,
    pub focus: bool,
}

/// What came of making a checkout.
#[derive(Debug, PartialEq, Eq)]
pub struct WorktreeAddResult {
    pub path: String,
    pub api_request: Option<ApiWorktreeAddRequest>,
    pub result: Result<(), String>,
}

/// An API request that waits for a checkout to be removed.
#[derive(Debug, PartialEq, Eq)]
pub struct ApiWorktreeRemoveRequest {
    pub id: String,
    pub operation_id: u64,
    pub checkout_key: String,
}

/// What came of removing a checkout.
#[derive(Debug, PartialEq, Eq)]
pub struct WorktreeRemoveResult {
    pub workspace_id: String,
    pub path: String,
    pub workspace: Option<WorkspaceInfo>,
    pub worktree: Option<WorktreeInfo>,
    pub forced: bool,
    pub api_request: Option<ApiWorktreeRemoveRequest>,
    pub result: Result<(), String>,
}

/// A peer's answer to a copy-mode search or text motion.
#[derive(Debug, PartialEq, Eq)]
pub struct PeerCopyModeQueryResult {
    /// The local pane the query was made in.
    pub pane_id: PaneId,
    /// The query and its answer, as they are sent.
    pub query: String,
    pub result: Result<String, String>,
}

/// The outcome of splitting a peer-backed pane.
///
/// What reaches the loop is a view ready to be placed in the local layout. The
/// workspace is identified by id rather than index because the list can change
/// while the peer round trip is in flight.
#[derive(Debug, PartialEq, Eq)]
pub struct PeerPaneSplitResult {
    /// The originating API request id.
    pub id: String,
    pub workspace_id: String,
    pub target_pane: PaneId,
    pub direction: Direction,
    /// The share of the room the split pane keeps, as it was asked for.
    pub ratio: Option<u32>,
    pub focus: bool,
    /// The connected view onto the pane the peer spawned, or why there is none.
    pub result: Result<RemoteView, ErrorBody>,
}

/// The outcome of asking a peer to create a workspace.
#[derive(Debug, PartialEq, Eq)]
pub struct PeerWorkspaceCreateResult {
    /// The originating API request id.
    pub id: String,
    pub handle: PeerHandle,
    pub label: Option<String>,
    pub focus: bool,
    /// The peer-local id of the pane the peer's new workspace opened with, or
    /// why there is none.
    pub result: Result<String, ErrorBody>,
}

/// The outcome of asking a peer to create a tab in the workspace a local view
/// is attached to.
#[derive(Debug, PartialEq, Eq)]
pub struct PeerTabCreateResult {
    /// The originating API request id.
    pub id: String,
    /// The local workspace the new tab belongs to, re-resolved on completion
    /// because it can close while the peer round trip is in flight.
    pub workspace_id: String,
    pub label: Option<String>,
    pub focus: bool,
    /// The view already connected onto the pane the peer's new tab opened with,
    /// or why there is none.
    pub result: Result<RemoteView, ErrorBody>,
}

/// A view a worker connected, and the peer-local id it actually attached to.
#[derive(Debug, PartialEq, Eq)]
pub struct PeerViewOpened {
    pub view: RemoteView,
    pub local_target: String,
}

/// The worktree a peer view was opened around, and how it got there.
///
/// It carries the peer's own worktree facts — the checkout lives on that machine
/// and nothing local can read it.
#[derive(Debug, PartialEq, Eq)]
pub enum PeerWorktreeAnswer {
    /// The peer created the checkout for this request.
    Created { worktree: WorktreeInfo },
    /// The peer opened a checkout that already existed there. `already_open` is
    /// whether a view onto it was already open *here*.
    Opened { worktree: WorktreeInfo, already_open: bool },
}

impl PeerWorktreeAnswer {
    /// The checkout.
    pub open spec fn checkout(self) -> WorktreeInfo {
        match self {
            PeerWorktreeAnswer::Created { worktree } => worktree,
            PeerWorktreeAnswer::Opened { worktree, .. } => worktree,
        }
    }

    /// The same answer, restated as one this server already held a view for.
    pub open spec fn held(self) -> PeerWorktreeAnswer {
        PeerWorktreeAnswer::Opened { worktree: self.checkout(), already_open: true }
    }

    /// The same answer, restated as one this server already held a view for.
    pub fn into_already_open(self) -> (r: Self)
        ensures
            r == self.held(),
    {
        match self {
            PeerWorktreeAnswer::Created { worktree } => PeerWorktreeAnswer::Opened {
                worktree,
                already_open: true,
            },
            PeerWorktreeAnswer::Opened { worktree, .. } => PeerWorktreeAnswer::Opened {
                worktree,
                already_open: true,
            },
        }
    }
}

/// The outcome of asking a peer to create or open a worktree of its own.
#[derive(Debug, PartialEq, Eq)]
pub struct PeerWorktreeViewResult {
    /// The originating API request id.
    pub id: String,
    pub handle: PeerHandle,
    pub label: Option<String>,
    pub focus: bool,
    /// The peer-local id of the pane the peer's worktree workspace opened with,
    /// and the peer's own account of the checkout behind it.
    pub result: Result<(String, PeerWorktreeAnswer), ErrorBody>,
}

/// A peer's answer to `worktree.list`, as a worktree dialog needs it.
#[derive(Debug, PartialEq, Eq)]
pub struct PeerWorktreeListing {
    pub source: WorktreeSourceInfo,
    pub worktrees: Vec<WorktreeInfo>,
}

/// The outcome of asking a peer to remove one of its own worktree checkouts.
#[derive(Debug, PartialEq, Eq)]
pub struct PeerWorktreeRemoveResult {
    /// The originating API request id.
    pub id: String,
    /// The local workspace holding the view, re-resolved on completion.
    pub workspace_id: String,
    /// The removed checkout path on the peer and whether removal was forced, or
    /// why the peer refused.
    pub result: Result<(String, bool), ErrorBody>,
}

/// What a freshly opened peer view should become once it reaches the loop.
#[derive(Debug, PartialEq, Eq)]
pub enum PeerViewPlacement {
    /// A local workspace holding one pane.
    Workspace {
        /// The peer's own workspace id behind the view, when the target named
        /// one. It is what later names this workspace on the peer.
        peer_workspace: Option<String>,
        label: Option<String>,
        /// Whether the peer made the target for this view. It decides what the
        /// workspace is called when no label was asked for.
        created: bool,
        focus: bool,
        /// The worktree this view was opened around, when a routed worktree
        /// request is what opened it.
        worktree: Option<PeerWorktreeAnswer>,
    },
    /// A bare terminal with no workspace around it. The target is carried
    /// through because the response restates it.
    Terminal { target: String },
}

/// The outcome of opening a view onto a peer, off the event loop.
#[derive(Debug, PartialEq, Eq)]
pub struct PeerViewOpenResult {
    /// The originating API request id.
    pub id: String,
    pub handle: PeerHandle,
    /// The target as the caller named it, before the namespace was stripped.
    pub requested_target: String,
    /// The peer-local id the open was started against, which is what the
    /// in-flight guard is keyed on.
    pub started_target: String,
    pub placement: PeerViewPlacement,
    pub result: Result<PeerViewOpened, ErrorBody>,
}

/// The outcome of one reconnect attempt for a peer-backed view.
#[derive(Debug, PartialEq, Eq)]
pub struct PeerViewReconnectResult {
    /// The local terminal the view belongs to. The pane and terminal outlive the
    /// connection, so the reconnected view takes the same slot.
    pub terminal_id: TerminalId,
    /// The reopened view, or why it could not be reopened.
    pub result: Result<RemoteView, String>,
}

/// An event from a background task to the main loop.
#[derive(Debug, PartialEq, Eq)]
pub enum AppEvent {
    /// Detector state changed in a pane.
    StateChanged {
        pane_id: PaneId,
        agent: Option<String>,
        state: AgentState,
        visible_blocker: bool,
        visible_working: bool,
        process_exited: bool,
    },
    /// A peer's control channel changed state.
    PeerConnectionChanged {
        handle: PeerHandle,
        connection: PeerConnectionState,
        /// Present once the peer has identified itself on this connection.
        identity: Option<PeerIdentity>,
    },
    /// A peer's transport came up on a local socket.
    PeerTransportReady { handle: PeerHandle, api_socket: String },
    /// A peer re-enumerated its workspaces.
    PeerWorkspacesUpdated { handle: PeerHandle, workspaces: Vec<WorkspaceInfo> },
    /// A peer re-enumerated its panes.
    PeerPanesUpdated { handle: PeerHandle, panes: Vec<PaneInfo> },
    /// A pane was spawned on a peer for a split and a view onto it is connected.
    PeerPaneSplitFinished(PeerPaneSplitResult),
    /// A peer finished creating a workspace this server asked it for.
    PeerWorkspaceCreateFinished(PeerWorkspaceCreateResult),
    /// A peer finished creating a tab this server asked it for.
    PeerTabCreateFinished(PeerTabCreateResult),
    /// A peer finished creating or opening a worktree this server asked it for.
    PeerWorktreeViewFinished(PeerWorktreeViewResult),
    /// A peer finished removing a worktree checkout this server asked it to.
    PeerWorktreeRemoveFinished(PeerWorktreeRemoveResult),
    /// A peer answered the worktree list behind a worktree dialog.
    PeerWorktreeListFinished {
        workspace_id: String,
        result: Result<PeerWorktreeListing, String>,
    },
    /// A view onto a peer finished connecting and is ready to be placed.
    PeerViewOpenFinished(PeerViewOpenResult),
    /// A reconnect attempt for a peer-backed view finished.
    PeerViewReconnected(PeerViewReconnectResult),
    /// A peer-owned terminal answered a copy-mode search or text motion.
    PeerCopyModeQueryFinished(PeerCopyModeQueryResult),
    /// A request the UI forwarded to a peer was refused.
    PeerForwardFailed { message: String },
    /// A pane this server spawned on a peer could not be closed there.
    PeerPaneCleanupFailed {
        handle: PeerHandle,
        peer_pane_id: String,
        /// The peer instance that issued `peer_pane_id`.
        expected_instance: Option<String>,
        reason: String,
    },
    /// A browser pane's page was captured.
    BrowserFrame { pane_id: PaneId, data: Vec<u8> },
    /// A browser pane's session ended.
    BrowserDaemonExited { pane_id: PaneId, reason: String },
}

} // verus!
