//! Requests and answers about peers.

use vstd::prelude::*;

use super::workspaces::WorkspaceInfo;

verus! {

/// How to reach a peer server.
#[derive(Debug, PartialEq, Eq)]
pub enum PeerTargetSpec {
    /// An API socket path on this machine.
    SocketPath { path: String },
    /// An SSH destination; the socket path resolves on the remote host.
    Ssh { destination: String, session: Option<String> },
}

impl View for PeerTargetSpec {
    type V = crate::app::peers::TargetView;

    open spec fn view(&self) -> crate::app::peers::TargetView {
        match self {
            PeerTargetSpec::SocketPath { path } => crate::app::peers::TargetView::SocketPath(path@),
            PeerTargetSpec::Ssh { destination, session } => crate::app::peers::TargetView::Ssh {
                destination: destination@,
                session: crate::text::opt_view(*session),
            },
        }
    }
}

#[derive(Debug, PartialEq, Eq)]
pub struct PeerAddParams {
    /// Local name for the peer. Must be unique.
    pub name: String,
    pub target: PeerTargetSpec,
}

#[derive(Debug, PartialEq, Eq)]
pub struct PeerRef {
    pub name: String,
}

/// Where a peer's control connection currently stands.
#[derive(Debug, Clone, Copy, PartialEq, Eq, Structural)]
pub enum PeerConnectionKind {
    /// The first attempt has not finished yet.
    Connecting,
    /// The peer is answering.
    Connected,
    /// The connection dropped and is being retried with backoff.
    Reconnecting,
    /// The peer cannot be federated with as configured, and nothing retries.
    Error,
}

impl PeerConnectionKind {
    /// The label's text.
    pub open spec fn text(self) -> Seq<char> {
        match self {
            PeerConnectionKind::Connecting => "connecting"@,
            PeerConnectionKind::Connected => "connected"@,
            PeerConnectionKind::Reconnecting => "reconnecting"@,
            PeerConnectionKind::Error => "error"@,
        }
    }

    /// Short label for status output and the sidebar.
    pub fn label(self) -> (r: &'static str)
        ensures
            r@ == self.text(),
    {
        match self {
            PeerConnectionKind::Connecting => "connecting",
            PeerConnectionKind::Connected => "connected",
            PeerConnectionKind::Reconnecting => "reconnecting",
            PeerConnectionKind::Error => "error",
        }
    }
}

/// A peer and what it last reported.
#[derive(Debug, PartialEq, Eq)]
pub struct PeerInfo {
    pub name: String,
    pub label: String,
    pub target: PeerTargetSpec,
    pub connection: PeerConnectionKind,
    /// Set while the connection is retrying.
    pub attempt: Option<u32>,
    /// Set when the last attempt failed.
    pub error: Option<String>,
    /// The peer's server instance id, once it has identified itself.
    pub instance_id: Option<String>,
    pub version: Option<String>,
    pub protocol: Option<u32>,
    /// Whether this peer's content is currently out of date.
    pub stale: bool,
    /// Panes this server spawned on the peer and could not close there.
    pub failed_pane_cleanups: usize,
    /// The peer's workspaces as of its last enumeration.
    pub workspaces: Vec<WorkspaceInfo>,
}

/// The contents of a [`PeerInfo`].
pub struct PeerInfoView {
    pub name: Seq<char>,
    pub label: Seq<char>,
    pub target: crate::app::peers::TargetView,
    pub connection: PeerConnectionKind,
    pub attempt: Option<u32>,
    pub error: Option<Seq<char>>,
    pub instance_id: Option<Seq<char>>,
    pub version: Option<Seq<char>>,
    pub protocol: Option<u32>,
    pub stale: bool,
    pub failed_pane_cleanups: nat,
    pub workspaces: Seq<super::workspaces::WorkspaceInfoView>,
}

impl View for PeerInfo {
    type V = PeerInfoView;

    open spec fn view(&self) -> PeerInfoView {
        PeerInfoView {
            name: self.name@,
            label: self.label@,
            target: self.target@,
            connection: self.connection,
            attempt: self.attempt,
            error: crate::text::opt_view(self.error),
            instance_id: crate::text::opt_view(self.instance_id),
            version: crate::text::opt_view(self.version),
            protocol: self.protocol,
            stale: self.stale,
            failed_pane_cleanups: self.failed_pane_cleanups as nat,
            workspaces: super::workspaces::workspaces_view(self.workspaces@),
        }
    }
}

/// Whether a count is left out of an answer.
pub fn is_zero(value: &usize) -> (r: bool)
    ensures
        r == (*value == 0),
{
    *value == 0
}

#[derive(Debug, PartialEq, Eq)]
pub struct PeerTerminalOpenParams {
    /// Local name of the peer. Optional when `target` carries a peer namespace,
    /// which already identifies the peer.
    pub name: Option<String>,
    /// Terminal id, pane id, or agent name to control on the peer.
    pub target: String,
    pub cols: u16,
    pub rows: u16,
    /// Replace an existing writable controller for that terminal on the peer.
    pub takeover: bool,
}

/// Release a peer-backed terminal opened without a workspace around it.
#[derive(Debug, PartialEq, Eq)]
pub struct TerminalTarget {
    pub terminal_id: String,
}

#[derive(Debug, PartialEq, Eq)]
pub struct PeerTerminalInfo {
    /// Local terminal id for the peer-backed terminal.
    pub terminal_id: String,
    pub name: String,
    /// Target as requested, which may be namespaced with the peer instance id.
    pub target: String,
    /// The peer-local id actually sent over the wire.
    pub local_target: String,
    pub cols: u16,
    pub rows: u16,
}

/// The contents of a [`PeerTerminalInfo`].
pub struct PeerTerminalView {
    pub terminal_id: Seq<char>,
    pub name: Seq<char>,
    pub target: Seq<char>,
    pub local_target: Seq<char>,
    pub cols: u16,
    pub rows: u16,
}

impl View for PeerTerminalInfo {
    type V = PeerTerminalView;

    open spec fn view(&self) -> PeerTerminalView {
        PeerTerminalView {
            terminal_id: self.terminal_id@,
            name: self.name@,
            target: self.target@,
            local_target: self.local_target@,
            cols: self.cols,
            rows: self.rows,
        }
    }
}

/// Create a workspace on a peer and open a local view onto it.
#[derive(Debug, PartialEq, Eq)]
pub struct PeerWorkspaceCreateParams {
    /// Local name of the peer to create the workspace on.
    pub name: String,
    /// Working directory for the new workspace, resolved on the peer.
    pub cwd: Option<String>,
    /// Label for the local view. Defaults to the peer name and target.
    pub label: Option<String>,
    pub focus: bool,
}

#[derive(Debug, PartialEq, Eq)]
pub struct PeerWorkspaceOpenParams {
    /// Namespaced or peer-local id of the pane or terminal to view.
    pub target: String,
    /// Local name of the peer. Optional when `target` carries a peer namespace.
    pub name: Option<String>,
    /// Label for the local workspace. Defaults to the peer name.
    pub label: Option<String>,
    pub focus: bool,
    /// Replace an existing writable controller for that terminal on the peer.
    pub takeover: bool,
}

} // verus!
