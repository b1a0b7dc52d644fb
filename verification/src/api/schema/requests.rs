//! The requests that can concern a peer.

use vstd::prelude::*;

use super::peers::{PeerTerminalOpenParams, PeerWorkspaceCreateParams, PeerWorkspaceOpenParams};

verus! {

#[derive(Debug, PartialEq, Eq)]
pub struct WorkspaceRenameParams {
    pub workspace_id: String,
    pub label: String,
}

#[derive(Debug, PartialEq, Eq)]
pub struct WorkspaceTarget {
    pub workspace_id: String,
}

#[derive(Debug, PartialEq, Eq)]
pub struct WorkspaceCreateParams {
    pub cwd: Option<String>,
    pub focus: bool,
    pub label: Option<String>,
    pub env: Vec<(String, String)>,
}

#[derive(Debug, PartialEq, Eq)]
pub struct TabCreateParams {
    pub workspace_id: Option<String>,
    pub cwd: Option<String>,
    pub focus: bool,
    pub label: Option<String>,
    pub env: Vec<(String, String)>,
}

#[derive(Debug, PartialEq, Eq)]
pub struct TabRenameParams {
    pub tab_id: String,
    pub label: String,
}

#[derive(Debug, PartialEq, Eq)]
pub struct WorktreeListParams {
    pub workspace_id: Option<String>,
    pub cwd: Option<String>,
}

#[derive(Debug, PartialEq, Eq)]
pub struct WorktreeCreateParams {
    pub workspace_id: Option<String>,
    pub cwd: Option<String>,
    pub branch: Option<String>,
    pub base: Option<String>,
    pub path: Option<String>,
    pub label: Option<String>,
    pub focus: bool,
}

#[derive(Debug, PartialEq, Eq)]
pub struct WorktreeOpenParams {
    pub workspace_id: Option<String>,
    pub cwd: Option<String>,
    pub path: Option<String>,
    pub branch: Option<String>,
    pub label: Option<String>,
    pub focus: bool,
}

#[derive(Debug, PartialEq, Eq)]
pub struct WorktreeRemoveParams {
    pub workspace_id: String,
    pub force: bool,
}

/// Which side of a pane a split goes to.
#[derive(Debug, Clone, Copy, PartialEq, Eq, Structural)]
pub enum SplitDirection {
    Right,
    Down,
}

/// How a layout is divided.
#[derive(Debug, Clone, Copy, PartialEq, Eq, Structural)]
pub enum Direction {
    Horizontal,
    Vertical,
}

#[derive(Debug, PartialEq, Eq)]
pub struct PaneSplitParams {
    pub workspace_id: Option<String>,
    pub target_pane_id: Option<String>,
    pub direction: SplitDirection,
    /// What a right click does in the new pane, as it was asked for.
    pub right_click: String,
    /// The share of the room the split pane keeps: the bits of a single-precision
    /// number.
    pub ratio: Option<u32>,
    pub cwd: Option<String>,
    pub focus: bool,
    pub env: Vec<(String, String)>,
    /// The instance the new pane backs a view of.
    pub owner_instance_id: Option<String>,
}

/// A read of what a pane shows. `options` says what to read and how, as it was
/// asked for.
#[derive(Debug, PartialEq, Eq)]
pub struct PaneReadParams {
    pub pane_id: String,
    pub options: String,
}

#[derive(Debug, PartialEq, Eq)]
pub struct PaneReadRangeParams {
    pub pane_id: String,
    pub options: String,
}

#[derive(Debug, PartialEq, Eq)]
pub struct PaneTextQueryParams {
    pub pane_id: String,
    pub options: String,
}

#[derive(Debug, PartialEq, Eq)]
pub struct AgentReadParams {
    pub target: String,
    pub options: String,
}

#[derive(Debug, PartialEq, Eq)]
pub struct AgentTarget {
    pub target: String,
}

#[derive(Debug, PartialEq, Eq)]
pub struct PaneTarget {
    pub pane_id: String,
}

#[derive(Debug, PartialEq, Eq)]
pub struct TabTarget {
    pub tab_id: String,
}

#[derive(Debug, PartialEq, Eq)]
pub struct PaneListParams {
    pub workspace_id: Option<String>,
}

/// What is asked for.
#[derive(Debug, PartialEq, Eq)]
pub enum Method {
    WorkspaceRename(WorkspaceRenameParams),
    WorkspaceClose(WorkspaceTarget),
    WorkspaceFocus(WorkspaceTarget),
    WorkspaceCreate(WorkspaceCreateParams),
    WorkspaceList,
    PeerWorkspaceCreate(PeerWorkspaceCreateParams),
    PeerWorkspaceOpen(PeerWorkspaceOpenParams),
    PeerTerminalOpen(PeerTerminalOpenParams),
    TabCreate(TabCreateParams),
    TabRename(TabRenameParams),
    TabFocus(TabTarget),
    TabClose(TabTarget),
    WorktreeList(WorktreeListParams),
    WorktreeCreate(WorktreeCreateParams),
    WorktreeOpen(WorktreeOpenParams),
    WorktreeRemove(WorktreeRemoveParams),
    PaneSplit(PaneSplitParams),
    PaneRead(PaneReadParams),
    PaneReadRange(PaneReadRangeParams),
    PaneTextQuery(PaneTextQueryParams),
    PaneGet(PaneTarget),
    PaneClose(PaneTarget),
    PaneList(PaneListParams),
    AgentRead(AgentReadParams),
    AgentExplain(AgentTarget),
    PaneFocus(PaneTarget),
    ServerReloadConfig,
    // These never concern a peer, and hold their parameters as they were asked for.
    WorkspaceMove(String),
    WorkspaceMoveBlock(String),
    TabMove(String),
    PaneRename(String),
    PaneInputSet(String),
    PaneFocusDirection(String),
    PaneResize(String),
    PaneSwap(String),
    PaneZoom(String),
    LayoutSetSplitRatio(String),
    /// Any other request that never concerns a peer.
    Other,
}

/// A request and the id its answer goes by.
#[derive(Debug, PartialEq, Eq)]
pub struct Request {
    pub id: String,
    pub method: Method,
}

/// How the program in a pane asked for its keys to be encoded.
#[derive(Debug, Clone, Copy, PartialEq, Eq, Structural)]
pub enum KeyboardProtocolInfo {
    Legacy,
    Kitty { flags: u16 },
}

/// A pane as its server reports it.
#[derive(Debug, PartialEq, Eq)]
pub struct PaneInfo {
    pub pane_id: String,
    pub terminal_id: String,
    pub focused: bool,
    pub cwd: Option<String>,
    pub foreground_cwd: Option<String>,
    pub terminal_title: Option<String>,
    pub agent_osc_title: Option<String>,
    pub agent_osc_progress: Option<String>,
    pub agent: Option<String>,
    pub agent_status: super::workspaces::AgentStatus,
    pub keyboard_protocol: Option<KeyboardProtocolInfo>,
}

} // verus!
