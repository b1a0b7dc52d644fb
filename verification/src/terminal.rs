//! Terminals, and the views onto a peer's terminals.

use vstd::prelude::*;

use crate::api::schema::requests::KeyboardProtocolInfo;
use crate::api::schema::workspaces::AgentStatus;
use crate::paths::same_optional_path;
use crate::text::{opt_clone, opt_eq, str_eq};

verus! {

/// The id of a terminal of this server.
#[derive(Debug, PartialEq, Eq, Hash)]
pub struct TerminalId(String);

impl View for TerminalId {
    type V = Seq<char>;

    closed spec fn view(&self) -> Seq<char> {
        self.0@
    }
}

impl Clone for TerminalId {
    fn clone(&self) -> (r: Self)
        ensures
            r == *self,
    {
        TerminalId(self.0.clone())
    }
}

impl TerminalId {
    pub fn new(id: &str) -> (r: Self)
        ensures
            r@ == id@,
    {
        TerminalId(id.to_owned())
    }

    pub fn as_str(&self) -> (r: &str)
        ensures
            r@ == self@,
    {
        self.0.as_str()
    }

    /// Whether this is the terminal `other`.
    pub fn is(&self, other: &TerminalId) -> (r: bool)
        ensures
            r == (self@ == other@),
    {
        str_eq(self.as_str(), other.as_str())
    }
}

/// The size of a terminal in cells.
#[derive(Debug, Clone, Copy, PartialEq, Eq, Structural)]
pub struct TerminalSize {
    pub rows: u16,
    pub cols: u16,
}

/// What a peer last reported about the pane behind a view.
#[derive(Debug, PartialEq, Eq)]
pub struct RemotePaneMetadata {
    pub cwd: Option<String>,
    pub foreground_cwd: Option<String>,
    pub terminal_title: Option<String>,
    pub agent_osc_title: Option<String>,
    pub agent_osc_progress: Option<String>,
    pub agent: Option<String>,
    pub agent_status: Option<AgentStatus>,
    pub keyboard_protocol: Option<KeyboardProtocolInfo>,
}

/// The contents of a [`RemotePaneMetadata`].
pub struct MetadataView {
    pub cwd: Option<Seq<char>>,
    pub foreground_cwd: Option<Seq<char>>,
    pub terminal_title: Option<Seq<char>>,
    pub agent_osc_title: Option<Seq<char>>,
    pub agent_osc_progress: Option<Seq<char>>,
    pub agent: Option<Seq<char>>,
    pub agent_status: Option<AgentStatus>,
    pub keyboard_protocol: Option<KeyboardProtocolInfo>,
}

impl View for RemotePaneMetadata {
    type V = MetadataView;

    open spec fn view(&self) -> MetadataView {
        MetadataView {
            cwd: crate::text::opt_view(self.cwd),
            foreground_cwd: crate::text::opt_view(self.foreground_cwd),
            terminal_title: crate::text::opt_view(self.terminal_title),
            agent_osc_title: crate::text::opt_view(self.agent_osc_title),
            agent_osc_progress: crate::text::opt_view(self.agent_osc_progress),
            agent: crate::text::opt_view(self.agent),
            agent_status: self.agent_status,
            keyboard_protocol: self.keyboard_protocol,
        }
    }
}

/// The reports say the same, however their paths are spelled.
pub open spec fn same_report(a: MetadataView, b: MetadataView) -> bool {
    &&& crate::paths::is_same_optional(a.cwd, b.cwd)
    &&& crate::paths::is_same_optional(a.foreground_cwd, b.foreground_cwd)
    &&& a == (MetadataView { cwd: a.cwd, foreground_cwd: a.foreground_cwd, ..b })
}

/// Whether two optional statuses are equal.
pub fn same_status(a: Option<AgentStatus>, b: Option<AgentStatus>) -> (r: bool)
    ensures
        r == (a == b),
{
    match (a, b) {
        (Some(a), Some(b)) => a == b,
        (None, None) => true,
        _ => false,
    }
}

/// Whether two optional protocols are equal.
pub fn same_protocol(a: Option<KeyboardProtocolInfo>, b: Option<KeyboardProtocolInfo>) -> (r: bool)
    ensures
        r == (a == b),
{
    match (a, b) {
        (Some(a), Some(b)) => a == b,
        (None, None) => true,
        _ => false,
    }
}

impl Clone for RemotePaneMetadata {
    fn clone(&self) -> (r: Self)
        ensures
            r == *self,
    {
        RemotePaneMetadata {
            cwd: opt_clone(&self.cwd),
            foreground_cwd: opt_clone(&self.foreground_cwd),
            terminal_title: opt_clone(&self.terminal_title),
            agent_osc_title: opt_clone(&self.agent_osc_title),
            agent_osc_progress: opt_clone(&self.agent_osc_progress),
            agent: opt_clone(&self.agent),
            agent_status: self.agent_status,
            keyboard_protocol: self.keyboard_protocol,
        }
    }
}

impl RemotePaneMetadata {
    /// Whether two reports say the same.
    pub fn same(&self, other: &RemotePaneMetadata) -> (r: bool)
        ensures
            r == same_report(self@, other@),
    {
        same_optional_path(&self.cwd, &other.cwd) && same_optional_path(
            &self.foreground_cwd,
            &other.foreground_cwd,
        ) && opt_eq(&self.terminal_title, &other.terminal_title) && opt_eq(
            &self.agent_osc_title,
            &other.agent_osc_title,
        ) && opt_eq(&self.agent_osc_progress, &other.agent_osc_progress) && opt_eq(
            &self.agent,
            &other.agent,
        ) && same_status(self.agent_status, other.agent_status) && same_protocol(
            self.keyboard_protocol,
            other.keyboard_protocol,
        )
    }
}

/// Where a view's connection stands.
#[derive(Debug, Clone, Copy, PartialEq, Eq, Structural)]
pub enum PeerViewState {
    Connected,
    /// The connection is down and will be tried again.
    Reconnecting,
    /// Nothing tries again.
    Disconnected,
}

/// A view onto a terminal of a peer.
///
/// The peer renders the terminal; a view holds one control connection to it and
/// what is needed to keep that connection up.
#[derive(Debug, PartialEq, Eq)]
pub struct RemoteView {
    /// The handle of the peer.
    pub peer: String,
    /// The peer-local id that is viewed, kept verbatim across reconnects.
    pub target: String,
    /// The server instance the view attached to, when it said.
    pub instance: Option<String>,
    /// This server asked the peer for the pane, so closing the view closes it.
    pub spawned_on_peer: bool,
    pub size: TerminalSize,
    /// Why the view stopped retrying, once it has.
    pub dead: Option<String>,
    /// The control connection is up.
    pub connected: bool,
    /// An attempt to reconnect is under way.
    pub in_flight: bool,
    /// The wait since the last attempt is over.
    pub backoff_over: bool,
    /// Set when no further attempt is to be made, with the reason.
    pub refused: Option<String>,
    /// The peer said that the target does not exist.
    pub target_gone: bool,
    /// The state that was last announced.
    pub announced: PeerViewState,
    pub metadata: Option<RemotePaneMetadata>,
}

/// A pane this server had a peer spawn.
#[derive(Debug, PartialEq, Eq)]
pub struct SpawnedPeerPane {
    pub peer: String,
    pub peer_pane_id: String,
    pub expected_instance: Option<String>,
}

impl RemoteView {
    /// The view is attached to a server other than `instance`.
    pub open spec fn on_other_server(self, instance: Seq<char>) -> bool {
        self.instance is Some && self.instance->0@ != instance
    }

    /// The view is down, nothing is under way, and it may try again.
    pub open spec fn due(self) -> bool {
        self.dead is None && !self.connected && !self.in_flight && self.backoff_over
    }

    /// The target names a pane or a terminal, which is gone for good when the
    /// peer does not know it; a name can come back.
    pub open spec fn names_a_pane(self) -> bool {
        crate::public_id::workspace_of_pane(self.target@) is Some || crate::text::has_prefix(
            self.target@,
            "term_"@,
        )
    }

    /// The view is onto this pane or terminal of this peer.
    pub open spec fn views(self, peer: Seq<char>, pane: Seq<char>, terminal: Seq<char>) -> bool {
        self.peer@ == peer && (self.target@ == pane || self.target@ == terminal)
    }

    /// This view in the slot that `previous` held.
    pub open spec fn inheriting(self, previous: RemoteView) -> RemoteView {
        RemoteView {
            spawned_on_peer: previous.spawned_on_peer,
            announced: previous.announced,
            metadata: previous.metadata,
            ..self
        }
    }

    /// Where the connection stands.
    pub open spec fn stands(self) -> PeerViewState {
        if self.dead is Some {
            PeerViewState::Disconnected
        } else if self.connected {
            PeerViewState::Connected
        } else {
            PeerViewState::Reconnecting
        }
    }

    pub fn state(&self) -> (r: PeerViewState)
        ensures
            r == self.stands(),
    {
        if self.dead.is_some() {
            PeerViewState::Disconnected
        } else if self.connected {
            PeerViewState::Connected
        } else {
            PeerViewState::Reconnecting
        }
    }

    /// The state, when it is not the one that was last announced; it counts as
    /// announced from now on.
    pub fn take_view_state_change(&mut self) -> (r: Option<PeerViewState>)
        ensures
            match r {
                Some(state) => old(self).announced != state && state == old(self).stands(),
                None => old(self).announced == old(self).stands(),
            },
            *final(self) == (RemoteView { announced: old(self).stands(), ..*old(self) }),
    {
        let state = self.state();
        if self.announced == state {
            None
        } else {
            self.announced = state;
            Some(state)
        }
    }

    /// Gives up the claim that closing the view closes the pane.
    pub fn clear_spawned_on_peer(&mut self)
        ensures
            *final(self) == (RemoteView { spawned_on_peer: false, ..*old(self) }),
    {
        self.spawned_on_peer = false;
    }

    /// Takes over what outlives a connection from the view that held the slot:
    /// the claim on the pane, what the peer reported, and what was announced.
    pub fn inherit_from(&mut self, previous: &RemoteView)
        ensures
            *final(self) == old(self).inheriting(*previous),
    {
        self.spawned_on_peer = previous.spawned_on_peer;
        self.announced = previous.announced;
        self.metadata = match &previous.metadata {
            Some(metadata) => Some(metadata.clone()),
            None => None,
        };
    }

    /// Makes the next attempt due at once.
    pub fn retry_now(&mut self)
        ensures
            *final(self) == (RemoteView { backoff_over: true, ..*old(self) }),
    {
        self.backoff_over = true;
    }

    /// Stores a report, and says whether it says anything new.
    pub fn set_metadata(&mut self, metadata: RemotePaneMetadata) -> (r: bool)
        ensures
            r == !(old(self).metadata is Some && same_report(old(self).metadata->0@, metadata@)),
            *final(self) == (RemoteView {
                metadata: if r {
                    Some(metadata)
                } else {
                    old(self).metadata
                },
                ..*old(self)
            }),
    {
        let same = match &self.metadata {
            Some(previous) => previous.same(&metadata),
            None => false,
        };
        if !same {
            self.metadata = Some(metadata);
        }
        !same
    }

    pub fn is_on_other_server(&self, instance: &str) -> (r: bool)
        ensures
            r == self.on_other_server(instance@),
    {
        match &self.instance {
            Some(own) => !str_eq(own.as_str(), instance),
            None => false,
        }
    }

    pub fn reconnect_due(&self) -> (r: bool)
        ensures
            r == self.due(),
    {
        self.dead.is_none() && !self.connected && !self.in_flight && self.backoff_over
    }

    pub fn target_is_a_pane_or_terminal(&self) -> (r: bool)
        ensures
            r == self.names_a_pane(),
    {
        crate::public_id::peer_workspace_of_pane_id(self.target.as_str()).is_some()
            || crate::text::starts_with(self.target.as_str(), "term_")
    }

    pub fn views_peer_pane(&self, peer: &str, pane: &str, terminal: &str) -> (r: bool)
        ensures
            r == self.views(peer@, pane@, terminal@),
    {
        str_eq(self.peer.as_str(), peer) && (str_eq(self.target.as_str(), pane) || str_eq(
            self.target.as_str(),
            terminal,
        ))
    }

    /// The pane behind this view, if this server had the peer spawn it.
    pub fn spawned_peer_pane(&self) -> (r: Option<SpawnedPeerPane>)
        ensures
            match r {
                Some(pane) => {
                    &&& self.spawned_on_peer
                    &&& pane.peer == self.peer
                    &&& pane.peer_pane_id == self.target
                    &&& pane.expected_instance == self.instance
                },
                None => !self.spawned_on_peer,
            },
    {
        if self.spawned_on_peer {
            Some(
                SpawnedPeerPane {
                    peer: self.peer.clone(),
                    peer_pane_id: self.target.clone(),
                    expected_instance: opt_clone(&self.instance),
                },
            )
        } else {
            None
        }
    }

    /// Starts an attempt to reconnect, or gives the view up when none is to be
    /// made. Returns whether an attempt is under way.
    pub fn begin_reconnect(&mut self) -> (r: bool)
        ensures
            r == (old(self).refused is None),
            r ==> *final(self) == (RemoteView { in_flight: true, ..*old(self) }),
            !r ==> *final(self) == (RemoteView {
                dead: old(self).refused,
                ..*old(self)
            }),
    {
        match &self.refused {
            Some(reason) => {
                self.dead = Some(reason.clone());
                false
            },
            None => {
                self.in_flight = true;
                true
            },
        }
    }

    /// Stops retrying for good.
    pub fn mark_dead(&mut self, reason: String)
        ensures
            *final(self) == (RemoteView { dead: Some(reason), ..*old(self) }),
    {
        self.dead = Some(reason);
    }

    /// Notes that an attempt failed; the next one waits.
    pub fn reconnect_failed(&mut self)
        ensures
            *final(self) == (RemoteView { in_flight: false, backoff_over: false, ..*old(self) }),
    {
        self.in_flight = false;
        self.backoff_over = false;
    }
}

/// What runs a terminal of this server.
#[derive(Debug, PartialEq, Eq)]
pub enum TerminalRuntime {
    /// A process on this machine.
    Local { size: TerminalSize },
    /// A view onto a peer's terminal.
    Remote(RemoteView),
}

impl TerminalRuntime {
    /// The terminal's size.
    pub open spec fn size(self) -> TerminalSize {
        match self {
            TerminalRuntime::Local { size } => size,
            TerminalRuntime::Remote(view) => view.size,
        }
    }

    pub fn current_size(&self) -> (r: TerminalSize)
        ensures
            r == self.size(),
    {
        match self {
            TerminalRuntime::Local { size } => *size,
            TerminalRuntime::Remote(view) => view.size,
        }
    }
}

} // verus!
