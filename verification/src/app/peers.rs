//! Peer state for federated servers.
//!
//! A *peer* is another server this one connects out to. This module holds what
//! has been learned about each peer: how to reach it, whether the connection is
//! up, and the workspaces it last reported.

use vstd::prelude::*;
use vstd::std_specs::cmp::PartialEqSpecImpl;

use crate::api::schema::peers::PeerConnectionKind;
use crate::api::schema::workspaces::{same_workspaces, WorkspaceInfo};
use crate::instance_id::is_instance_id;
use crate::paths::{same_optional_path, same_path};
use crate::text::{cat3, opt_clone, opt_eq, opt_is, str_eq, str_split_once};

verus! {

/// A peer's id with its namespace: the instance id, a colon, the local id.
pub open spec fn prefixed(instance_id: Seq<char>, local_id: Seq<char>) -> Seq<char> {
    instance_id + seq![':'] + local_id
}

/// `id` carries the namespace of this instance.
pub open spec fn is_prefixed(instance_id: Seq<char>, id: Seq<char>) -> bool {
    crate::text::has_prefix(id, instance_id.push(':'))
}

/// The instance id and the local id that a namespaced id is made of; `None` for
/// a local id.
pub open spec fn split_id(id: Seq<char>) -> Option<(Seq<char>, Seq<char>)> {
    match crate::text::split_once(id, ':') {
        Some((head, rest)) if crate::instance_id::instance_id_shape(head) && rest.len() > 0 => Some(
            (head, rest),
        ),
        _ => None,
    }
}

/// Namespaces one of a peer's ids with that peer's instance id.
///
/// Peer ids are only unique inside the peer's own process, so every id that
/// crosses into this server is prefixed exactly once, at ingest.
pub fn prefix_peer_id(instance_id: &str, local_id: &str) -> (r: String)
    ensures
        r@ == prefixed(instance_id@, local_id@),
{
    proof {
        reveal_strlit(":");
    }
    let r = cat3(instance_id, ":", local_id);
    assert(":"@ =~= seq![':']);
    r
}

/// Splits a namespaced id back into `(instance_id, local_id)`.
///
/// Returns `None` for a local id: an instance id is 32 lowercase hex characters
/// and a local workspace id starts with `w`, so no escape or lookup table is
/// needed.
pub fn split_peer_id(id: &str) -> (r: Option<(&str, &str)>)
    ensures
        match r {
            Some(parts) => split_id(id@) == Some((parts.0@, parts.1@)),
            None => split_id(id@) is None,
        },
{
    match str_split_once(id, ':') {
        Some((head, rest)) => if is_instance_id(head) && !rest.is_empty() {
            Some((head, rest))
        } else {
            None
        },
        None => None,
    }
}

/// Whether `id` belongs to a peer rather than this server.
pub fn is_peer_id(id: &str) -> (r: bool)
    ensures
        r == (split_id(id@) is Some),
{
    split_peer_id(id).is_some()
}

/// Every id that was namespaced splits back into what it was made of.
pub proof fn law_peer_ids_round_trip(instance_id: Seq<char>, local_id: Seq<char>)
    requires
        crate::instance_id::instance_id_shape(instance_id),
        local_id.len() > 0,
    ensures
        split_id(prefixed(instance_id, local_id)) == Some((instance_id, local_id)),
{
    let id = prefixed(instance_id, local_id);
    let at = instance_id.len() as int;
    assert forall|j: int| 0 <= j < at implies id[j] != ':' by {
        assert(id[j] == instance_id[j]);
        assert(crate::instance_id::is_hex_digit(instance_id[j]));
    }
    crate::text::lemma_find_is(id, ':', 0, at);
    assert(id.take(at) == instance_id);
    assert(id.skip(at + 1) == local_id);
}

/// An id that splits is the namespaced form of its two parts.
pub proof fn law_split_ids_are_prefixed(id: Seq<char>)
    requires
        split_id(id) is Some,
    ensures
        id == prefixed((split_id(id)->0).0, (split_id(id)->0).1),
{
    crate::text::lemma_find_from(id, ':', 0);
    let at = crate::text::find_from(id, ':', 0);
    assert(id =~= id.take(at) + seq![':'] + id.skip(at + 1));
}

/// An id that does not begin with a hex digit is never mistaken for a peer's:
/// no local workspace id (`w` and more) and no local pane id is.
pub proof fn law_local_ids_are_not_peer_ids(id: Seq<char>)
    requires
        id.len() == 0 || !crate::instance_id::is_hex_digit(id[0]),
    ensures
        split_id(id) is None,
{
    if split_id(id) is Some {
        crate::text::lemma_find_from(id, ':', 0);
        let head = (split_id(id)->0).0;
        assert(crate::instance_id::is_hex_digit(head[0]));
        assert(head[0] == id[0]);
    }
}

/// Locally assigned, stable key for a configured peer.
///
/// Chosen when the peer is added, before its instance id is known, so it can
/// name a peer that has never successfully connected.
#[derive(Debug, PartialEq, Eq, PartialOrd, Ord, Hash)]
pub struct PeerHandle(String);

impl View for PeerHandle {
    type V = Seq<char>;

    closed spec fn view(&self) -> Seq<char> {
        self.0@
    }
}

impl Clone for PeerHandle {
    fn clone(&self) -> (r: Self)
        ensures
            r == *self,
    {
        PeerHandle(self.0.clone())
    }
}

impl PeerHandle {
    pub fn new(handle: &str) -> (r: Self)
        ensures
            r@ == handle@,
    {
        PeerHandle(handle.to_owned())
    }

    pub fn as_str(&self) -> (r: &str)
        ensures
            r@ == self@,
    {
        self.0.as_str()
    }

    /// Whether this is the handle `other`.
    pub fn is(&self, other: &PeerHandle) -> (r: bool)
        ensures
            r == (self@ == other@),
    {
        str_eq(self.as_str(), other.as_str())
    }
}

/// Where a peer's JSON API socket lives. Two targets are equal when they reach the
/// same place by the same route, however a path is spelled.
#[derive(Debug, Eq)]
pub enum PeerTarget {
    /// A socket path reachable directly on this machine.
    SocketPath(String),
    /// An SSH destination. The socket path is resolved on the remote host.
    Ssh { destination: String, session: Option<String> },
}

/// The contents of a [`PeerTarget`].
pub enum TargetView {
    SocketPath(Seq<char>),
    Ssh { destination: Seq<char>, session: Option<Seq<char>> },
}

impl View for PeerTarget {
    type V = TargetView;

    open spec fn view(&self) -> TargetView {
        match self {
            PeerTarget::SocketPath(path) => TargetView::SocketPath(path@),
            PeerTarget::Ssh { destination, session } => TargetView::Ssh {
                destination: destination@,
                session: crate::text::opt_view(*session),
            },
        }
    }
}

/// The targets reach the same place by the same route: one path, however it is
/// spelled, or one session of one destination.
pub open spec fn same_target(a: TargetView, b: TargetView) -> bool {
    match (a, b) {
        (TargetView::SocketPath(a), TargetView::SocketPath(b)) => crate::paths::is_same_path(a, b),
        (TargetView::Ssh { .. }, TargetView::Ssh { .. }) => a == b,
        _ => false,
    }
}

impl TargetView {
    /// Short human-readable form.
    pub open spec fn description(self) -> Seq<char> {
        match self {
            TargetView::SocketPath(path) => path,
            TargetView::Ssh { destination, session: None } => destination,
            TargetView::Ssh { destination, session: Some(session) } => destination + ":"@ + session,
        }
    }
}

impl Clone for PeerTarget {
    fn clone(&self) -> (r: Self)
        ensures
            r == *self,
    {
        match self {
            PeerTarget::SocketPath(path) => PeerTarget::SocketPath(path.clone()),
            PeerTarget::Ssh { destination, session } => PeerTarget::Ssh {
                destination: destination.clone(),
                session: opt_clone(session),
            },
        }
    }
}

impl PeerTarget {
    /// Short human-readable form, used as the default peer label.
    pub fn describe(&self) -> (r: String)
        ensures
            r@ == self@.description(),
    {
        match self {
            PeerTarget::SocketPath(path) => path.clone(),
            PeerTarget::Ssh { destination, session: None } => destination.clone(),
            PeerTarget::Ssh { destination, session: Some(session) } => cat3(
                destination.as_str(),
                ":",
                session.as_str(),
            ),
        }
    }

    /// Whether two targets reach the same place by the same route.
    pub fn same(&self, other: &PeerTarget) -> (r: bool)
        ensures
            r == same_target(self@, other@),
    {
        match (self, other) {
            (PeerTarget::SocketPath(a), PeerTarget::SocketPath(b)) => same_path(
                a.as_str(),
                b.as_str(),
            ),
            (
                PeerTarget::Ssh { destination: a, session: s },
                PeerTarget::Ssh { destination: b, session: t },
            ) => str_eq(a.as_str(), b.as_str()) && opt_eq(s, t),
            _ => false,
        }
    }
}

impl PartialEq for PeerTarget {
    fn eq(&self, other: &Self) -> (r: bool) {
        self.same(other)
    }
}

impl PartialEqSpecImpl for PeerTarget {
    open spec fn obeys_eq_spec() -> bool {
        true
    }

    open spec fn eq_spec(&self, other: &Self) -> bool {
        same_target(self@, other@)
    }
}

/// Lifecycle of one peer connection.
#[derive(Debug, PartialEq, Eq)]
pub enum PeerConnectionState {
    /// First connection attempt has not resolved yet.
    Connecting,
    /// Control channel is up and the peer has been identified.
    Connected,
    /// The connection failed and is being retried. `message` is why the last
    /// attempt failed.
    Reconnecting { attempt: u32, message: String },
    /// Failed in a way retrying cannot fix; the connection loop has stopped and
    /// the user has to act.
    Error { message: String },
}

/// The contents of a [`PeerConnectionState`].
pub enum ConnectionView {
    Connecting,
    Connected,
    Reconnecting { attempt: u32, message: Seq<char> },
    Error { message: Seq<char> },
}

impl View for PeerConnectionState {
    type V = ConnectionView;

    open spec fn view(&self) -> ConnectionView {
        match self {
            PeerConnectionState::Connecting => ConnectionView::Connecting,
            PeerConnectionState::Connected => ConnectionView::Connected,
            PeerConnectionState::Reconnecting { attempt, message } => ConnectionView::Reconnecting {
                attempt: *attempt,
                message: message@,
            },
            PeerConnectionState::Error { message } => ConnectionView::Error { message: message@ },
        }
    }
}

impl Clone for PeerConnectionState {
    fn clone(&self) -> (r: Self)
        ensures
            r@ == self@,
    {
        match self {
            PeerConnectionState::Connecting => PeerConnectionState::Connecting,
            PeerConnectionState::Connected => PeerConnectionState::Connected,
            PeerConnectionState::Reconnecting { attempt, message } =>
                PeerConnectionState::Reconnecting { attempt: *attempt, message: message.clone() },
            PeerConnectionState::Error { message } => PeerConnectionState::Error {
                message: message.clone(),
            },
        }
    }
}

impl ConnectionView {
    /// This state without its payload.
    pub open spec fn kind(self) -> PeerConnectionKind {
        match self {
            ConnectionView::Connecting => PeerConnectionKind::Connecting,
            ConnectionView::Connected => PeerConnectionKind::Connected,
            ConnectionView::Reconnecting { .. } => PeerConnectionKind::Reconnecting,
            ConnectionView::Error { .. } => PeerConnectionKind::Error,
        }
    }
}

impl PeerConnectionState {
    pub fn is_connected(&self) -> (r: bool)
        ensures
            r == (self@ is Connected),
    {
        matches!(self, PeerConnectionState::Connected)
    }

    /// Whether content from this peer should render as stale.
    pub fn is_stale(&self) -> (r: bool)
        ensures
            r == !(self@ is Connected),
    {
        !self.is_connected()
    }

    /// Short label for status output and the sidebar.
    pub fn label(&self) -> (r: &'static str)
        ensures
            r@ == self@.kind().text(),
    {
        self.kind().label()
    }

    /// This state without its payload, as clients are told it.
    ///
    /// The attempt count and the failure message are reported in their own
    /// fields, so the wire type carries only which of the four states this is.
    pub fn kind(&self) -> (r: PeerConnectionKind)
        ensures
            r == self@.kind(),
    {
        match self {
            PeerConnectionState::Connecting => PeerConnectionKind::Connecting,
            PeerConnectionState::Connected => PeerConnectionKind::Connected,
            PeerConnectionState::Reconnecting { .. } => PeerConnectionKind::Reconnecting,
            PeerConnectionState::Error { .. } => PeerConnectionKind::Error,
        }
    }

    /// Whether two states are equal, payload and all.
    pub fn same(&self, other: &PeerConnectionState) -> (r: bool)
        ensures
            r == (self@ == other@),
    {
        match (self, other) {
            (PeerConnectionState::Connecting, PeerConnectionState::Connecting) => true,
            (PeerConnectionState::Connected, PeerConnectionState::Connected) => true,
            (
                PeerConnectionState::Reconnecting { attempt: a, message: m },
                PeerConnectionState::Reconnecting { attempt: b, message: n },
            ) => *a == *b && str_eq(m.as_str(), n.as_str()),
            (
                PeerConnectionState::Error { message: m },
                PeerConnectionState::Error { message: n },
            ) => str_eq(m.as_str(), n.as_str()),
            _ => false,
        }
    }
}

/// What a peer reported about itself on its last successful ping.
#[derive(Debug, PartialEq, Eq)]
pub struct PeerIdentity {
    pub instance_id: String,
    pub version: Option<String>,
    pub protocol: Option<u32>,
}

/// The contents of a [`PeerIdentity`].
pub struct IdentityView {
    pub instance_id: Seq<char>,
    pub version: Option<Seq<char>>,
    pub protocol: Option<u32>,
}

impl View for PeerIdentity {
    type V = IdentityView;

    open spec fn view(&self) -> IdentityView {
        IdentityView {
            instance_id: self.instance_id@,
            version: crate::text::opt_view(self.version),
            protocol: self.protocol,
        }
    }
}

impl Clone for PeerIdentity {
    fn clone(&self) -> (r: Self)
        ensures
            r@ == self@,
    {
        PeerIdentity {
            instance_id: self.instance_id.clone(),
            version: opt_clone(&self.version),
            protocol: self.protocol,
        }
    }
}

impl PeerIdentity {
    /// Whether two reports say the same.
    pub fn same(&self, other: &PeerIdentity) -> (r: bool)
        ensures
            r == (self@ == other@),
    {
        let same_protocol = match (self.protocol, other.protocol) {
            (Some(a), Some(b)) => a == b,
            (None, None) => true,
            _ => false,
        };
        str_eq(self.instance_id.as_str(), other.instance_id.as_str()) && opt_eq(
            &self.version,
            &other.version,
        ) && same_protocol
    }
}

/// A pane left running on a peer because closing it failed.
#[derive(Debug, PartialEq, Eq)]
pub struct PendingPaneCleanup {
    pub peer_pane_id: String,
    /// The instance that issued `peer_pane_id`.
    ///
    /// A retry is only safe while this still matches what the peer reports.
    /// `None` records cannot be retried at all, and exist to be reported.
    pub expected_instance: Option<String>,
    pub reason: String,
}

/// The contents of a [`PendingPaneCleanup`].
pub struct CleanupView {
    pub peer_pane_id: Seq<char>,
    pub expected_instance: Option<Seq<char>>,
    pub reason: Seq<char>,
}

impl View for PendingPaneCleanup {
    type V = CleanupView;

    open spec fn view(&self) -> CleanupView {
        CleanupView {
            peer_pane_id: self.peer_pane_id@,
            expected_instance: crate::text::opt_view(self.expected_instance),
            reason: self.reason@,
        }
    }
}

/// The contents of a list of cleanups.
pub open spec fn cleanups_view(cleanups: Seq<PendingPaneCleanup>) -> Seq<CleanupView> {
    cleanups.map_values(|c: PendingPaneCleanup| c@)
}

impl Clone for PendingPaneCleanup {
    fn clone(&self) -> (r: Self)
        ensures
            r@ == self@,
    {
        PendingPaneCleanup {
            peer_pane_id: self.peer_pane_id.clone(),
            expected_instance: opt_clone(&self.expected_instance),
            reason: self.reason.clone(),
        }
    }
}

/// A copy of a list of cleanups.
fn clone_cleanups(list: &Vec<PendingPaneCleanup>) -> (r: Vec<PendingPaneCleanup>)
    ensures
        cleanups_view(r@) == cleanups_view(list@),
{
    let mut out: Vec<PendingPaneCleanup> = Vec::new();
    let mut i: usize = 0;
    while i < list.len()
        invariant
            i <= list.len(),
            out@.len() == i,
            forall|j: int| 0 <= j < i ==> (#[trigger] out@[j])@ == list@[j]@,
        decreases list.len() - i,
    {
        out.push(list[i].clone());
        i += 1;
    }
    assert(cleanups_view(out@) =~= cleanups_view(list@));
    out
}

impl PendingPaneCleanup {
    /// Whether two records say the same.
    pub fn same(&self, other: &PendingPaneCleanup) -> (r: bool)
        ensures
            r == (self@ == other@),
    {
        str_eq(self.peer_pane_id.as_str(), other.peer_pane_id.as_str()) && opt_eq(
            &self.expected_instance,
            &other.expected_instance,
        ) && str_eq(self.reason.as_str(), other.reason.as_str())
    }
}

/// Whether two lists of cleanups say the same, in the same order.
fn same_cleanups(a: &Vec<PendingPaneCleanup>, b: &Vec<PendingPaneCleanup>) -> (r: bool)
    ensures
        r == (cleanups_view(a@) == cleanups_view(b@)),
{
    if a.len() != b.len() {
        assert(cleanups_view(a@).len() != cleanups_view(b@).len());
        return false;
    }
    let mut i: usize = 0;
    while i < a.len()
        invariant
            i <= a@.len(),
            a@.len() == b@.len(),
            forall|j: int| 0 <= j < i ==> (#[trigger] a@[j])@ == b@[j]@,
        decreases a@.len() - i,
    {
        if !a[i].same(&b[i]) {
            assert(cleanups_view(a@)[i as int] != cleanups_view(b@)[i as int]);
            return false;
        }
        i += 1;
    }
    assert(cleanups_view(a@) =~= cleanups_view(b@));
    true
}

/// How many unresolved cleanups to retain for one peer.
///
/// These exist to be retried and reported, and both stop being useful long
/// before the list gets large; the bound keeps a peer that is broken for a long
/// time from growing it without limit.
pub const MAX_PENDING_PANE_CLEANUPS: usize = 64;

/// Everything known about one configured peer.
#[derive(Debug, Eq)]
pub struct PeerState {
    pub handle: PeerHandle,
    pub label: String,
    pub target: PeerTarget,
    pub connection: PeerConnectionState,
    /// Learned on the first successful ping. Retained across disconnects so a
    /// reconnect can be matched back to the same server.
    pub identity: Option<PeerIdentity>,
    /// Last enumeration received from the peer. Kept while disconnected so the
    /// UI can gray it out instead of blanking.
    pub workspaces: Vec<WorkspaceInfo>,
    /// Local socket an [`PeerTarget::Ssh`] peer became reachable on, learned at
    /// runtime and never persisted.
    pub transport_socket: Option<String>,
    /// Panes spawned on this peer that could not be closed there. The pane id
    /// is the only thing that can undo the leak, so it is retained and not only
    /// counted.
    pub pending_pane_cleanups: Vec<PendingPaneCleanup>,
}

/// The contents of a [`PeerState`].
pub struct PeerView {
    pub handle: Seq<char>,
    pub label: Seq<char>,
    pub target: TargetView,
    pub connection: ConnectionView,
    pub identity: Option<IdentityView>,
    pub workspaces: Seq<crate::api::schema::workspaces::WorkspaceInfoView>,
    pub transport_socket: Option<Seq<char>>,
    pub pending_pane_cleanups: Seq<CleanupView>,
}

impl View for PeerState {
    type V = PeerView;

    open spec fn view(&self) -> PeerView {
        PeerView {
            handle: self.handle@,
            label: self.label@,
            target: self.target@,
            connection: self.connection@,
            identity: match self.identity {
                Some(identity) => Some(identity@),
                None => None,
            },
            workspaces: crate::api::schema::workspaces::workspaces_view(self.workspaces@),
            transport_socket: crate::text::opt_view(self.transport_socket),
            pending_pane_cleanups: cleanups_view(self.pending_pane_cleanups@),
        }
    }
}

impl Clone for PeerState {
    fn clone(&self) -> (r: Self)
        ensures
            r@ == self@,
    {
        PeerState {
            handle: self.handle.clone(),
            label: self.label.clone(),
            target: self.target.clone(),
            connection: self.connection.clone(),
            identity: match &self.identity {
                Some(identity) => Some(identity.clone()),
                None => None,
            },
            workspaces: crate::api::schema::workspaces::clone_workspaces(&self.workspaces),
            transport_socket: opt_clone(&self.transport_socket),
            pending_pane_cleanups: clone_cleanups(&self.pending_pane_cleanups),
        }
    }
}

/// Two peers are known alike; a path is the same however it is spelled.
pub open spec fn same_state(a: PeerView, b: PeerView) -> bool {
    &&& same_target(a.target, b.target)
    &&& crate::paths::is_same_optional(a.transport_socket, b.transport_socket)
    &&& a == (PeerView { target: a.target, transport_socket: a.transport_socket, ..b })
}

impl PeerState {
    /// Whether two peers are known alike.
    pub fn same(&self, other: &PeerState) -> (r: bool)
        ensures
            r == same_state(self@, other@),
    {
        let same_identity = match (&self.identity, &other.identity) {
            (Some(a), Some(b)) => a.same(b),
            (None, None) => true,
            _ => false,
        };
        str_eq(self.handle.as_str(), other.handle.as_str()) && str_eq(
            self.label.as_str(),
            other.label.as_str(),
        ) && self.target.same(&other.target) && self.connection.same(&other.connection)
            && same_identity && same_workspaces(&self.workspaces, &other.workspaces)
            && same_optional_path(&self.transport_socket, &other.transport_socket)
            && same_cleanups(&self.pending_pane_cleanups, &other.pending_pane_cleanups)
    }
}

impl PartialEq for PeerState {
    fn eq(&self, other: &Self) -> (r: bool) {
        self.same(other)
    }
}

impl PartialEqSpecImpl for PeerState {
    open spec fn obeys_eq_spec() -> bool {
        true
    }

    open spec fn eq_spec(&self, other: &Self) -> bool {
        same_state(self@, other@)
    }
}

impl PeerView {
    /// A peer that was just configured: never connected, with nothing learned.
    pub open spec fn fresh(handle: Seq<char>, target: TargetView) -> PeerView {
        PeerView {
            handle,
            label: target.description(),
            target,
            connection: ConnectionView::Connecting,
            identity: None,
            workspaces: Seq::empty(),
            transport_socket: None,
            pending_pane_cleanups: Seq::empty(),
        }
    }

    /// The instance id the peer reported, if it has.
    pub open spec fn instance_id(self) -> Option<Seq<char>> {
        match self.identity {
            Some(identity) => Some(identity.instance_id),
            None => None,
        }
    }

    /// The local socket the peer's API is reachable on, if it is at all yet.
    pub open spec fn api_socket(self) -> Option<Seq<char>> {
        match self.target {
            TargetView::SocketPath(path) => Some(path),
            TargetView::Ssh { .. } => self.transport_socket,
        }
    }

    /// Every stored workspace id and active tab id is namespaced with this
    /// peer's instance id; a peer without one has none stored.
    pub open spec fn namespaced(self) -> bool {
        match self.instance_id() {
            Some(id) => forall|i: int|
                0 <= i < self.workspaces.len() ==> {
                    &&& is_prefixed(id, (#[trigger] self.workspaces[i]).workspace_id)
                    &&& is_prefixed(id, self.workspaces[i].active_tab_id)
                },
            None => self.workspaces.len() == 0,
        }
    }

    /// The retained cleanups are bounded, and no pane is retained twice.
    pub open spec fn cleanups_bounded(self) -> bool {
        &&& self.pending_pane_cleanups.len() <= MAX_PENDING_PANE_CLEANUPS
        &&& forall|i: int, j: int|
            0 <= i < j < self.pending_pane_cleanups.len() ==> (
            #[trigger] self.pending_pane_cleanups[i]).peer_pane_id != (
            #[trigger] self.pending_pane_cleanups[j]).peer_pane_id
    }
}

impl PeerState {
    pub fn new(handle: PeerHandle, target: PeerTarget) -> (r: Self)
        ensures
            r@ == PeerView::fresh(handle@, target@),
            r.handle == handle,
            r.target == target,
    {
        let label = target.describe();
        let r = PeerState {
            handle,
            label,
            target,
            connection: PeerConnectionState::Connecting,
            identity: None,
            workspaces: Vec::new(),
            transport_socket: None,
            pending_pane_cleanups: Vec::new(),
        };
        assert(r@.workspaces =~= Seq::empty());
        assert(r@.pending_pane_cleanups =~= Seq::empty());
        r
    }

    /// How many panes are known to be left running on this peer.
    pub fn failed_pane_cleanups(&self) -> (r: usize)
        ensures
            r == self@.pending_pane_cleanups.len(),
    {
        self.pending_pane_cleanups.len()
    }

    pub fn instance_id(&self) -> (r: Option<&str>)
        ensures
            match r {
                Some(id) => self@.instance_id() == Some(id@),
                None => self@.instance_id() is None,
            },
    {
        match &self.identity {
            Some(identity) => Some(identity.instance_id.as_str()),
            None => None,
        }
    }

    /// Whether the peer last identified itself as `id`.
    pub fn has_instance(&self, id: &str) -> (r: bool)
        ensures
            r == (self@.instance_id() == Some(id@)),
    {
        match self.instance_id() {
            Some(own) => str_eq(own, id),
            None => false,
        }
    }

    pub fn is_stale(&self) -> (r: bool)
        ensures
            r == !(self@.connection is Connected),
    {
        self.connection.is_stale()
    }

    /// Local socket this peer's JSON API is reachable on, if it is reachable at
    /// all yet.
    ///
    /// A socket-path peer is already local. An ssh peer only has one once its
    /// bridge is up, which is what makes the two kinds interchangeable
    /// everywhere downstream.
    pub fn api_socket(&self) -> (r: Option<&str>)
        ensures
            match r {
                Some(path) => self@.api_socket() == Some(path@),
                None => self@.api_socket() is None,
            },
    {
        match &self.target {
            PeerTarget::SocketPath(path) => Some(path.as_str()),
            PeerTarget::Ssh { .. } => match &self.transport_socket {
                Some(path) => Some(path.as_str()),
                None => None,
            },
        }
    }
}

/// All configured peers, in the order they were added.
///
/// Order is insertion order and is the order the UI renders.
#[derive(Debug, PartialEq, Eq)]
pub struct PeerRegistryState {
    peers: Vec<PeerState>,
}

/// The contents of a list of peers.
pub open spec fn peers_view(peers: Seq<PeerState>) -> Seq<PeerView> {
    peers.map_values(|p: PeerState| p@)
}

impl View for PeerRegistryState {
    type V = Seq<PeerView>;

    closed spec fn view(&self) -> Seq<PeerView> {
        peers_view(self.peers@)
    }
}

/// A copy of a list of peers.
fn clone_peers(list: &Vec<PeerState>) -> (r: Vec<PeerState>)
    ensures
        peers_view(r@) == peers_view(list@),
{
    let mut out: Vec<PeerState> = Vec::new();
    let mut i: usize = 0;
    while i < list.len()
        invariant
            i <= list.len(),
            out@.len() == i,
            forall|j: int| 0 <= j < i ==> (#[trigger] out@[j])@ == list@[j]@,
        decreases list.len() - i,
    {
        out.push(list[i].clone());
        i += 1;
    }
    assert(peers_view(out@) =~= peers_view(list@));
    out
}

impl Clone for PeerRegistryState {
    fn clone(&self) -> (r: Self)
        ensures
            r@ == self@,
    {
        PeerRegistryState { peers: clone_peers(&self.peers) }
    }
}

/// What recording a peer's identity did.
#[derive(Debug, PartialEq, Eq)]
pub enum SetIdentity {
    /// The peer is unknown, or already reported exactly this.
    Unchanged,
    /// Stored. `replaced` carries the previous instance id when a *different*
    /// server answered, which invalidates every fact bound to the old one — not
    /// only the enumeration this registry dropped.
    Recorded { replaced: Option<String> },
    /// Another peer already holds this instance id, so nothing was stored.
    /// Both handles would otherwise resolve the same namespaced ids.
    Duplicate { held_by: PeerHandle },
}

impl Clone for SetIdentity {
    fn clone(&self) -> (r: Self)
        ensures
            r == *self,
    {
        match self {
            SetIdentity::Unchanged => SetIdentity::Unchanged,
            SetIdentity::Recorded { replaced } => SetIdentity::Recorded {
                replaced: opt_clone(replaced),
            },
            SetIdentity::Duplicate { held_by } => SetIdentity::Duplicate {
                held_by: held_by.clone(),
            },
        }
    }
}

/// Why a peer could not be added.
#[derive(Debug, PartialEq, Eq)]
pub enum AddPeerError {
    /// A peer with this handle already exists.
    DuplicateHandle,
    /// A different peer is already configured with the same target.
    DuplicateTarget { handle: PeerHandle },
}

impl Clone for AddPeerError {
    fn clone(&self) -> (r: Self)
        ensures
            r == *self,
    {
        match self {
            AddPeerError::DuplicateHandle => AddPeerError::DuplicateHandle,
            AddPeerError::DuplicateTarget { handle } => AddPeerError::DuplicateTarget {
                handle: handle.clone(),
            },
        }
    }
}

impl AddPeerError {
    /// The message's text.
    pub open spec fn text(self) -> Seq<char> {
        match self {
            AddPeerError::DuplicateHandle => "a peer with that name already exists"@,
            AddPeerError::DuplicateTarget { handle } =>
                "that target is already configured as peer '"@ + handle@ + "'"@,
        }
    }

    /// Why the peer was refused, for the user.
    pub fn message(&self) -> (r: String)
        ensures
            r@ == self.text(),
    {
        match self {
            AddPeerError::DuplicateHandle => "a peer with that name already exists".to_owned(),
            AddPeerError::DuplicateTarget { handle } => cat3(
                "that target is already configured as peer '",
                handle.as_str(),
                "'",
            ),
        }
    }
}

/// The peer has this handle.
pub open spec fn has_handle(handle: Seq<char>) -> spec_fn(PeerView) -> bool {
    |p: PeerView| p.handle == handle
}

/// The peer is reached this way.
pub open spec fn has_target(target: TargetView) -> spec_fn(PeerView) -> bool {
    |p: PeerView| same_target(p.target, target)
}

/// The peer has identified itself as this instance.
pub open spec fn has_instance_id(id: Seq<char>) -> spec_fn(PeerView) -> bool {
    |p: PeerView| p.instance_id() == Some(id)
}

/// Another peer than `handle` has identified itself as this instance.
pub open spec fn other_has_instance(handle: Seq<char>, id: Seq<char>) -> spec_fn(PeerView) -> bool {
    |p: PeerView| p.handle != handle && p.instance_id() == Some(id)
}

/// The position of the peer with this handle, or the number of peers.
pub open spec fn position(peers: Seq<PeerView>, handle: Seq<char>) -> int {
    crate::search::first(peers, has_handle(handle), 0)
}

/// The cleanup was recorded against this instance.
pub open spec fn cleanup_expects(id: Seq<char>) -> spec_fn(CleanupView) -> bool {
    |c: CleanupView| c.expected_instance == Some(id)
}

/// The cleanup was not recorded against this instance.
pub open spec fn cleanup_expects_other(id: Seq<char>) -> spec_fn(CleanupView) -> bool {
    |c: CleanupView| c.expected_instance != Some(id)
}

/// The cleanup is for this pane.
pub open spec fn cleanup_for(pane: Seq<char>) -> spec_fn(CleanupView) -> bool {
    |c: CleanupView| c.peer_pane_id == pane
}

/// The cleanups a peer retains once `pending` failed: a pane that is retained
/// already is not retained again, and the oldest makes room at the bound.
pub open spec fn retained(cleanups: Seq<CleanupView>, pending: CleanupView) -> Seq<CleanupView> {
    if crate::search::any(cleanups, cleanup_for(pending.peer_pane_id)) {
        cleanups
    } else if cleanups.len() >= MAX_PENDING_PANE_CLEANUPS {
        cleanups.skip(1).push(pending)
    } else {
        cleanups.push(pending)
    }
}

/// A workspace with its ids namespaced.
pub open spec fn namespaced_workspace(
    id: Seq<char>,
    w: crate::api::schema::workspaces::WorkspaceInfoView,
) -> crate::api::schema::workspaces::WorkspaceInfoView {
    crate::api::schema::workspaces::WorkspaceInfoView {
        workspace_id: prefixed(id, w.workspace_id),
        active_tab_id: prefixed(id, w.active_tab_id),
        ..w
    }
}

/// An enumeration with every id namespaced, once.
pub open spec fn namespaced_workspaces(
    id: Seq<char>,
    workspaces: Seq<crate::api::schema::workspaces::WorkspaceInfoView>,
) -> Seq<crate::api::schema::workspaces::WorkspaceInfoView> {
    Seq::new(workspaces.len(), |i: int| namespaced_workspace(id, workspaces[i]))
}

/// What the registry never contradicts itself about: handles, targets and
/// instance ids are unique, every stored workspace is namespaced with its peer's
/// own id, and the retained cleanups are bounded.
pub open spec fn consistent(peers: Seq<PeerView>) -> bool {
    &&& told_apart(peers)
    &&& unique_instances(peers)
    &&& forall|i: int| 0 <= i < peers.len() ==> (#[trigger] peers[i]).namespaced()
    &&& forall|i: int| 0 <= i < peers.len() ==> (#[trigger] peers[i]).cleanups_bounded()
}

/// No two peers have the same handle, and no two the same target.
pub open spec fn told_apart(peers: Seq<PeerView>) -> bool {
    &&& forall|i: int, j: int|
        0 <= i < j < peers.len() ==> (#[trigger] peers[i]).handle != (#[trigger] peers[j]).handle
    &&& forall|i: int, j: int|
        0 <= i < j < peers.len() ==> !same_target(
            (#[trigger] peers[i]).target,
            (#[trigger] peers[j]).target,
        )
}

/// No two peers have identified themselves as the same instance.
pub open spec fn unique_instances(peers: Seq<PeerView>) -> bool {
    forall|i: int, j: int|
        0 <= i < j < peers.len() && (#[trigger] peers[i]).identity is Some && (
        #[trigger] peers[j]).identity is Some ==> peers[i].instance_id() != peers[j].instance_id()
}

/// Handles and instance ids are unique, and a connected peer has identified
/// itself.
pub open spec fn identities_sound(peers: Seq<PeerView>) -> bool {
    &&& forall|i: int, j: int|
        0 <= i < j < peers.len() ==> (#[trigger] peers[i]).handle != (#[trigger] peers[j]).handle
    &&& unique_instances(peers)
    &&& forall|i: int|
        0 <= i < peers.len() ==> ((#[trigger] peers[i]).connection is Connected
            ==> peers[i].identity is Some)
}

impl Default for PeerRegistryState {
    fn default() -> (r: Self)
        ensures
            r@ == Seq::<PeerView>::empty(),
            consistent(r@),
    {
        let r = PeerRegistryState { peers: Vec::new() };
        assert(r@ =~= Seq::<PeerView>::empty());
        r
    }
}

impl PeerRegistryState {
    /// The peers, in the order they were added.
    pub fn iter(&self) -> (r: &Vec<PeerState>)
        ensures
            peers_view(r@) == self@,
    {
        &self.peers
    }

    fn index_of(&self, handle: &PeerHandle) -> (r: usize)
        ensures
            r == position(self@, handle@),
            r <= self.peers@.len(),
            r < self.peers@.len() ==> self.peers@[r as int].handle@ == handle@,
    {
        let mut i: usize = 0;
        while i < self.peers.len() && !self.peers[i].handle.is(handle)
            invariant
                i <= self.peers.len(),
                position(self@, handle@) == crate::search::first(
                    self@,
                    has_handle(handle@),
                    i as int,
                ),
            decreases self.peers.len() - i,
        {
            assert(self@[i as int] == self.peers@[i as int]@);
            i += 1;
        }
        assert(i < self.peers.len() ==> self@[i as int] == self.peers@[i as int]@);
        i
    }

    /// Adds a peer that has never connected.
    pub fn add(&mut self, handle: PeerHandle, target: PeerTarget) -> (r: Result<(), AddPeerError>)
        ensures
            match r {
                Ok(()) => {
                    &&& !crate::search::any(old(self)@, has_handle(handle@))
                    &&& !crate::search::any(old(self)@, has_target(target@))
                    &&& final(self)@ == old(self)@.push(PeerView::fresh(handle@, target@))
                },
                Err(AddPeerError::DuplicateHandle) => {
                    &&& crate::search::any(old(self)@, has_handle(handle@))
                    &&& final(self)@ == old(self)@
                },
                Err(AddPeerError::DuplicateTarget { handle: held_by }) => {
                    &&& !crate::search::any(old(self)@, has_handle(handle@))
                    &&& crate::search::any(old(self)@, has_target(target@))
                    &&& crate::search::find(old(self)@, has_target(target@))->0.handle == held_by@
                    &&& final(self)@ == old(self)@
                },
            },
            consistent(old(self)@) ==> consistent(final(self)@),
    {
        if self.index_of(&handle) < self.peers.len() {
            return Err(AddPeerError::DuplicateHandle);
        }
        let mut i: usize = 0;
        while i < self.peers.len()
            invariant
                i <= self.peers.len(),
                self == old(self),
                crate::search::first(self@, has_target(target@), 0) == crate::search::first(
                    self@,
                    has_target(target@),
                    i as int,
                ),
                !crate::search::any(self@, has_handle(handle@)),
            decreases self.peers.len() - i,
        {
            assert(self@[i as int] == self.peers@[i as int]@);
            if self.peers[i].target.same(&target) {
                return Err(
                    AddPeerError::DuplicateTarget { handle: self.peers[i].handle.clone() },
                );
            }
            i += 1;
        }
        proof {
            crate::search::lemma_first(self@, has_handle(handle@), 0);
            crate::search::lemma_first(self@, has_target(target@), 0);
        }
        let peer = PeerState::new(handle, target);
        self.peers.push(peer);
        assert(self@ =~= old(self)@.push(PeerView::fresh(handle@, target@)));
        Ok(())
    }

    /// Removes a peer; the others keep their order.
    pub fn remove(&mut self, handle: &PeerHandle) -> (r: Option<PeerState>)
        ensures
            match r {
                Some(peer) => {
                    let at = position(old(self)@, handle@);
                    &&& at < old(self)@.len()
                    &&& peer@ == old(self)@[at]
                    &&& final(self)@ == old(self)@.remove(at)
                },
                None => {
                    &&& !crate::search::any(old(self)@, has_handle(handle@))
                    &&& final(self)@ == old(self)@
                },
            },
            consistent(old(self)@) ==> consistent(final(self)@),
    {
        let at = self.index_of(handle);
        if at < self.peers.len() {
            let peer = self.peers.remove(at);
            assert(self@ =~= old(self)@.remove(at as int));
            Some(peer)
        } else {
            None
        }
    }

    /// The peer with this handle.
    pub fn get(&self, handle: &PeerHandle) -> (r: Option<&PeerState>)
        ensures
            match r {
                Some(peer) => crate::search::find(self@, has_handle(handle@)) == Some(peer@),
                None => crate::search::find(self@, has_handle(handle@)) is None,
            },
    {
        let at = self.index_of(handle);
        if at < self.peers.len() {
            assert(self@[at as int] == self.peers@[at as int]@);
            Some(&self.peers[at])
        } else {
            None
        }
    }

    /// The peer with this handle, to be changed in place.
    pub fn get_mut(&mut self, handle: &PeerHandle) -> (r: Option<&mut PeerState>)
        ensures
            match r {
                Some(peer) => {
                    let at = position(old(self)@, handle@);
                    &&& at < old(self)@.len()
                    &&& peer@ == old(self)@[at]
                    &&& final(self)@ == old(self)@.update(at, final(peer)@)
                },
                None => {
                    &&& !crate::search::any(old(self)@, has_handle(handle@))
                    &&& final(self)@ == old(self)@
                },
            },
    {
        let at = self.index_of(handle);
        if at < self.peers.len() {
            Some(&mut self.peers[at])
        } else {
            None
        }
    }

    /// Records a connection state transition. Returns whether anything changed,
    /// so callers can skip a redraw on a no-op update.
    pub fn set_connection(&mut self, handle: &PeerHandle, connection: PeerConnectionState) -> (r:
        bool)
        ensures
            records_connection(old(self)@, final(self)@, r, handle@, connection@),
            consistent(old(self)@) ==> consistent(final(self)@),
    {
        let at = self.index_of(handle);
        if at < self.peers.len() && !self.peers[at].connection.same(&connection) {
            self.peers[at].connection = connection;
            proof {
                if consistent(old(self)@) {
                    assert(old(self)@[at as int].cleanups_bounded());
                    lemma_consistent_same_identity(
                        old(self)@,
                        at as int,
                        PeerView { connection: connection@, ..old(self)@[at as int] },
                    );
                }
            }
            assert(self@ =~= old(self)@.update(
                at as int,
                PeerView { connection: connection@, ..old(self)@[at as int] },
            ));
            true
        } else {
            false
        }
    }

    /// Records the local socket an ssh peer's transport came up on. Another spelling
    /// of the same path is no change.
    pub fn set_transport_socket(&mut self, handle: &PeerHandle, socket: String) -> (r: bool)
        ensures
            ({
                let at = position(old(self)@, handle@);
                &&& r == (at < old(self)@.len() && !crate::paths::is_same_optional(
                    old(self)@[at].transport_socket,
                    Some(socket@),
                ))
                &&& final(self)@ == if r {
                    old(self)@.update(
                        at,
                        PeerView { transport_socket: Some(socket@), ..old(self)@[at] },
                    )
                } else {
                    old(self)@
                }
            }),
            consistent(old(self)@) ==> consistent(final(self)@),
    {
        let at = self.index_of(handle);
        let known = at < self.peers.len() && match &self.peers[at].transport_socket {
            Some(path) => same_path(path.as_str(), socket.as_str()),
            None => false,
        };
        if at < self.peers.len() && !known {
            self.peers[at].transport_socket = Some(socket);
            proof {
                if consistent(old(self)@) {
                    assert(old(self)@[at as int].cleanups_bounded());
                    lemma_consistent_same_identity(
                        old(self)@,
                        at as int,
                        PeerView { transport_socket: Some(socket@), ..old(self)@[at as int] },
                    );
                }
            }
            assert(self@ =~= old(self)@.update(
                at as int,
                PeerView { transport_socket: Some(socket@), ..old(self)@[at as int] },
            ));
            true
        } else {
            false
        }
    }

    /// Retains a pane this server spawned on `handle` that could not be closed
    /// there.
    ///
    /// The local view is already gone, so nothing can be retried right now. The
    /// record is what makes a retry possible later, when the same server is
    /// reachable again. A retry that failed again describes the same leak, not
    /// a second one.
    pub fn record_failed_pane_cleanup(
        &mut self,
        handle: &PeerHandle,
        pending: PendingPaneCleanup,
    ) -> (r: bool)
        ensures
            ({
                let at = position(old(self)@, handle@);
                &&& r == (at < old(self)@.len())
                &&& final(self)@ == if r {
                    old(self)@.update(
                        at,
                        PeerView {
                            pending_pane_cleanups: retained(
                                old(self)@[at].pending_pane_cleanups,
                                pending@,
                            ),
                            ..old(self)@[at]
                        },
                    )
                } else {
                    old(self)@
                }
            }),
            consistent(old(self)@) ==> consistent(final(self)@),
    {
        let at = self.index_of(handle);
        if at >= self.peers.len() {
            return false;
        }
        let ghost cleanups = self@[at as int].pending_pane_cleanups;
        assert(cleanups == cleanups_view(self.peers@[at as int].pending_pane_cleanups@));
        let mut i: usize = 0;
        while i < self.peers[at as usize].pending_pane_cleanups.len()
            invariant
                at < self.peers.len(),
                self == old(self),
                cleanups == cleanups_view(self.peers@[at as int].pending_pane_cleanups@),
                cleanups == self@[at as int].pending_pane_cleanups,
                at == position(old(self)@, handle@),
                i <= self.peers@[at as int].pending_pane_cleanups@.len(),
                crate::search::first(cleanups, cleanup_for(pending@.peer_pane_id), 0)
                    == crate::search::first(cleanups, cleanup_for(pending@.peer_pane_id), i as int),
            decreases self.peers@[at as int].pending_pane_cleanups@.len() - i,
        {
            assert(cleanups[i as int] == self.peers@[at as int].pending_pane_cleanups@[i as int]@);
            if str_eq(
                self.peers[at].pending_pane_cleanups[i].peer_pane_id.as_str(),
                pending.peer_pane_id.as_str(),
            ) {
                assert(self@ =~= self@.update(
                    at as int,
                    PeerView { pending_pane_cleanups: cleanups, ..self@[at as int] },
                ));
                return true;
            }
            i += 1;
        }
        proof {
            crate::search::lemma_first(cleanups, cleanup_for(pending@.peer_pane_id), 0);
            lemma_retained_bounded(self@[at as int], pending@);
            if consistent(self@) {
                assert(self@[at as int].cleanups_bounded());
                lemma_consistent_same_identity(
                    self@,
                    at as int,
                    PeerView {
                        pending_pane_cleanups: retained(cleanups, pending@),
                        ..self@[at as int]
                    },
                );
            }
        }
        if self.peers[at].pending_pane_cleanups.len() >= MAX_PENDING_PANE_CLEANUPS {
            let ghost before = self.peers@[at as int].pending_pane_cleanups@;
            self.peers[at].pending_pane_cleanups.remove(0);
            assert(cleanups_view(before.remove(0)) =~= cleanups.skip(1));
        }
        let ghost shortened = self.peers@[at as int].pending_pane_cleanups@;
        self.peers[at].pending_pane_cleanups.push(pending);
        assert(cleanups_view(shortened.push(pending)) =~= cleanups_view(shortened).push(pending@));
        assert(self@ =~= old(self)@.update(
            at as int,
            PeerView {
                pending_pane_cleanups: retained(cleanups, pending@),
                ..old(self)@[at as int]
            },
        ));
        true
    }

    /// Takes the cleanups that can be retried now that `instance_id` answers.
    ///
    /// Only records issued by that same instance come back. A different server
    /// answering means the retained ids name nothing here — or worse, name
    /// somebody else's panes — so those records stay put to be reported rather
    /// than acted on.
    pub fn take_retryable_pane_cleanups(
        &mut self,
        handle: &PeerHandle,
        instance_id: &str,
    ) -> (r: Vec<PendingPaneCleanup>)
        ensures
            ({
                let at = position(old(self)@, handle@);
                if at < old(self)@.len() {
                    let held = old(self)@[at].pending_pane_cleanups;
                    &&& cleanups_view(r@) == held.filter(cleanup_expects(instance_id@))
                    &&& final(self)@ == old(self)@.update(
                        at,
                        PeerView {
                            pending_pane_cleanups: held.filter(cleanup_expects_other(instance_id@)),
                            ..old(self)@[at]
                        },
                    )
                } else {
                    &&& r@.len() == 0
                    &&& final(self)@ == old(self)@
                }
            }),
            consistent(old(self)@) ==> consistent(final(self)@),
    {
        let mut retryable: Vec<PendingPaneCleanup> = Vec::new();
        let at = self.index_of(handle);
        if at >= self.peers.len() {
            return retryable;
        }
        let ghost held = self@[at as int].pending_pane_cleanups;
        let ghost takes = cleanup_expects(instance_id@);
        let ghost keeps = cleanup_expects_other(instance_id@);
        let ghost mut seen: int = 0;
        let mut i: usize = 0;
        assert(held == cleanups_view(self.peers@[at as int].pending_pane_cleanups@));
        proof {
            reveal(Seq::filter);
            assert(held.take(0) =~= Seq::empty());
            assert(held =~= held.take(0).filter(keeps) + held.skip(0));
            assert(cleanups_view(retryable@) =~= held.take(0).filter(takes));
            assert(self@ =~= old(self)@.update(
                at as int,
                PeerView {
                    pending_pane_cleanups: cleanups_view(
                        self.peers@[at as int].pending_pane_cleanups@,
                    ),
                    ..old(self)@[at as int]
                },
            ));
        }
        while i < self.peers[at].pending_pane_cleanups.len()
            invariant
                at < self.peers.len() == old(self)@.len(),
                at == position(old(self)@, handle@),
                at < old(self)@.len(),
                held == old(self)@[at as int].pending_pane_cleanups,
                0 <= seen <= held.len(),
                takes == cleanup_expects(instance_id@),
                keeps == cleanup_expects_other(instance_id@),
                i == held.take(seen).filter(keeps).len(),
                cleanups_view(self.peers@[at as int].pending_pane_cleanups@) == held.take(
                    seen,
                ).filter(keeps) + held.skip(seen),
                cleanups_view(retryable@) == held.take(seen).filter(takes),
                peers_view(self.peers@) == old(self)@.update(
                    at as int,
                    PeerView {
                        pending_pane_cleanups: cleanups_view(
                            self.peers@[at as int].pending_pane_cleanups@,
                        ),
                        ..old(self)@[at as int]
                    },
                ),
            decreases held.len() - seen,
        {
            let ghost current = self.peers@[at as int].pending_pane_cleanups@;
            let ghost previous = self.peers@;
            let ghost start = self@;
            assert(start == peers_view(previous));
            let ghost kept = held.take(seen).filter(keeps);
            let ghost taken = held.take(seen).filter(takes);
            assert(current[i as int]@ == cleanups_view(current)[i as int]);
            assert(current[i as int]@ == held[seen]);
            proof {
                reveal(Seq::filter);
                assert(held.take(seen + 1).drop_last() =~= held.take(seen));
                assert(held.take(seen + 1).last() == held[seen]);
            }
            if opt_is(&self.peers[at].pending_pane_cleanups[i].expected_instance, instance_id) {
                let ghost before = retryable@;
                let pending = self.peers[at].pending_pane_cleanups.remove(i);
                retryable.push(pending);
                assert(cleanups_view(current.remove(i as int)) =~= cleanups_view(current).remove(
                    i as int,
                ));
                assert(cleanups_view(current).remove(i as int) =~= kept + held.skip(seen + 1));
                assert(cleanups_view(before.push(pending)) =~= cleanups_view(before).push(
                    pending@,
                ));
            } else {
                i += 1;
                assert(cleanups_view(current) =~= kept.push(held[seen]) + held.skip(seen + 1));
            }
            proof {
                seen = seen + 1;
                let now = PeerView {
                    pending_pane_cleanups: cleanups_view(
                        self.peers@[at as int].pending_pane_cleanups@,
                    ),
                    ..old(self)@[at as int]
                };
                assert(previous[at as int]@ == peers_view(previous)[at as int]);
                assert(self.peers@[at as int]@ == now);
                assert forall|j: int| 0 <= j < previous.len() implies peers_view(self.peers@)[j]
                    == old(self)@.update(at as int, now)[j] by {
                    assert(peers_view(self.peers@)[j] == self.peers@[j]@);
                    if j != at {
                        assert(self.peers@[j] == previous[j]);
                        assert(start[j] == previous[j]@);
                        assert(start[j] == old(self)@[j]);
                    }
                }
            }
            assert(self@ =~= old(self)@.update(
                at as int,
                PeerView {
                    pending_pane_cleanups: cleanups_view(
                        self.peers@[at as int].pending_pane_cleanups@,
                    ),
                    ..old(self)@[at as int]
                },
            ));
        }
        proof {
            assert(held.skip(seen).len() == 0);
            assert(held.take(seen) =~= held);
            assert(held.filter(keeps) + held.skip(seen) =~= held.filter(keeps));
            if consistent(old(self)@) {
                lemma_filtered_bounded(old(self)@[at as int], keeps);
                lemma_consistent_same_identity(
                    old(self)@,
                    at as int,
                    PeerView {
                        pending_pane_cleanups: held.filter(keeps),
                        ..old(self)@[at as int]
                    },
                );
            }
        }
        retryable
    }
}

/// The instance id a new identity displaces: the previous one, when it was a
/// different server's.
pub open spec fn displaced(
    previous: Option<IdentityView>,
    identity: IdentityView,
) -> Option<Seq<char>> {
    match previous {
        Some(previous) if previous.instance_id != identity.instance_id => Some(
            previous.instance_id,
        ),
        _ => None,
    }
}

/// What recording what a peer reported about itself comes to.
pub open spec fn records_identity(
    before: Seq<PeerView>,
    after: Seq<PeerView>,
    r: SetIdentity,
    handle: Seq<char>,
    identity: IdentityView,
) -> bool {
    let at = position(before, handle);
    let other = other_has_instance(handle, identity.instance_id);
    match r {
        SetIdentity::Duplicate { held_by } => {
            &&& crate::search::any(before, other)
            &&& crate::search::find(before, other)->0.handle == held_by@
            &&& after == before
        },
        SetIdentity::Unchanged => {
            &&& !crate::search::any(before, other)
            &&& at == before.len() || before[at].identity == Some(identity)
            &&& after == before
        },
        SetIdentity::Recorded { replaced } => {
            &&& !crate::search::any(before, other)
            &&& at < before.len() && before[at].identity != Some(identity)
            &&& crate::text::opt_view(replaced) == displaced(before[at].identity, identity)
            &&& after == before.update(
                at,
                PeerView {
                    identity: Some(identity),
                    workspaces: if replaced is Some {
                        Seq::empty()
                    } else {
                        before[at].workspaces
                    },
                    ..before[at]
                },
            )
        },
    }
}

/// What a connection state transition comes to: whether anything changed, and
/// what is known then.
pub open spec fn records_connection(
    before: Seq<PeerView>,
    after: Seq<PeerView>,
    r: bool,
    handle: Seq<char>,
    connection: ConnectionView,
) -> bool {
    let at = position(before, handle);
    &&& r == (at < before.len() && before[at].connection != connection)
    &&& after == if r {
        before.update(at, PeerView { connection, ..before[at] })
    } else {
        before
    }
}

impl PeerRegistryState {
    fn index_of_other(&self, handle: &PeerHandle, id: &str) -> (r: usize)
        ensures
            r == crate::search::first(self@, other_has_instance(handle@, id@), 0),
            r <= self.peers@.len(),
    {
        let mut i: usize = 0;
        while i < self.peers.len() && !(!self.peers[i].handle.is(handle)
            && self.peers[i].has_instance(id))
            invariant
                i <= self.peers.len(),
                crate::search::first(self@, other_has_instance(handle@, id@), 0)
                    == crate::search::first(self@, other_has_instance(handle@, id@), i as int),
            decreases self.peers.len() - i,
        {
            assert(self@[i as int] == self.peers@[i as int]@);
            i += 1;
        }
        assert(i < self.peers.len() ==> self@[i as int] == self.peers@[i as int]@);
        i
    }

    /// Records what a peer reported about itself.
    ///
    /// A peer whose instance id changed is a different server reached through
    /// the same target — its retained workspaces no longer describe it, so they
    /// are dropped rather than shown against the wrong host. Everything else
    /// bound to that identity lives outside this registry, which is why the
    /// replacement is reported rather than only acted on here.
    ///
    /// Two peers reporting the same instance id is the same server reached
    /// twice. `add` cannot catch it — handles and targets are both checked
    /// before any identity is known — and this is the first moment it can be
    /// seen, so it is refused here.
    pub fn set_identity(&mut self, handle: &PeerHandle, identity: PeerIdentity) -> (r: SetIdentity)
        ensures
            records_identity(old(self)@, final(self)@, r, handle@, identity@),
            consistent(old(self)@) ==> consistent(final(self)@),
    {
        let other = self.index_of_other(handle, identity.instance_id.as_str());
        if other < self.peers.len() {
            assert(self@[other as int] == self.peers@[other as int]@);
            return SetIdentity::Duplicate { held_by: self.peers[other].handle.clone() };
        }
        let at = self.index_of(handle);
        if at >= self.peers.len() {
            proof {
                crate::search::lemma_first(self@, has_handle(handle@), 0);
            }
            return SetIdentity::Unchanged;
        }
        assert(self@[at as int] == self.peers@[at as int]@);
        let ghost id = identity@;
        let replaced = match &self.peers[at].identity {
            Some(previous) => {
                if previous.same(&identity) {
                    return SetIdentity::Unchanged;
                }
                if str_eq(previous.instance_id.as_str(), identity.instance_id.as_str()) {
                    None
                } else {
                    Some(previous.instance_id.clone())
                }
            },
            None => None,
        };
        self.peers[at].identity = Some(identity);
        if replaced.is_some() {
            self.peers[at].workspaces.clear();
            assert(crate::api::schema::workspaces::workspaces_view(
                self.peers@[at as int].workspaces@,
            ) =~= Seq::empty());
        }
        let ghost now = PeerView {
            identity: Some(id),
            workspaces: if replaced is Some {
                Seq::empty()
            } else {
                old(self)@[at as int].workspaces
            },
            ..old(self)@[at as int]
        };
        assert(self.peers@[at as int]@ == now);
        assert(self@ =~= old(self)@.update(at as int, now));
        proof {
            if consistent(old(self)@) {
                let peers = old(self)@;
                let p = other_has_instance(handle@, id.instance_id);
                crate::search::lemma_first(peers, p, 0);
                crate::search::lemma_first(peers, has_handle(handle@), 0);
                assert forall|j: int| 0 <= j < peers.len() && j != at implies (
                #[trigger] peers[j]).instance_id() != now.instance_id() by {
                    assert(!p(peers[j]));
                    assert(peers[j].handle != peers[at as int].handle);
                }
                assert(peers[at as int].namespaced() && peers[at as int].cleanups_bounded());
                lemma_consistent_update(peers, at as int, now);
            }
        }
        SetIdentity::Recorded { replaced }
    }

    /// Records a peer's workspace enumeration, namespacing its ids on the way
    /// in.
    ///
    /// This is the single ingest point for peer ids, so prefixing here is what
    /// guarantees every stored id is namespaced exactly once. A peer that has
    /// not identified itself yet has no namespace to use, so its enumeration is
    /// dropped rather than stored ambiguously.
    pub fn set_workspaces(&mut self, handle: &PeerHandle, workspaces: Vec<WorkspaceInfo>) -> (r:
        bool)
        ensures
            ({
                let at = position(old(self)@, handle@);
                let reported = crate::api::schema::workspaces::workspaces_view(workspaces@);
                if at < old(self)@.len() && old(self)@[at].identity is Some {
                    let stored = namespaced_workspaces(
                        old(self)@[at].instance_id()->0,
                        reported,
                    );
                    &&& r == (old(self)@[at].workspaces != stored)
                    &&& final(self)@ == if r {
                        old(self)@.update(at, PeerView { workspaces: stored, ..old(self)@[at] })
                    } else {
                        old(self)@
                    }
                } else {
                    !r && final(self)@ == old(self)@
                }
            }),
            consistent(old(self)@) ==> consistent(final(self)@),
    {
        let at = self.index_of(handle);
        if at >= self.peers.len() {
            return false;
        }
        assert(self@[at as int] == self.peers@[at as int]@);
        let instance_id = match &self.peers[at].identity {
            Some(identity) => identity.instance_id.clone(),
            None => {
                return false;
            },
        };
        let ghost reported = crate::api::schema::workspaces::workspaces_view(workspaces@);
        let stored = namespace_workspaces(instance_id.as_str(), workspaces);
        if same_workspaces(&self.peers[at].workspaces, &stored) {
            return false;
        }
        self.peers[at].workspaces = stored;
        let ghost now = PeerView {
            workspaces: namespaced_workspaces(instance_id@, reported),
            ..old(self)@[at as int]
        };
        assert(self.peers@[at as int]@ == now);
        assert(self@ =~= old(self)@.update(at as int, now));
        proof {
            if consistent(old(self)@) {
                lemma_unique_instance(old(self)@, at as int);
                assert(old(self)@[at as int].cleanups_bounded());
                assert forall|i: int| 0 <= i < now.workspaces.len() implies is_prefixed(
                    instance_id@,
                    (#[trigger] now.workspaces[i]).workspace_id,
                ) && is_prefixed(instance_id@, now.workspaces[i].active_tab_id) by {
                    lemma_prefixed(instance_id@, reported[i].workspace_id);
                    lemma_prefixed(instance_id@, reported[i].active_tab_id);
                }
                lemma_consistent_update(old(self)@, at as int, now);
            }
        }
        true
    }

    /// The peer owning `instance_id`, used to route a namespaced id back to the
    /// connection it came from.
    pub fn by_instance_id(&self, instance_id: &str) -> (r: Option<&PeerState>)
        ensures
            match r {
                Some(peer) => crate::search::find(self@, has_instance_id(instance_id@)) == Some(
                    peer@,
                ),
                None => crate::search::find(self@, has_instance_id(instance_id@)) is None,
            },
    {
        let mut i: usize = 0;
        while i < self.peers.len() && !self.peers[i].has_instance(instance_id)
            invariant
                i <= self.peers.len(),
                crate::search::first(self@, has_instance_id(instance_id@), 0)
                    == crate::search::first(self@, has_instance_id(instance_id@), i as int),
            decreases self.peers.len() - i,
        {
            assert(self@[i as int] == self.peers@[i as int]@);
            i += 1;
        }
        if i < self.peers.len() {
            assert(self@[i as int] == self.peers@[i as int]@);
            Some(&self.peers[i])
        } else {
            None
        }
    }

    /// Resolves a namespaced id to its owning peer and the peer-local id to
    /// send back over the wire.
    pub fn resolve_peer_id<'a>(&'a self, id: &'a str) -> (r: Option<(&'a PeerState, &'a str)>)
        ensures
            match r {
                Some((peer, local)) => resolved(self@, id@) == Some((peer@, local@)),
                None => resolved(self@, id@) is None,
            },
    {
        match split_peer_id(id) {
            Some((instance_id, local_id)) => match self.by_instance_id(instance_id) {
                Some(peer) => Some((peer, local_id)),
                None => None,
            },
            None => None,
        }
    }

    /// Insists that the registry holds no contradictory identity state.
    ///
    /// Handles are the local key and must be unique. Instance ids must also be
    /// unique: two peers reporting the same instance id means the same server was
    /// reached twice, and routing a prefixed id would be ambiguous. A registry for
    /// which this does not hold must not be handed in; whether it holds is
    /// [`PeerRegistryState::identities_hold`].
    pub fn assert_invariants_for_test(&self) -> (r: bool)
        requires
            identities_sound(self@),
        ensures
            r,
    {
        self.identities_hold()
    }

    /// Whether the registry holds no contradictory identity state: handles and
    /// instance ids are unique, and a connected peer has identified itself.
    pub fn identities_hold(&self) -> (r: bool)
        ensures
            r == identities_sound(self@),
    {
        let mut j: usize = 0;
        while j < self.peers.len()
            invariant
                j <= self.peers.len(),
                self@.len() == self.peers@.len(),
                forall|a: int, b: int|
                    0 <= a < b < j ==> (#[trigger] self@[a]).handle != (#[trigger] self@[b]).handle,
                forall|a: int, b: int|
                    0 <= a < b < j && (#[trigger] self@[a]).identity is Some && (
                    #[trigger] self@[b]).identity is Some ==> self@[a].instance_id()
                        != self@[b].instance_id(),
                forall|a: int|
                    0 <= a < j ==> ((#[trigger] self@[a]).connection is Connected
                        ==> self@[a].identity is Some),
            decreases self.peers.len() - j,
        {
            let peer = &self.peers[j];
            assert(self@[j as int] == peer@);
            if peer.connection.is_connected() && peer.identity.is_none() {
                return false;
            }
            let mut i: usize = 0;
            while i < j
                invariant
                    i <= j < self.peers.len(),
                    self@.len() == self.peers@.len(),
                    self@[j as int] == peer@,
                    forall|a: int| 0 <= a < i ==> (#[trigger] self@[a]).handle != peer@.handle,
                    forall|a: int|
                        0 <= a < i && (#[trigger] self@[a]).identity is Some && peer@.identity is Some
                            ==> self@[a].instance_id() != peer@.instance_id(),
                decreases j - i,
            {
                assert(self@[i as int] == self.peers@[i as int]@);
                if self.peers[i].handle.is(&peer.handle) {
                    return false;
                }
                match peer.instance_id() {
                    Some(id) => {
                        if self.peers[i].has_instance(id) {
                            assert(self@[i as int].instance_id() == self@[j as int].instance_id());
                            return false;
                        }
                    },
                    None => {},
                }
                i += 1;
            }
            j += 1;
        }
        true
    }
}

/// The peer that owns a namespaced id, and the id that peer knows it by.
pub open spec fn resolved(peers: Seq<PeerView>, id: Seq<char>) -> Option<(PeerView, Seq<char>)> {
    match split_id(id) {
        Some((instance_id, local)) => match crate::search::find(
            peers,
            has_instance_id(instance_id),
        ) {
            Some(peer) => Some((peer, local)),
            None => None,
        },
        None => None,
    }
}

fn namespace_workspaces(instance_id: &str, workspaces: Vec<WorkspaceInfo>) -> (r: Vec<
    WorkspaceInfo,
>)
    ensures
        crate::api::schema::workspaces::workspaces_view(r@) == namespaced_workspaces(
            instance_id@,
            crate::api::schema::workspaces::workspaces_view(workspaces@),
        ),
{
    let mut out: Vec<WorkspaceInfo> = Vec::new();
    let mut i: usize = 0;
    while i < workspaces.len()
        invariant
            i <= workspaces.len(),
            out@.len() == i,
            forall|j: int|
                0 <= j < i ==> (#[trigger] out@[j])@ == namespaced_workspace(
                    instance_id@,
                    workspaces@[j]@,
                ),
        decreases workspaces.len() - i,
    {
        let mut workspace = workspaces[i].clone();
        workspace.workspace_id = prefix_peer_id(instance_id, workspace.workspace_id.as_str());
        workspace.active_tab_id = prefix_peer_id(instance_id, workspace.active_tab_id.as_str());
        out.push(workspace);
        i += 1;
    }
    assert(crate::api::schema::workspaces::workspaces_view(out@) =~= namespaced_workspaces(
        instance_id@,
        crate::api::schema::workspaces::workspaces_view(workspaces@),
    ));
    out
}

proof fn lemma_prefixed(instance_id: Seq<char>, local: Seq<char>)
    ensures
        is_prefixed(instance_id, prefixed(instance_id, local)),
{
    let whole = prefixed(instance_id, local);
    assert(whole.take(instance_id.len() as int + 1) =~= instance_id.push(':'));
}

/// Changing a peer's own facts, but neither its handle nor its target, keeps the
/// registry consistent as long as the instance id stays nobody else's.
proof fn lemma_consistent_update(peers: Seq<PeerView>, at: int, peer: PeerView)
    requires
        0 <= at < peers.len(),
        peer.handle == peers[at].handle,
        peer.target == peers[at].target,
        peer.namespaced(),
        peer.cleanups_bounded(),
        peer.identity is Some ==> forall|j: int|
            0 <= j < peers.len() && j != at ==> (#[trigger] peers[j]).instance_id()
                != peer.instance_id(),
    ensures
        consistent(peers) ==> consistent(peers.update(at, peer)),
{
}

/// The instance id of a peer in a consistent registry is nobody else's.
proof fn lemma_unique_instance(peers: Seq<PeerView>, at: int)
    requires
        consistent(peers),
        0 <= at < peers.len(),
        peers[at].identity is Some,
    ensures
        forall|j: int|
            0 <= j < peers.len() && j != at ==> (#[trigger] peers[j]).instance_id()
                != peers[at].instance_id(),
{
    assert forall|j: int| 0 <= j < peers.len() && j != at implies (
    #[trigger] peers[j]).instance_id() != peers[at].instance_id() by {
        if peers[j].identity is Some {
            if j < at {
                assert(peers[j].instance_id() != peers[at].instance_id());
            } else {
                assert(peers[at].instance_id() != peers[j].instance_id());
            }
        }
    }
}

/// A change that leaves a peer's handle, target and instance id alone keeps the
/// registry consistent.
proof fn lemma_consistent_same_identity(peers: Seq<PeerView>, at: int, peer: PeerView)
    requires
        consistent(peers),
        0 <= at < peers.len(),
        peer.handle == peers[at].handle,
        peer.target == peers[at].target,
        peer.identity == peers[at].identity,
        peer.workspaces == peers[at].workspaces,
        peer.cleanups_bounded(),
    ensures
        consistent(peers.update(at, peer)),
{
    assert(peers[at].namespaced());
    assert(peer.instance_id() == peers[at].instance_id());
    assert(peer.namespaced());
    if peer.identity is Some {
        lemma_unique_instance(peers, at);
    }
    lemma_consistent_update(peers, at, peer);
}

/// Retaining a failed cleanup keeps the bound and retains no pane twice.
proof fn lemma_retained_bounded(peer: PeerView, pending: CleanupView)
    requires
        !crate::search::any(peer.pending_pane_cleanups, cleanup_for(pending.peer_pane_id)),
    ensures
        peer.cleanups_bounded() ==> (PeerView {
            pending_pane_cleanups: retained(peer.pending_pane_cleanups, pending),
            ..peer
        }).cleanups_bounded(),
{
    crate::search::lemma_first(
        peer.pending_pane_cleanups,
        cleanup_for(pending.peer_pane_id),
        0,
    );
    assert forall|j: int| 0 <= j < peer.pending_pane_cleanups.len() implies (
    #[trigger] peer.pending_pane_cleanups[j]).peer_pane_id != pending.peer_pane_id by {
        assert(!cleanup_for(pending.peer_pane_id)(peer.pending_pane_cleanups[j]));
    }
}

/// Taking some of the retained cleanups away keeps the bound and the panes
/// distinct.
proof fn lemma_filtered_bounded(peer: PeerView, keeps: spec_fn(CleanupView) -> bool)
    requires
        peer.cleanups_bounded(),
    ensures
        (PeerView {
            pending_pane_cleanups: peer.pending_pane_cleanups.filter(keeps),
            ..peer
        }).cleanups_bounded(),
{
    lemma_filter_distinct(peer.pending_pane_cleanups, keeps);
}

proof fn lemma_filter_distinct(s: Seq<CleanupView>, keeps: spec_fn(CleanupView) -> bool)
    requires
        forall|i: int, j: int|
            0 <= i < j < s.len() ==> (#[trigger] s[i]).peer_pane_id != (
            #[trigger] s[j]).peer_pane_id,
    ensures
        s.filter(keeps).len() <= s.len(),
        forall|i: int|
            0 <= i < s.filter(keeps).len() ==> exists|k: int|
                0 <= k < s.len() && s[k] == #[trigger] s.filter(keeps)[i],
        forall|i: int, j: int|
            0 <= i < j < s.filter(keeps).len() ==> (#[trigger] s.filter(keeps)[i]).peer_pane_id != (
            #[trigger] s.filter(keeps)[j]).peer_pane_id,
    decreases s.len(),
{
    reveal(Seq::filter);
    if s.len() > 0 {
        let init = s.drop_last();
        lemma_filter_distinct(init, keeps);
        assert forall|i: int| 0 <= i < s.filter(keeps).len() implies exists|k: int|
            0 <= k < s.len() && s[k] == #[trigger] s.filter(keeps)[i] by {
            if i < init.filter(keeps).len() {
                assert(s.filter(keeps)[i] == init.filter(keeps)[i]);
                let k = choose|k: int| 0 <= k < init.len() && init[k] == init.filter(keeps)[i];
                assert(s[k] == s.filter(keeps)[i]);
            } else {
                assert(s[s.len() - 1] == s.filter(keeps)[i]);
            }
        }
        assert forall|i: int, j: int| 0 <= i < j < s.filter(keeps).len() implies (
        #[trigger] s.filter(keeps)[i]).peer_pane_id != (
        #[trigger] s.filter(keeps)[j]).peer_pane_id by {
            assert(s.filter(keeps)[i] == init.filter(keeps)[i]);
            let k = choose|k: int| 0 <= k < init.len() && init[k] == init.filter(keeps)[i];
            assert(s[k] == init[k]);
            if j < init.filter(keeps).len() {
                assert(s.filter(keeps)[j] == init.filter(keeps)[j]);
            } else {
                assert(s.filter(keeps)[j] == s[s.len() - 1]);
            }
        }
    }
}

/// Only cleanups recorded against the instance that answers are taken for a
/// retry, every other one stays, and none is lost or made up.
pub proof fn law_cleanups_go_back_to_their_own_server(held: Seq<CleanupView>, id: Seq<char>)
    ensures
        forall|i: int|
            0 <= i < held.filter(cleanup_expects(id)).len() ==> (
            #[trigger] held.filter(cleanup_expects(id))[i]).expected_instance == Some(id),
        forall|i: int|
            0 <= i < held.filter(cleanup_expects_other(id)).len() ==> (
            #[trigger] held.filter(cleanup_expects_other(id))[i]).expected_instance != Some(id),
        held.filter(cleanup_expects(id)).len() + held.filter(cleanup_expects_other(id)).len()
            == held.len(),
    decreases held.len(),
{
    reveal(Seq::filter);
    if held.len() > 0 {
        law_cleanups_go_back_to_their_own_server(held.drop_last(), id);
        let taken = held.drop_last().filter(cleanup_expects(id));
        let kept = held.drop_last().filter(cleanup_expects_other(id));
        assert forall|i: int| 0 <= i < held.filter(cleanup_expects(id)).len() implies (
        #[trigger] held.filter(cleanup_expects(id))[i]).expected_instance == Some(id) by {
            if i < taken.len() {
                assert(held.filter(cleanup_expects(id))[i] == taken[i]);
            }
        }
        assert forall|i: int| 0 <= i < held.filter(cleanup_expects_other(id)).len() implies (
        #[trigger] held.filter(cleanup_expects_other(id))[i]).expected_instance != Some(id) by {
            if i < kept.len() {
                assert(held.filter(cleanup_expects_other(id))[i] == kept[i]);
            }
        }
    }
}

/// A namespaced id resolves to the one peer that carries its instance id, and
/// to what follows the namespace.
pub proof fn law_namespaced_ids_route_to_their_peer(
    peers: Seq<PeerView>,
    at: int,
    local: Seq<char>,
)
    requires
        consistent(peers),
        0 <= at < peers.len(),
        peers[at].identity is Some,
        crate::instance_id::instance_id_shape(peers[at].instance_id()->0),
        local.len() > 0,
    ensures
        resolved(peers, prefixed(peers[at].instance_id()->0, local)) == Some((peers[at], local)),
{
    let id = peers[at].instance_id()->0;
    law_peer_ids_round_trip(id, local);
    lemma_unique_instance(peers, at);
    crate::search::lemma_first_is(peers, has_instance_id(id), 0, at);
}

/// Every workspace id that a consistent registry stores for a peer resolves back
/// to that peer, as long as there is anything behind the namespace.
pub proof fn law_enumerated_ids_route_back(peers: Seq<PeerView>, at: int, i: int)
    requires
        consistent(peers),
        0 <= at < peers.len(),
        0 <= i < peers[at].workspaces.len(),
        crate::instance_id::instance_id_shape(peers[at].instance_id()->0),
        peers[at].workspaces[i].workspace_id.len() > crate::instance_id::INSTANCE_ID_LEN + 1,
    ensures
        resolved(peers, peers[at].workspaces[i].workspace_id) == Some(
            (
                peers[at],
                peers[at].workspaces[i].workspace_id.skip(
                    crate::instance_id::INSTANCE_ID_LEN as int + 1,
                ),
            ),
        ),
{
    assert(peers[at].namespaced());
    let id = peers[at].instance_id()->0;
    let whole = peers[at].workspaces[i].workspace_id;
    let local = whole.skip(id.len() as int + 1);
    assert(is_prefixed(id, whole));
    assert(whole.take(id.len() as int + 1) == id.push(':'));
    assert(whole =~= whole.take(id.len() as int + 1) + local);
    assert(whole =~= prefixed(id, local));
    law_namespaced_ids_route_to_their_peer(peers, at, local);
}

/// An id of no configured peer's instance resolves to nobody.
pub proof fn law_unknown_instances_resolve_to_nobody(peers: Seq<PeerView>, id: Seq<char>)
    requires
        split_id(id) is Some,
        forall|i: int|
            0 <= i < peers.len() ==> (#[trigger] peers[i]).instance_id() != Some(
                (split_id(id)->0).0,
            ),
    ensures
        resolved(peers, id) is None,
{
    crate::search::lemma_first(peers, has_instance_id((split_id(id)->0).0), 0);
}

} // verus!
