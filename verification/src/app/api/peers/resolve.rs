//! Naming a peer, and the ids that name its things.
//!
//! Every question here is answerable from what this server already knows —
//! which peer owns an id, whether a view onto it is already open — so none of it
//! needs a live connection, and all of it stays answerable while a peer is down.

use vstd::prelude::*;

use crate::api::schema::responses::ErrorBody;
use crate::app::peers::{split_peer_id, PeerHandle};
use crate::app::state::{locate_pane, workspace_with, App, PaneId, PaneKey};
use crate::terminal::{TerminalId, TerminalRuntime};
use crate::text::{cat2, cat3, cat4, cat5, str_eq, trim};

verus! {

/// A message that names a peer.
pub open spec fn about_peer(before: Seq<char>, handle: Seq<char>, after: Seq<char>) -> Seq<char> {
    before + handle + after
}

/// No peer has this handle.
pub open spec fn no_peer_named(handle: Seq<char>) -> (Seq<char>, Seq<char>) {
    ("not_found"@, about_peer("no peer named '"@, handle, "'"@))
}

/// Which peer owns `target`, and the id that peer knows it by; or why that
/// cannot be told.
pub open spec fn target_owner(
    peers: Seq<crate::app::peers::PeerView>,
    target: Seq<char>,
    name: Option<Seq<char>>,
) -> Result<(Seq<char>, Seq<char>), (Seq<char>, Seq<char>)> {
    match (name, crate::app::peers::split_id(target)) {
        (Some(name), Some((instance_id, local))) => {
            let handle = crate::text::trimmed(name);
            match crate::search::find(peers, crate::app::peers::has_handle(handle)) {
                Some(peer) => if peer.instance_id() == Some(instance_id) {
                    Ok((handle, local))
                } else {
                    Err(
                        (
                            "invalid_request"@,
                            "'"@ + target + "' does not belong to peer '"@ + handle + "'"@,
                        ),
                    )
                },
                None => Err(no_peer_named(handle)),
            }
        },
        (Some(name), None) => Ok((crate::text::trimmed(name), target)),
        (None, Some(_)) => match crate::app::peers::resolved(peers, target) {
            Some((peer, local)) => Ok((peer.handle, local)),
            None => Err(
                ("not_found"@, about_peer("no connected peer owns '"@, target, "'"@)),
            ),
        },
        (None, None) => Err(
            ("invalid_request"@, "name is required when the target is not namespaced"@),
        ),
    }
}

/// Where a peer is reached, and the server that must answer there.
#[derive(Debug, PartialEq, Eq)]
pub struct Route {
    pub api_socket: String,
    pub instance_id: String,
}

impl Clone for Route {
    fn clone(&self) -> (r: Self)
        ensures
            r == *self,
    {
        Route { api_socket: self.api_socket.clone(), instance_id: self.instance_id.clone() }
    }
}

/// A resolved, connected peer and everything needed to talk to it.
#[derive(Debug, PartialEq, Eq)]
pub struct PeerConnection {
    /// The peer-local id to send over the wire, namespace stripped.
    pub local_target: String,
    /// The peer's JSON API socket on this machine.
    pub api_socket: String,
    /// The peer's server instance id, used to re-namespace ids coming back.
    pub instance_id: String,
}

/// The contents of a [`PeerConnection`].
pub struct ReachView {
    pub local_target: Seq<char>,
    pub api_socket: Seq<char>,
    pub instance_id: Seq<char>,
}

impl View for PeerConnection {
    type V = ReachView;

    open spec fn view(&self) -> ReachView {
        ReachView {
            local_target: self.local_target@,
            api_socket: self.api_socket@,
            instance_id: self.instance_id@,
        }
    }
}

/// How to reach a peer that was found: it must be connected, have a socket and
/// have identified itself.
pub open spec fn reach_of(
    peer: crate::app::peers::PeerView,
    handle: Seq<char>,
    local_target: Seq<char>,
) -> Result<ReachView, (Seq<char>, Seq<char>)> {
    if !(peer.connection is Connected) {
        Err(
            (
                "unavailable"@,
                "peer '"@ + handle + "' is "@ + peer.connection.kind().text(),
            ),
        )
    } else if peer.api_socket() is None {
        Err(("unavailable"@, about_peer("peer '"@, handle, "' has no transport yet"@)))
    } else if peer.instance_id() is None {
        Err(
            (
                "unavailable"@,
                about_peer("peer '"@, handle, "' has not identified itself yet"@),
            ),
        )
    } else {
        Ok(
            ReachView {
                local_target,
                api_socket: peer.api_socket()->0,
                instance_id: peer.instance_id()->0,
            },
        )
    }
}

/// Which peer owns `target` and how to reach it right now; or why not.
pub open spec fn reach(
    peers: Seq<crate::app::peers::PeerView>,
    target: Seq<char>,
    name: Option<Seq<char>>,
) -> Result<ReachView, (Seq<char>, Seq<char>)> {
    match target_owner(peers, target, name) {
        Ok((handle, local)) => match crate::search::find(
            peers,
            crate::app::peers::has_handle(handle),
        ) {
            Some(peer) => reach_of(peer, handle, local),
            None => Err(no_peer_named(handle)),
        },
        Err(error) => Err(error),
    }
}

/// The contents of what resolving a target gives.
pub open spec fn owner_view(r: Result<(PeerHandle, String), ErrorBody>) -> Result<
    (Seq<char>, Seq<char>),
    (Seq<char>, Seq<char>),
> {
    match r {
        Ok((handle, local)) => Ok((handle@, local@)),
        Err(error) => Err(error@),
    }
}

/// The contents of what reaching a peer gives.
pub open spec fn reach_view(r: Result<PeerConnection, ErrorBody>) -> Result<
    ReachView,
    (Seq<char>, Seq<char>),
> {
    match r {
        Ok(connection) => Ok(connection@),
        Err(error) => Err(error@),
    }
}

/// The contents of an optional text.
pub open spec fn name_view(name: Option<&str>) -> Option<Seq<char>> {
    match name {
        Some(name) => Some(name@),
        None => None,
    }
}

/// The refusal of a handle no peer has.
pub fn no_such_peer(handle: &PeerHandle) -> (r: ErrorBody)
    ensures
        r@ == no_peer_named(handle@),
{
    ErrorBody::new("not_found", cat3("no peer named '", handle.as_str(), "'"))
}

/// A view onto a peer that this server already holds.
///
/// The distinction matters because only one of the two can be handed back: a
/// view a workspace holds is what a workspace open wanted, while a bare terminal
/// is a view onto the same peer terminal that a workspace cannot be built around
/// without opening a second connection to it.
#[derive(Debug, PartialEq, Eq)]
pub enum ExistingPeerView {
    InWorkspace { ws_idx: usize, terminal_id: TerminalId },
    Bare { terminal_id: TerminalId },
}

impl ExistingPeerView {
    /// The terminal's id.
    pub open spec fn terminal(self) -> TerminalId {
        match self {
            ExistingPeerView::InWorkspace { terminal_id, .. } => terminal_id,
            ExistingPeerView::Bare { terminal_id } => terminal_id,
        }
    }

    pub fn terminal_id(&self) -> (r: &TerminalId)
        ensures
            *r == self.terminal(),
    {
        match self {
            ExistingPeerView::InWorkspace { terminal_id, .. } => terminal_id,
            ExistingPeerView::Bare { terminal_id } => terminal_id,
        }
    }
}

/// The entry is a view onto exactly this target of this peer.
pub open spec fn views_target(
    peer: Seq<char>,
    target: Seq<char>,
) -> spec_fn(crate::app::state::RuntimeEntry) -> bool {
    |e: crate::app::state::RuntimeEntry|
        match e.runtime {
            TerminalRuntime::Remote(view) => view.peer@ == peer && view.target@ == target,
            _ => false,
        }
}

/// The entry is a view onto this workspace of this peer, or onto one of its
/// panes.
pub open spec fn views_workspace(
    peer: Seq<char>,
    workspace: Seq<char>,
) -> spec_fn(crate::app::state::RuntimeEntry) -> bool {
    |e: crate::app::state::RuntimeEntry|
        match e.runtime {
            TerminalRuntime::Remote(view) => view.peer@ == peer && (view.target@ == workspace
                || crate::text::has_prefix(view.target@, workspace + ":"@)),
            _ => false,
        }
}

/// The terminal of the first entry with a property.
pub open spec fn terminal_where(
    runtimes: Seq<crate::app::state::RuntimeEntry>,
    p: spec_fn(crate::app::state::RuntimeEntry) -> bool,
) -> Option<TerminalId> {
    match crate::search::find(runtimes, p) {
        Some(entry) => Some(entry.terminal_id),
        None => None,
    }
}

/// The terminal that views a target: any pane of it, when the target is a
/// workspace.
pub open spec fn viewing_terminal(
    app: App,
    peer: Seq<char>,
    target: Seq<char>,
    targets_workspace: bool,
) -> Option<TerminalId> {
    terminal_where(
        app.terminal_runtimes@,
        if targets_workspace {
            views_workspace(peer, target)
        } else {
            views_target(peer, target)
        },
    )
}

/// The view this server already holds onto a target.
pub open spec fn already_open(
    app: App,
    peer: Seq<char>,
    target: Seq<char>,
    targets_workspace: bool,
) -> Option<ExistingPeerView> {
    match viewing_terminal(app, peer, target, targets_workspace) {
        Some(terminal_id) => {
            let at = crate::search::first(
                app.state.workspaces@,
                crate::app::state::workspace_has(
                    crate::app::state::PaneKeyView::Terminal(terminal_id@),
                ),
                0,
            );
            if at < app.state.workspaces@.len() {
                Some(ExistingPeerView::InWorkspace { ws_idx: at as usize, terminal_id })
            } else {
                Some(ExistingPeerView::Bare { terminal_id })
            }
        },
        None => None,
    }
}

/// The peer enumerated a workspace under this peer-local id.
pub open spec fn enumerates(
    local_target: Seq<char>,
) -> spec_fn(crate::api::schema::workspaces::WorkspaceInfoView) -> bool {
    |w: crate::api::schema::workspaces::WorkspaceInfoView|
        match crate::app::peers::split_id(w.workspace_id) {
            Some((_, local)) => local == local_target,
            None => false,
        }
}

/// `target` is one of the workspace ids the peer enumerated.
pub open spec fn is_enumerated(
    peers: Seq<crate::app::peers::PeerView>,
    handle: Seq<char>,
    target: Seq<char>,
) -> bool {
    match crate::search::find(peers, crate::app::peers::has_handle(handle)) {
        Some(peer) => crate::search::any(peer.workspaces, enumerates(target)),
        None => false,
    }
}

/// The peer and peer-local id behind a local pane.
pub open spec fn pane_source(app: App, ws_idx: int, pane: PaneId) -> Option<
    (Seq<char>, Seq<char>),
> {
    if 0 <= ws_idx < app.state.workspaces@.len() && app.state.workspaces@[ws_idx].peer is Some {
        match crate::app::state::remote_of_pane(app, ws_idx, pane) {
            Some(view) => Some((app.state.workspaces@[ws_idx].peer->0@, view.target@)),
            None => None,
        }
    } else {
        None
    }
}

/// Why a pane's view cannot be acted on through its peer: another server answers
/// there now.
pub open spec fn server_mismatch(app: App, ws_idx: int, pane: PaneId) -> Option<
    (Seq<char>, Seq<char>),
> {
    match crate::app::state::remote_of_pane(app, ws_idx, pane) {
        Some(view) => match crate::search::find(
            app.state.peers@,
            crate::app::peers::has_handle(view.peer@),
        ) {
            Some(peer) => if peer.instance_id() is Some && view.on_other_server(
                peer.instance_id()->0,
            ) {
                Some(
                    (
                        "unavailable"@,
                        about_peer(
                            "peer '"@,
                            view.peer@,
                            "' was replaced by a different server; this view is stale"@,
                        ),
                    ),
                )
            } else {
                None
            },
            None => None,
        },
        None => None,
    }
}

impl App {
    /// Resolves which peer owns `target`, and the id that peer knows it by.
    ///
    /// A target may arrive namespaced (as enumerated ids are) or bare. The
    /// namespace names its own peer, so `name` is only required for a bare
    /// target. Either way the namespace is stripped: the peer only knows its
    /// own local ids.
    ///
    /// Kept apart from [`Self::resolve_peer_connection`] because naming a peer
    /// needs no connection to it.
    pub fn resolve_peer_target(&self, target: &str, name: Option<&str>) -> (r: Result<
        (PeerHandle, String),
        ErrorBody,
    >)
        ensures
            owner_view(r) == target_owner(self.state.peers@, target@, name_view(name)),
    {
        match (name, split_peer_id(target)) {
            (Some(name), Some((instance_id, local_id))) => {
                let handle = PeerHandle::new(trim(name));
                match self.state.peers.get(&handle) {
                    Some(peer) => if peer.has_instance(instance_id) {
                        Ok((handle, local_id.to_owned()))
                    } else {
                        Err(
                            ErrorBody::new(
                                "invalid_request",
                                cat5(
                                    "'",
                                    target,
                                    "' does not belong to peer '",
                                    handle.as_str(),
                                    "'",
                                ),
                            ),
                        )
                    },
                    None => Err(no_such_peer(&handle)),
                }
            },
            (Some(name), None) => Ok((PeerHandle::new(trim(name)), target.to_owned())),
            (None, Some(_)) => match self.state.peers.resolve_peer_id(target) {
                Some((peer, local_id)) => Ok((peer.handle.clone(), local_id.to_owned())),
                None => Err(
                    ErrorBody::new("not_found", cat3("no connected peer owns '", target, "'")),
                ),
            },
            (None, None) => Err(
                ErrorBody::of(
                    "invalid_request",
                    "name is required when the target is not namespaced",
                ),
            ),
        }
    }

    /// Resolves which peer owns `target` and how to reach it right now.
    pub fn resolve_peer_connection(&self, target: &str, name: Option<&str>) -> (r: Result<
        PeerConnection,
        ErrorBody,
    >)
        ensures
            reach_view(r) == reach(self.state.peers@, target@, name_view(name)),
    {
        let (handle, local_target) = match self.resolve_peer_target(target, name) {
            Ok(resolved) => resolved,
            Err(error) => {
                return Err(error);
            },
        };
        let peer = match self.state.peers.get(&handle) {
            Some(peer) => peer,
            None => {
                return Err(no_such_peer(&handle));
            },
        };
        if !peer.connection.is_connected() {
            return Err(
                ErrorBody::new(
                    "unavailable",
                    cat4("peer '", handle.as_str(), "' is ", peer.connection.label()),
                ),
            );
        }
        let api_socket = match peer.api_socket() {
            Some(path) => path.to_owned(),
            None => {
                return Err(
                    ErrorBody::new(
                        "unavailable",
                        cat3("peer '", handle.as_str(), "' has no transport yet"),
                    ),
                );
            },
        };
        let instance_id = match peer.instance_id() {
            Some(id) => id.to_owned(),
            None => {
                return Err(
                    ErrorBody::new(
                        "unavailable",
                        cat3("peer '", handle.as_str(), "' has not identified itself yet"),
                    ),
                );
            },
        };
        Ok(PeerConnection { local_target, api_socket, instance_id })
    }

    /// The peer and peer-local id backing a local pane, if that pane is a view
    /// onto a peer's terminal.
    ///
    /// The peer address of a pane is per pane, not per workspace: a peer-backed
    /// workspace records which peer backs it, but each of its panes views a
    /// different terminal on that peer once it has been split.
    pub fn peer_pane_source(&self, ws_idx: usize, pane_id: PaneId) -> (r: Option<
        (PeerHandle, String),
    >)
        ensures
            match r {
                Some((handle, target)) => pane_source(*self, ws_idx as int, pane_id) == Some(
                    (handle@, target@),
                ),
                None => pane_source(*self, ws_idx as int, pane_id) is None,
            },
    {
        if ws_idx >= self.state.workspaces.len() {
            return None;
        }
        match &self.state.workspaces[ws_idx].peer {
            Some(peer) => match self.remote_of_pane(ws_idx, pane_id) {
                Some(view) => Some((PeerHandle::new(peer.as_str()), view.target.clone())),
                None => None,
            },
            None => None,
        }
    }

    /// Why this pane's view cannot be acted on through its peer, if it cannot.
    ///
    /// A view records the server it attached to; a peer records the server that
    /// last answered. When they differ, the view's peer-local target names a
    /// pane on a machine that is gone, and forwarding anything for it would
    /// reach an unrelated pane on the replacement.
    pub fn peer_pane_server_mismatch(&self, ws_idx: usize, pane_id: PaneId) -> (r: Option<
        ErrorBody,
    >)
        ensures
            match r {
                Some(error) => server_mismatch(*self, ws_idx as int, pane_id) == Some(error@),
                None => server_mismatch(*self, ws_idx as int, pane_id) is None,
            },
    {
        let view = match self.remote_of_pane(ws_idx, pane_id) {
            Some(view) => view,
            None => {
                return None;
            },
        };
        let handle = PeerHandle::new(view.peer.as_str());
        match self.state.peers.get(&handle) {
            Some(peer) => match peer.instance_id() {
                Some(current) => if view.is_on_other_server(current) {
                    Some(
                        ErrorBody::new(
                            "unavailable",
                            cat3(
                                "peer '",
                                handle.as_str(),
                                "' was replaced by a different server; this view is stale",
                            ),
                        ),
                    )
                } else {
                    None
                },
                None => None,
            },
            None => None,
        }
    }

    /// The view this server already holds onto `local_target`, if any.
    ///
    /// The one "is it already open" test that every open path uses.
    /// `targets_workspace` says the target is a peer workspace id rather than a
    /// pane id, in which case a view onto *any* of its panes counts.
    pub fn peer_view_already_open(&self, peer: &str, local_target: &str, targets_workspace: bool) -> (r:
        Option<ExistingPeerView>)
        ensures
            r == already_open(*self, peer@, local_target@, targets_workspace),
    {
        let found = if targets_workspace {
            self.terminal_viewing_peer_workspace(peer, local_target)
        } else {
            self.existing_peer_view(peer, local_target)
        };
        match found {
            Some(terminal_id) => {
                let at = workspace_with(
                    &self.state.workspaces,
                    &PaneKey::Terminal(&terminal_id),
                );
                if at < self.state.workspaces.len() {
                    Some(ExistingPeerView::InWorkspace { ws_idx: at, terminal_id })
                } else {
                    Some(ExistingPeerView::Bare { terminal_id })
                }
            },
            None => None,
        }
    }

    /// The terminal already viewing `target` on `peer`, if this server has one.
    pub fn existing_peer_view(&self, peer: &str, target: &str) -> (r: Option<TerminalId>)
        ensures
            r == terminal_where(self.terminal_runtimes@, views_target(peer@, target@)),
    {
        let mut i: usize = 0;
        while i < self.terminal_runtimes.len()
            invariant
                i <= self.terminal_runtimes.len(),
                crate::search::first(self.terminal_runtimes@, views_target(peer@, target@), 0)
                    == crate::search::first(
                    self.terminal_runtimes@,
                    views_target(peer@, target@),
                    i as int,
                ),
            decreases self.terminal_runtimes.len() - i,
        {
            match &self.terminal_runtimes[i].runtime {
                TerminalRuntime::Remote(view) => {
                    if str_eq(view.peer.as_str(), peer) && str_eq(view.target.as_str(), target) {
                        return Some(self.terminal_runtimes[i].terminal_id.clone());
                    }
                },
                _ => {},
            }
            i += 1;
        }
        None
    }

    /// Whether `local_target` is one of the workspace ids `peer` enumerated.
    ///
    /// Matching against the enumeration rather than guessing from the id's shape
    /// keeps a pane id or a terminal id from ever being mistaken for a
    /// workspace: the peer itself said which ids are workspaces.
    pub fn peer_target_is_an_enumerated_workspace(
        &self,
        handle: &PeerHandle,
        local_target: &str,
    ) -> (r: bool)
        ensures
            r == is_enumerated(self.state.peers@, handle@, local_target@),
    {
        let peer = match self.state.peers.get(handle) {
            Some(peer) => peer,
            None => {
                return false;
            },
        };
        let ghost all = peer@.workspaces;
        let mut i: usize = 0;
        while i < peer.workspaces.len()
            invariant
                i <= peer.workspaces.len(),
                all == peer@.workspaces,
                crate::search::first(all, enumerates(local_target@), 0) == crate::search::first(
                    all,
                    enumerates(local_target@),
                    i as int,
                ),
                crate::search::find(self.state.peers@, crate::app::peers::has_handle(handle@))
                    == Some(peer@),
            decreases peer.workspaces.len() - i,
        {
            assert(all[i as int] == peer.workspaces@[i as int]@);
            match split_peer_id(peer.workspaces[i].workspace_id.as_str()) {
                Some((_, local)) => {
                    if str_eq(local, local_target) {
                        return true;
                    }
                },
                None => {},
            }
            i += 1;
        }
        false
    }

    /// The workspace holding a view onto any pane of the peer's `workspace_id`.
    ///
    /// A view addresses a *pane*, and a workspace opened from an enumeration
    /// resolves to one of its panes, so "is this workspace open here" cannot be
    /// answered by comparing target strings.
    pub fn workspace_viewing_peer_workspace(&self, peer: &str, workspace_id: &str) -> (r: Option<
        usize,
    >)
        ensures
            r == (match already_open(*self, peer@, workspace_id@, true) {
                Some(ExistingPeerView::InWorkspace { ws_idx, .. }) => Some(ws_idx),
                _ => None,
            }),
    {
        match self.peer_view_already_open(peer, workspace_id, true) {
            Some(ExistingPeerView::InWorkspace { ws_idx, .. }) => Some(ws_idx),
            _ => None,
        }
    }

    /// The terminal viewing any pane of the peer's `workspace_id`, whether or
    /// not a local workspace holds it.
    ///
    /// Pane ids are `<workspace>:<pane>`, which is what makes the prefix test
    /// exact — the separator stops `w2` from matching `w21:p1`.
    pub fn terminal_viewing_peer_workspace(&self, peer: &str, workspace_id: &str) -> (r: Option<
        TerminalId,
    >)
        ensures
            r == terminal_where(self.terminal_runtimes@, views_workspace(peer@, workspace_id@)),
    {
        let pane_prefix = cat2(workspace_id, ":");
        let mut i: usize = 0;
        while i < self.terminal_runtimes.len()
            invariant
                i <= self.terminal_runtimes.len(),
                pane_prefix@ == workspace_id@ + ":"@,
                crate::search::first(
                    self.terminal_runtimes@,
                    views_workspace(peer@, workspace_id@),
                    0,
                ) == crate::search::first(
                    self.terminal_runtimes@,
                    views_workspace(peer@, workspace_id@),
                    i as int,
                ),
            decreases self.terminal_runtimes.len() - i,
        {
            match &self.terminal_runtimes[i].runtime {
                TerminalRuntime::Remote(view) => {
                    if str_eq(view.peer.as_str(), peer) && (str_eq(
                        view.target.as_str(),
                        workspace_id,
                    ) || crate::text::starts_with(view.target.as_str(), pane_prefix.as_str())) {
                        return Some(self.terminal_runtimes[i].terminal_id.clone());
                    }
                },
                _ => {},
            }
            i += 1;
        }
        None
    }

    /// Where a terminal's pane sits, if one still holds it.
    pub fn pane_location_for_terminal(&self, terminal_id: &TerminalId) -> (r: Option<
        (usize, PaneId),
    >)
        ensures
            match r {
                Some((at, pane)) => crate::app::state::located(
                    self.state.workspaces@,
                    crate::app::state::PaneKeyView::Terminal(terminal_id@),
                ) == Some((at as int, pane)),
                None => crate::app::state::located(
                    self.state.workspaces@,
                    crate::app::state::PaneKeyView::Terminal(terminal_id@),
                ) is None,
            },
    {
        locate_pane(&self.state.workspaces, &PaneKey::Terminal(terminal_id))
    }

    /// The pane a terminal is attached to, if one still is.
    pub fn pane_for_terminal(&self, terminal_id: &TerminalId) -> (r: Option<PaneId>)
        ensures
            r == (match crate::app::state::located(
                self.state.workspaces@,
                crate::app::state::PaneKeyView::Terminal(terminal_id@),
            ) {
                Some((_, pane)) => Some(pane),
                None => None,
            }),
    {
        match self.pane_location_for_terminal(terminal_id) {
            Some((_, pane)) => Some(pane),
            None => None,
        }
    }

    /// Which workspace a `tab.create` means, by explicit id or by falling back
    /// to the active one.
    pub fn workspace_index_for_tab_create(&self, workspace_id: Option<&str>) -> (r: Option<usize>)
        ensures
            r == tab_workspace(*self, name_view(workspace_id)),
    {
        match workspace_id {
            Some(workspace_id) => self.parse_workspace_id(workspace_id),
            None => self.state.active,
        }
    }
}

/// The position of the workspace that clients know by this id.
pub open spec fn public_position(app: App, id: Seq<char>) -> Option<usize> {
    let at = crate::search::first(
        app.state.workspaces@,
        crate::app::state::has_public_id(id),
        0,
    );
    if at < app.state.workspaces@.len() {
        Some(at as usize)
    } else {
        None
    }
}

/// The workspace that a new tab goes to: the named one, else the active one.
pub open spec fn tab_workspace(app: App, workspace_id: Option<Seq<char>>) -> Option<usize> {
    match workspace_id {
        Some(id) => public_position(app, id),
        None => app.state.active,
    }
}

} // verus!
