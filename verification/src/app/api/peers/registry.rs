//! Adding, removing and listing peers.
//!
//! These change the desired peer set and never touch a socket.

use vstd::prelude::*;

use crate::api::schema::peers::{PeerAddParams, PeerInfo, PeerRef, PeerTargetSpec};
use crate::api::schema::responses::ErrorBody;
use crate::api::schema::workspaces::clone_workspaces;
use crate::app::api::peers::lifecycle::ClosedViews;
use crate::app::peers::{PeerConnectionState, PeerHandle, PeerState, PeerTarget};
use crate::app::state::{App, PeerHistoryEntry, RuntimeEntry};
use crate::terminal::{TerminalId, TerminalRuntime};
use crate::text::{cat2, cat4, opt_clone, str_eq, trim};

verus! {

/// The form a target is remembered in.
pub open spec fn history_text(target: crate::app::peers::TargetView) -> Seq<char> {
    match target {
        crate::app::peers::TargetView::SocketPath(path) => "socket://"@ + path,
        crate::app::peers::TargetView::Ssh { destination, session: None } => "ssh://"@ + destination,
        crate::app::peers::TargetView::Ssh { destination, session: Some(session) } => "ssh://"@
            + destination + "#"@ + session,
    }
}

/// What clients are told about a peer.
pub open spec fn info_of(peer: crate::app::peers::PeerView) -> crate::api::schema::peers::PeerInfoView {
    crate::api::schema::peers::PeerInfoView {
        name: peer.handle,
        label: peer.label,
        target: peer.target,
        connection: peer.connection.kind(),
        attempt: match peer.connection {
            crate::app::peers::ConnectionView::Reconnecting { attempt, .. } => Some(attempt),
            _ => None,
        },
        error: match peer.connection {
            crate::app::peers::ConnectionView::Reconnecting { message, .. } => Some(message),
            crate::app::peers::ConnectionView::Error { message } => Some(message),
            _ => None,
        },
        instance_id: peer.instance_id(),
        version: match peer.identity {
            Some(identity) => identity.version,
            None => None,
        },
        protocol: match peer.identity {
            Some(identity) => identity.protocol,
            None => None,
        },
        stale: !(peer.connection is Connected),
        failed_pane_cleanups: peer.pending_pane_cleanups.len(),
        workspaces: peer.workspaces,
    }
}

pub fn peer_target_from_spec(spec: PeerTargetSpec) -> (r: PeerTarget)
    ensures
        r@ == spec@,
{
    match spec {
        PeerTargetSpec::SocketPath { path } => PeerTarget::SocketPath(path),
        PeerTargetSpec::Ssh { destination, session } => PeerTarget::Ssh { destination, session },
    }
}

pub fn peer_target_spec(target: &PeerTarget) -> (r: PeerTargetSpec)
    ensures
        r@ == target@,
{
    match target {
        PeerTarget::SocketPath(path) => PeerTargetSpec::SocketPath { path: path.clone() },
        PeerTarget::Ssh { destination, session } => PeerTargetSpec::Ssh {
            destination: destination.clone(),
            session: opt_clone(session),
        },
    }
}

/// Canonical history form of a peer target.
///
/// History dedupes on this string, so it identifies the destination, not the
/// chosen name: the same ssh host added under two names is one history entry.
pub fn peer_history_target(target: &PeerTarget) -> (r: String)
    ensures
        r@ == history_text(target@),
{
    match target {
        PeerTarget::SocketPath(path) => cat2("socket://", path.as_str()),
        PeerTarget::Ssh { destination, session: None } => cat2("ssh://", destination.as_str()),
        PeerTarget::Ssh { destination, session: Some(session) } => cat4(
            "ssh://",
            destination.as_str(),
            "#",
            session.as_str(),
        ),
    }
}

/// What clients are told about a peer.
pub fn peer_info(peer: &PeerState) -> (r: PeerInfo)
    ensures
        r@ == info_of(peer@),
{
    let (attempt, error) = match &peer.connection {
        PeerConnectionState::Reconnecting { attempt, message } => (
            Some(*attempt),
            Some(message.clone()),
        ),
        PeerConnectionState::Error { message } => (None, Some(message.clone())),
        _ => (None, None),
    };
    let (version, protocol) = match &peer.identity {
        Some(identity) => (opt_clone(&identity.version), identity.protocol),
        None => (None, None),
    };
    PeerInfo {
        name: peer.handle.as_str().to_owned(),
        label: peer.label.clone(),
        target: peer_target_spec(&peer.target),
        connection: peer.connection.kind(),
        attempt,
        error,
        instance_id: match peer.instance_id() {
            Some(id) => Some(id.to_owned()),
            None => None,
        },
        version,
        protocol,
        stale: peer.is_stale(),
        failed_pane_cleanups: peer.failed_pane_cleanups(),
        workspaces: clone_workspaces(&peer.workspaces),
    }
}

/// A peer that was added, to be remembered.
#[derive(Debug, PartialEq, Eq)]
pub struct AddedPeer {
    pub name: String,
    /// The target in the form it is remembered in.
    pub history_target: String,
}

/// What adding a peer comes to.
pub open spec fn adds_peer(
    before: Seq<crate::app::peers::PeerView>,
    after: Seq<crate::app::peers::PeerView>,
    r: Result<AddedPeer, ErrorBody>,
    wanted: PeerAddParams,
) -> bool {
    let name = crate::text::trimmed(wanted.name@);
    let by_target = crate::app::peers::has_target(wanted.target@);
    if name.len() == 0 {
        &&& after == before
        &&& r matches Err(error) && error@ == (
            "invalid_request"@,
            "peer name must not be empty"@,
        )
    } else if crate::search::any(before, crate::app::peers::has_handle(name)) {
        &&& after == before
        &&& r matches Err(error) && error@ == (
            "already_exists"@,
            "a peer with that name already exists"@,
        )
    } else if crate::search::any(before, by_target) {
        &&& after == before
        &&& r matches Err(error) && error@ == (
            "already_exists"@,
            "that target is already configured as peer '"@ + crate::search::find(
                before,
                by_target,
            )->0.handle + "'"@,
        )
    } else {
        &&& after == before.push(crate::app::peers::PeerView::fresh(name, wanted.target@))
        &&& r matches Ok(added)
        &&& added.name@ == name
        &&& added.history_target@ == history_text(wanted.target@)
    }
}

/// What stopped when a peer was removed.
#[derive(Debug, PartialEq, Eq)]
pub struct RemovedPeer {
    /// What ran the terminals of the peer that no pane showed.
    pub bare: Vec<RuntimeEntry>,
    pub views: ClosedViews,
}

/// The terminal is run by a view onto this peer.
pub open spec fn run_by_peer(
    runtimes: Seq<RuntimeEntry>,
    peer: Seq<char>,
) -> spec_fn(TerminalId) -> bool {
    |t: TerminalId|
        match crate::app::state::remote_of(runtimes, t@) {
            Some(view) => view.peer@ == peer,
            None => false,
        }
}

/// The entry once no view onto this peer claims a pane there.
pub open spec fn unclaimed(entry: RuntimeEntry, peer: Seq<char>) -> RuntimeEntry {
    match super::views::remote(entry) {
        Some(view) if view.peer@ == peer => super::views::with_view(
            entry,
            crate::terminal::RemoteView { spawned_on_peer: false, ..view },
        ),
        _ => entry,
    }
}

/// The peer is gone from the registry, its views claim nothing, and the session
/// is to be saved.
pub open spec fn forgets(before: App, after: App, peer: Seq<char>) -> bool {
    &&& after == (App {
        state: crate::app::state::AppState {
            peers: after.state.peers,
            session_dirty: true,
            ..before.state
        },
        terminal_runtimes: after.terminal_runtimes,
        ..before
    })
    &&& after.state.peers@ == before.state.peers@.remove(
        crate::app::peers::position(before.state.peers@, peer),
    )
    &&& after.terminal_runtimes@.len() == before.terminal_runtimes@.len()
    &&& forall|i: int|
        0 <= i < before.terminal_runtimes@.len() ==> (#[trigger] after.terminal_runtimes@[i])
            == unclaimed(before.terminal_runtimes@[i], peer)
}

/// What removing a peer comes to.
pub open spec fn removes_peer(
    before: App,
    after: App,
    r: Result<RemovedPeer, ErrorBody>,
    peer: Seq<char>,
) -> bool {
    if !crate::search::any(before.state.peers@, crate::app::peers::has_handle(peer)) {
        &&& r matches Err(error) && error@ == super::resolve::no_peer_named(peer)
        &&& after.state.peers@ == before.state.peers@
        &&& after == (App {
            state: crate::app::state::AppState { peers: after.state.peers, ..before.state },
            ..before
        })
    } else {
        r matches Ok(removed) && clears(before, after, removed, peer)
    }
}

/// The peer is forgotten, its bare terminals are released, and its views are
/// closed.
pub open spec fn clears(before: App, after: App, removed: RemovedPeer, peer: Seq<char>) -> bool {
    exists|forgot: App, left: App|
        #![trigger forgets(before, forgot, peer), super::lifecycle::closes_views(
            left,
            after,
            removed.views,
            peer,
        )]
        forgets(before, forgot, peer) && crate::app::layout::only_releases(
            forgot,
            left,
            removed.bare@,
            run_by_peer(forgot.terminal_runtimes@, peer),
        ) && super::lifecycle::closes_views(left, after, removed.views, peer)
}

fn is_run_by(runtimes: &Vec<RuntimeEntry>, id: &TerminalId, peer: &str) -> (r: bool)
    ensures
        r == (match crate::app::state::remote_of(runtimes@, id@) {
            Some(view) => view.peer@ == peer@,
            None => false,
        }),
{
    let mut i: usize = 0;
    while i < runtimes.len()
        invariant
            i <= runtimes.len(),
            crate::search::first(runtimes@, crate::app::state::of_terminal(id@), 0)
                == crate::search::first(
                runtimes@,
                crate::app::state::of_terminal(id@),
                i as int,
            ),
        decreases runtimes.len() - i,
    {
        if runtimes[i].terminal_id.is(id) {
            return match &runtimes[i].runtime {
                TerminalRuntime::Remote(view) => str_eq(view.peer.as_str(), peer),
                TerminalRuntime::Local { .. } => false,
            };
        }
        i += 1;
    }
    false
}

impl App {
    /// Adds a peer, and has the session saved. The caller remembers the peer, and
    /// a failure to do so does not fail the add.
    pub fn handle_peer_add(&mut self, params: PeerAddParams) -> (r: Result<AddedPeer, ErrorBody>)
        ensures
            adds_peer(old(self).state.peers@, final(self).state.peers@, r, params),
            *final(self) == (App {
                state: crate::app::state::AppState {
                    peers: final(self).state.peers,
                    session_dirty: r is Ok || old(self).state.session_dirty,
                    ..old(self).state
                },
                ..*old(self)
            }),
            crate::app::peers::consistent(old(self).state.peers@)
                ==> crate::app::peers::consistent(final(self).state.peers@),
    {
        let name = trim(params.name.as_str());
        if name.is_empty() {
            return Err(ErrorBody::of("invalid_request", "peer name must not be empty"));
        }
        let target = peer_target_from_spec(params.target);
        let history_target = peer_history_target(&target);
        match self.state.peers.add(PeerHandle::new(name), target) {
            Ok(()) => {
                self.state.session_dirty = true;
                Ok(AddedPeer { name: name.to_owned(), history_target })
            },
            Err(error) => Err(ErrorBody::new("already_exists", error.message())),
        }
    }

    /// Takes over the remembered peers once an add was recorded; what could not
    /// be recorded changes nothing.
    pub fn note_peer_history(&mut self, recorded: Result<Vec<PeerHistoryEntry>, String>)
        ensures
            *final(self) == (App {
                state: crate::app::state::AppState {
                    peer_history: match recorded {
                        Ok(entries) => entries,
                        Err(_) => old(self).state.peer_history,
                    },
                    ..old(self).state
                },
                ..*old(self)
            }),
    {
        match recorded {
            Ok(entries) => {
                self.state.peer_history = entries;
            },
            Err(_) => {},
        }
    }

    fn drop_claims_on(&mut self, peer: &str)
        ensures
            super::views::only_runtimes(*old(self), *final(self)),
            forall|i: int|
                0 <= i < old(self).terminal_runtimes@.len() ==> (
                #[trigger] final(self).terminal_runtimes@[i]) == unclaimed(
                    old(self).terminal_runtimes@[i],
                    peer@,
                ),
    {
        let mut i: usize = 0;
        while i < self.terminal_runtimes.len()
            invariant
                i <= self.terminal_runtimes.len(),
                super::views::only_runtimes(*old(self), *self),
                forall|j: int|
                    0 <= j < i ==> #[trigger] self.terminal_runtimes@[j] == unclaimed(
                        old(self).terminal_runtimes@[j],
                        peer@,
                    ),
                forall|j: int|
                    i <= j < self.terminal_runtimes@.len() ==> #[trigger] self.terminal_runtimes@[j]
                        == old(self).terminal_runtimes@[j],
            decreases self.terminal_runtimes.len() - i,
        {
            match &mut self.terminal_runtimes[i].runtime {
                TerminalRuntime::Remote(view) => {
                    if str_eq(view.peer.as_str(), peer) {
                        view.clear_spawned_on_peer();
                    }
                },
                TerminalRuntime::Local { .. } => {},
            }
            i += 1;
        }
    }

    /// Removes a peer, and everything that showed it, and has the session saved.
    ///
    /// Panes we had this peer spawn stay running there. Dropping the claims first
    /// keeps the teardown from forwarding a close to a peer that is already gone;
    /// the peer records them as owned by an instance that is no longer attached.
    pub fn handle_peer_remove(&mut self, target: PeerRef) -> (r: Result<RemovedPeer, ErrorBody>)
        ensures
            removes_peer(*old(self), *final(self), r, crate::text::trimmed(target.name@)),
    {
        let handle = PeerHandle::new(trim(target.name.as_str()));
        if self.state.peers.remove(&handle).is_none() {
            return Err(super::resolve::no_such_peer(&handle));
        }
        self.state.session_dirty = true;
        self.drop_claims_on(handle.as_str());
        let ghost forgot = *self;
        let peer = handle.as_str();
        let bare = self.release_run_by(peer);
        let ghost left = *self;
        let views = self.close_views_backed_by_peer(&handle);
        let removed = RemovedPeer { bare, views };
        proof {
            crate::search::lemma_first(
                old(self).state.peers@,
                crate::app::peers::has_handle(handle@),
                0,
            );
            assert(forgets(*old(self), forgot, handle@));
            assert(crate::app::layout::only_releases(
                forgot,
                left,
                removed.bare@,
                run_by_peer(forgot.terminal_runtimes@, handle@),
            ));
            assert(super::lifecycle::closes_views(left, *self, removed.views, handle@));
            assert(clears(*old(self), *self, removed, handle@));
        }
        Ok(removed)
    }

    /// Releases the terminals run by views onto a peer that no pane shows.
    fn release_run_by(&mut self, peer: &str) -> (r: Vec<RuntimeEntry>)
        ensures
            crate::app::layout::only_releases(
                *old(self),
                *final(self),
                r@,
                run_by_peer(old(self).terminal_runtimes@, peer@),
            ),
    {
        let ids = self.terminals_run_by(peer);
        let known = &ids;
        let ghost p = run_by_peer(self.terminal_runtimes@, peer@);
        let runs = |t: &TerminalId| -> (b: bool)
            ensures
                b == crate::search::any(known@, crate::app::layout::is_terminal(t@)),
            { crate::app::layout::has_terminal(known, t) };
        assert forall|t: TerminalId|
            crate::search::any(known@, crate::app::layout::is_terminal(t@)) == #[trigger] p(t) by {
            crate::search::lemma_any(known@, crate::app::layout::is_terminal(t@));
        }
        self.release_terminals(runs, Ghost(p))
    }

    /// The terminals run by views onto a peer.
    fn terminals_run_by(&self, peer: &str) -> (r: Vec<TerminalId>)
        ensures
            forall|t: TerminalId|
                (exists|j: int| 0 <= j < r@.len() && (#[trigger] r@[j])@ == t@) == #[trigger] (
                run_by_peer(self.terminal_runtimes@, peer@)(t)),
    {
        let mut out: Vec<TerminalId> = Vec::new();
        let mut i: usize = 0;
        while i < self.terminal_runtimes.len()
            invariant
                i <= self.terminal_runtimes.len(),
                forall|j: int|
                    0 <= j < out@.len() ==> run_by_peer(self.terminal_runtimes@, peer@)(
                        #[trigger] out@[j],
                    ),
                forall|k: int|
                    0 <= k < i && run_by_peer(self.terminal_runtimes@, peer@)(
                        (#[trigger] self.terminal_runtimes@[k]).terminal_id,
                    ) ==> exists|j: int|
                        0 <= j < out@.len() && (#[trigger] out@[j])@
                            == self.terminal_runtimes@[k].terminal_id@,
            decreases self.terminal_runtimes.len() - i,
        {
            let id = &self.terminal_runtimes[i].terminal_id;
            if is_run_by(&self.terminal_runtimes, id, peer) {
                let ghost before = out@;
                out.push(id.clone());
                assert(out@[before.len() as int]@ == id@);
                assert forall|j: int| 0 <= j < before.len() implies out@[j] == before[j] by {}
                assert forall|k: int|
                    0 <= k < i + 1 && run_by_peer(self.terminal_runtimes@, peer@)(
                        (#[trigger] self.terminal_runtimes@[k]).terminal_id,
                    ) implies exists|j: int|
                    0 <= j < out@.len() && (#[trigger] out@[j])@
                        == self.terminal_runtimes@[k].terminal_id@ by {
                    if k < i {
                        let j = choose|j: int|
                            0 <= j < before.len() && (#[trigger] before[j])@
                                == self.terminal_runtimes@[k].terminal_id@;
                        assert(out@[j]@ == self.terminal_runtimes@[k].terminal_id@);
                    }
                }
            }
            i += 1;
        }
        assert forall|t: TerminalId|
            (exists|j: int| 0 <= j < out@.len() && (#[trigger] out@[j])@ == t@) == #[trigger] (
            run_by_peer(self.terminal_runtimes@, peer@)(t)) by {
            let runtimes = self.terminal_runtimes@;
            if run_by_peer(runtimes, peer@)(t) {
                crate::search::lemma_first(runtimes, crate::app::state::of_terminal(t@), 0);
                let k = crate::app::state::runtime_at(runtimes, t@);
                assert(runtimes[k].terminal_id@ == t@);
                assert(run_by_peer(runtimes, peer@)(runtimes[k].terminal_id));
            }
            if exists|j: int| 0 <= j < out@.len() && (#[trigger] out@[j])@ == t@ {
                let j = choose|j: int| 0 <= j < out@.len() && (#[trigger] out@[j])@ == t@;
                assert(run_by_peer(runtimes, peer@)(out@[j]));
            }
        }
        out
    }

    /// What clients are told about every peer, in the order they were added.
    pub fn peer_list_info(&self) -> (r: Vec<PeerInfo>)
        ensures
            r@.map_values(|p: PeerInfo| p@) == self.state.peers@.map_values(
                |p: crate::app::peers::PeerView| info_of(p),
            ),
    {
        let peers = self.state.peers.iter();
        let mut out: Vec<PeerInfo> = Vec::new();
        let mut i: usize = 0;
        while i < peers.len()
            invariant
                i <= peers.len(),
                crate::app::peers::peers_view(peers@) == self.state.peers@,
                out@.len() == i,
                forall|j: int| 0 <= j < i ==> (#[trigger] out@[j])@ == info_of(self.state.peers@[j]),
            decreases peers.len() - i,
        {
            assert(self.state.peers@[i as int] == peers@[i as int]@);
            out.push(peer_info(&peers[i]));
            i += 1;
        }
        assert(out@.map_values(|p: PeerInfo| p@) =~= self.state.peers@.map_values(
            |p: crate::app::peers::PeerView| info_of(p),
        ));
        out
    }
}

} // verus!
