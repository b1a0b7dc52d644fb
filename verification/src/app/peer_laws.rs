//! What holds of the peers that are configured, and of what is told about them.

use vstd::prelude::*;

use crate::api::schema::peers::{PeerAddParams, PeerConnectionKind, PeerInfo};
use crate::api::schema::responses::ErrorBody;
use crate::api::schema::workspaces::WorkspaceInfo;
use crate::app::api::peers::open_laws::is_peer;
use crate::app::api::peers::registry::AddedPeer;
use crate::app::peers::{
    AddPeerError, PeerConnectionState, PeerHandle, PeerIdentity, PeerRegistryState, PeerState,
    PeerTarget, PeerView, PendingPaneCleanup, SetIdentity,
};
use crate::app::state::{App, PeerHistoryEntry};

verus! {

/// No peer has this handle.
pub open spec fn is_no_peer(peers: Seq<PeerView>, handle: Seq<char>) -> bool {
    forall|j: int| 0 <= j < peers.len() ==> (#[trigger] peers[j]).handle != handle
}

/// Every peer but the one at `q` stayed as it was, and that one kept its handle.
pub open spec fn only_peer_moved(before: Seq<PeerView>, after: Seq<PeerView>, q: int) -> bool {
    &&& after.len() == before.len()
    &&& after[q].handle == before[q].handle
    &&& forall|j: int| 0 <= j < before.len() && j != q ==> #[trigger] after[j] == before[j]
}

/// The first peer that meets a condition is the one it is looked up by.
proof fn lemma_peer(peers: Seq<PeerView>, q: int, handle: Seq<char>)
    ensures
        is_peer(peers, q, handle) ==> crate::app::peers::position(peers, handle) == q,
        is_no_peer(peers, handle) ==> crate::app::peers::position(peers, handle) == peers.len(),
        crate::app::peers::position(peers, handle) < peers.len() ==> is_peer(
            peers,
            crate::app::peers::position(peers, handle),
            handle,
        ),
        crate::app::peers::position(peers, handle) >= peers.len() ==> is_no_peer(peers, handle),
{
    let p = crate::app::peers::has_handle(handle);
    crate::search::lemma_first(peers, p, 0);
    if is_peer(peers, q, handle) {
        crate::search::lemma_first_is(peers, p, 0, q);
    }
    if is_no_peer(peers, handle) {
        crate::search::lemma_first_is(peers, p, 0, peers.len() as int);
    }
    assert forall|j: int| 0 <= j < crate::search::first(peers, p, 0) implies (
    #[trigger] peers[j]).handle != handle by {
        assert(!p(peers[j]));
    }
}

/// Two ssh targets are one when the destination and the session are; two sockets
/// when the path is; and a socket is never an ssh target. Sameness is mutual.
pub proof fn law_targets_are_told_apart(a: PeerTarget, b: PeerTarget, r: bool, s: bool)
    requires
        call_ensures(PeerTarget::same, (&a, &b), r),
        call_ensures(PeerTarget::same, (&b, &a), s),
    ensures
        r == s,
        a@ == b@ ==> r,
        a is SocketPath && b is Ssh ==> !r,
        a is Ssh && b is Ssh ==> r == (a->destination@ == b->destination@ && crate::text::opt_view(
            a->session,
        ) == crate::text::opt_view(b->session)),
{
}

/// A target is described by its path, or by its destination and session.
pub proof fn law_targets_are_described(target: PeerTarget, r: String)
    requires
        call_ensures(PeerTarget::describe, (&target,), r),
    ensures
        target matches PeerTarget::SocketPath(path) ==> r@ == path@,
        target matches PeerTarget::Ssh { destination, session: None } ==> r@ == destination@,
        target matches PeerTarget::Ssh { destination, session: Some(session) } ==> r@
            == destination@ + ":"@ + session@,
{
}

/// A peer's history line says by which route it is reached, and keeps a session
/// behind a `#`.
pub proof fn law_history_names_the_route(target: PeerTarget, r: String)
    requires
        call_ensures(crate::app::api::peers::registry::peer_history_target, (&target,), r),
    ensures
        target matches PeerTarget::SocketPath(path) ==> r@ == "socket://"@ + path@,
        target matches PeerTarget::Ssh { destination, session: None } ==> r@ == "ssh://"@
            + destination@,
        target matches PeerTarget::Ssh { destination, session: Some(session) } ==> r@ == "ssh://"@
            + destination@ + "#"@ + session@,
{
}

/// Each state of a connection has a label of its own; only a connected peer's facts
/// are fresh.
pub proof fn law_states_are_labelled(
    state: PeerConnectionState,
    label: &'static str,
    kind: PeerConnectionKind,
    connected: bool,
    stale: bool,
)
    requires
        call_ensures(PeerConnectionState::label, (&state,), label),
        call_ensures(PeerConnectionState::kind, (&state,), kind),
        call_ensures(PeerConnectionState::is_connected, (&state,), connected),
        call_ensures(PeerConnectionState::is_stale, (&state,), stale),
    ensures
        state is Connecting ==> label@ == "connecting"@ && kind == PeerConnectionKind::Connecting,
        state is Connected ==> label@ == "connected"@ && kind == PeerConnectionKind::Connected,
        state is Reconnecting ==> label@ == "reconnecting"@ && kind
            == PeerConnectionKind::Reconnecting,
        state is Error ==> label@ == "error"@ && kind == PeerConnectionKind::Error,
        connected == state is Connected,
        stale == !connected,
{
}

/// A kind's own label is the label of the state it was taken from.
pub proof fn law_kinds_are_labelled(kind: PeerConnectionKind, label: &'static str)
    requires
        call_ensures(PeerConnectionKind::label, (kind,), label),
    ensures
        kind is Connecting ==> label@ == "connecting"@,
        kind is Connected ==> label@ == "connected"@,
        kind is Reconnecting ==> label@ == "reconnecting"@,
        kind is Error ==> label@ == "error"@,
{
}

/// A socket's path is where its peer answers; an ssh peer answers where its bridge
/// came up, and nowhere before.
pub proof fn law_peers_answer_on_their_socket(peer: PeerState, r: Option<&str>)
    requires
        call_ensures(PeerState::api_socket, (&peer,), r),
    ensures
        peer.target matches PeerTarget::SocketPath(path) ==> r is Some && r->0@ == path@,
        peer.target is Ssh ==> (r is Some == peer.transport_socket is Some),
        peer.target is Ssh && r is Some ==> r->0@ == peer.transport_socket->0@,
{
}

/// A peer answers as the server that it last identified itself as.
pub proof fn law_peers_are_known_by_their_instance(
    peer: PeerState,
    id: &str,
    known: Option<&str>,
    has: bool,
    stale: bool,
    failed: usize,
)
    requires
        call_ensures(PeerState::instance_id, (&peer,), known),
        call_ensures(PeerState::has_instance, (&peer, id), has),
        call_ensures(PeerState::is_stale, (&peer,), stale),
        call_ensures(PeerState::failed_pane_cleanups, (&peer,), failed),
    ensures
        known is Some == peer.identity is Some,
        peer.identity matches Some(identity) ==> known->0@ == identity.instance_id@,
        has == (known is Some && known->0@ == id@),
        stale == !(peer.connection is Connected),
        failed == peer.pending_pane_cleanups@.len(),
{
}

/// What is told of a peer is what is known of it: an attempt while it reconnects,
/// and the error while it is down.
pub proof fn law_a_peer_is_told_as_it_is_known(peer: PeerState, r: PeerInfo)
    requires
        call_ensures(crate::app::api::peers::registry::peer_info, (&peer,), r),
    ensures
        r.name@ == peer.handle@,
        r.label@ == peer.label@,
        r.target@ == peer.target@,
        r.connection is Connected == peer.connection is Connected,
        r.connection is Connecting == peer.connection is Connecting,
        r.connection is Reconnecting == peer.connection is Reconnecting,
        r.connection is Error == peer.connection is Error,
        r.stale == !(peer.connection is Connected),
        peer.connection matches PeerConnectionState::Reconnecting { attempt, message }
            ==> r.attempt == Some(attempt) && r.error is Some && r.error->0@ == message@,
        peer.connection matches PeerConnectionState::Error { message } ==> r.attempt is None
            && r.error is Some && r.error->0@ == message@,
        peer.connection is Connected || peer.connection is Connecting ==> r.attempt is None
            && r.error is None,
        peer.identity matches Some(identity) ==> {
            &&& r.instance_id is Some && r.instance_id->0@ == identity.instance_id@
            &&& crate::text::opt_view(r.version) == crate::text::opt_view(identity.version)
            &&& r.protocol == identity.protocol
        },
        peer.identity is None ==> r.instance_id is None && r.version is None && r.protocol is None,
        r.failed_pane_cleanups == peer.pending_pane_cleanups@.len(),
        crate::api::schema::workspaces::workspaces_view(r.workspaces@)
            == crate::api::schema::workspaces::workspaces_view(peer.workspaces@),
{
}

/// Every peer is listed, in the order they were added, as it is known.
pub proof fn law_every_peer_is_listed(app: App, r: Vec<PeerInfo>, q: int)
    requires
        call_ensures(App::peer_list_info, (&app,), r),
        0 <= q < app.state.peers@.len(),
    ensures
        r@.len() == app.state.peers@.len(),
        r@[q].name@ == app.state.peers@[q].handle,
        r@[q].label@ == app.state.peers@[q].label,
        r@[q].stale == !(app.state.peers@[q].connection is Connected),
        r@[q].target@ == app.state.peers@[q].target,
        crate::text::opt_view(r@[q].instance_id) == app.state.peers@[q].instance_id(),
{
    let told = r@.map_values(|p: PeerInfo| p@);
    let known = app.state.peers@.map_values(
        |p: PeerView| crate::app::api::peers::registry::info_of(p),
    );
    assert(told[q] == known[q]);
    assert(told.len() == known.len());
}

/// A peer that was just configured: nothing has been learned of it yet.
pub open spec fn nothing_learned(peer: PeerView) -> bool {
    &&& peer.connection is Connecting
    &&& peer.identity is None
    &&& peer.workspaces.len() == 0
    &&& peer.transport_socket is None
    &&& peer.pending_pane_cleanups.len() == 0
}

/// A peer is added behind the others, or refused because its name or its target is
/// taken; a refusal changes nothing.
pub proof fn law_a_peer_is_added_once(handle: PeerHandle, target: PeerTarget)
    ensures
        forall|registry: &mut PeerRegistryState, r: Result<(), AddPeerError>| #[trigger]
            call_ensures(PeerRegistryState::add, (registry, handle, target), r) ==> {
                let before = (*registry)@;
                let after = (*final(registry))@;
                &&& r is Ok == (is_no_peer(before, handle@) && forall|j: int|
                    0 <= j < before.len() ==> !crate::app::peers::same_target(
                        (#[trigger] before[j]).target,
                        target@,
                    ))
                &&& r matches Err(AddPeerError::DuplicateHandle) ==> !is_no_peer(before, handle@)
                &&& r matches Err(AddPeerError::DuplicateTarget { handle: held_by })
                    ==> is_no_peer(before, handle@) && exists|j: int|
                    0 <= j < before.len() && (#[trigger] before[j]).handle == held_by@
                        && crate::app::peers::same_target(before[j].target, target@)
                &&& r is Err ==> after == before
                &&& r is Ok ==> {
                    &&& after.len() == before.len() + 1
                    &&& after.drop_last() == before
                    &&& after.last().handle == handle@
                    &&& after.last().target == target@
                    &&& nothing_learned(after.last())
                }
            },
{
    assert forall|registry: &mut PeerRegistryState, r: Result<(), AddPeerError>| #[trigger]
        call_ensures(PeerRegistryState::add, (registry, handle, target), r) implies {
        let before = (*registry)@;
        let after = (*final(registry))@;
        &&& r is Ok == (is_no_peer(before, handle@) && forall|j: int|
            0 <= j < before.len() ==> !crate::app::peers::same_target(
                (#[trigger] before[j]).target,
                target@,
            ))
        &&& r matches Err(AddPeerError::DuplicateHandle) ==> !is_no_peer(before, handle@)
        &&& r matches Err(AddPeerError::DuplicateTarget { handle: held_by }) ==> is_no_peer(
            before,
            handle@,
        ) && exists|j: int|
            0 <= j < before.len() && (#[trigger] before[j]).handle == held_by@
                && crate::app::peers::same_target(before[j].target, target@)
        &&& r is Err ==> after == before
        &&& r is Ok ==> {
            &&& after.len() == before.len() + 1
            &&& after.drop_last() == before
            &&& after.last().handle == handle@
            &&& after.last().target == target@
            &&& nothing_learned(after.last())
        }
    } by {
        let before = (*registry)@;
        let after = (*final(registry))@;
        let by_handle = crate::app::peers::has_handle(handle@);
        let by_target = crate::app::peers::has_target(target@);
        crate::search::lemma_first(before, by_handle, 0);
        crate::search::lemma_first(before, by_target, 0);
        assert forall|j: int|
            0 <= j < before.len() && !crate::search::any(before, by_handle) implies (
        #[trigger] before[j]).handle != handle@ by {
            assert(!by_handle(before[j]));
        }
        assert forall|j: int|
            0 <= j < before.len() && !crate::search::any(
                before,
                by_target,
            ) implies !crate::app::peers::same_target((#[trigger] before[j]).target, target@) by {
            assert(!by_target(before[j]));
        }
        if r is Ok {
            assert(after.drop_last() =~= before);
        }
    }
}

/// What a refused peer is told.
pub proof fn law_a_refused_peer_is_told_why(error: AddPeerError, r: String)
    requires
        call_ensures(AddPeerError::message, (&error,), r),
    ensures
        error is DuplicateHandle ==> r@ == "a peer with that name already exists"@,
        error matches AddPeerError::DuplicateTarget { handle } ==> r@
            == "that target is already configured as peer '"@ + handle@ + "'"@,
{
}

/// A peer that is removed is handed back, the others keep their order, and there is
/// nothing to remove where no peer has the handle.
pub proof fn law_a_removed_peer_is_gone(handle: &PeerHandle, q: int)
    ensures
        forall|registry: &mut PeerRegistryState, r: Option<PeerState>| #[trigger]
            call_ensures(PeerRegistryState::remove, (registry, handle), r) ==> {
                let before = (*registry)@;
                let after = (*final(registry))@;
                &&& r is None == is_no_peer(before, handle@)
                &&& r is None ==> after == before
                &&& is_peer(before, q, handle@) ==> {
                    &&& r is Some && r->0@ == before[q]
                    &&& after.len() == before.len() - 1
                    &&& forall|j: int| 0 <= j < q ==> #[trigger] after[j] == before[j]
                    &&& forall|j: int|
                        q <= j < after.len() ==> #[trigger] after[j] == before[j + 1]
                }
            },
{
    assert forall|registry: &mut PeerRegistryState, r: Option<PeerState>| #[trigger]
        call_ensures(PeerRegistryState::remove, (registry, handle), r) implies {
        let before = (*registry)@;
        let after = (*final(registry))@;
        &&& r is None == is_no_peer(before, handle@)
        &&& r is None ==> after == before
        &&& is_peer(before, q, handle@) ==> {
            &&& r is Some && r->0@ == before[q]
            &&& after.len() == before.len() - 1
            &&& forall|j: int| 0 <= j < q ==> #[trigger] after[j] == before[j]
            &&& forall|j: int| q <= j < after.len() ==> #[trigger] after[j] == before[j + 1]
        }
    } by {
        lemma_peer((*registry)@, q, handle@);
    }
}

/// A peer is looked up by its handle.
pub proof fn law_a_peer_is_found_by_its_handle(
    registry: PeerRegistryState,
    handle: &PeerHandle,
    r: Option<&PeerState>,
    q: int,
)
    requires
        call_ensures(PeerRegistryState::get, (&registry, handle), r),
    ensures
        is_peer(registry@, q, handle@) ==> r is Some && r->0@ == registry@[q],
        r is None == is_no_peer(registry@, handle@),
{
    lemma_peer(registry@, q, handle@);
}

/// A peer is looked up by the instance it identified itself as.
pub proof fn law_a_peer_is_found_by_its_instance(
    registry: PeerRegistryState,
    id: &str,
    r: Option<&PeerState>,
)
    requires
        call_ensures(PeerRegistryState::by_instance_id, (&registry, id), r),
    ensures
        r is Some ==> r->0@.identity is Some && r->0@.identity->0.instance_id == id@
            && registry@.contains(r->0@),
        r is None ==> forall|j: int|
            0 <= j < registry@.len() && (#[trigger] registry@[j]).identity is Some
                ==> registry@[j].identity->0.instance_id != id@,
{
    let p = crate::app::peers::has_instance_id(id@);
    crate::search::lemma_first(registry@, p, 0);
    assert forall|j: int|
        r is None && 0 <= j < registry@.len() && (
        #[trigger] registry@[j]).identity is Some implies registry@[j].identity->0.instance_id
        != id@ by {
        assert(!p(registry@[j]));
    }
}

/// A connection's new state is recorded with its peer and nowhere else, and is told
/// as a change only when it is one.
pub proof fn law_a_connection_state_is_recorded(
    handle: &PeerHandle,
    connection: PeerConnectionState,
    q: int,
)
    ensures
        forall|registry: &mut PeerRegistryState, r: bool| #[trigger]
            call_ensures(PeerRegistryState::set_connection, (registry, handle, connection), r) ==> {
                let before = (*registry)@;
                let after = (*final(registry))@;
                &&& is_no_peer(before, handle@) ==> !r && after == before
                &&& is_peer(before, q, handle@) ==> {
                    &&& after[q].connection == connection@
                    &&& r == (before[q].connection != connection@)
                    &&& only_peer_moved(before, after, q)
                    &&& after[q].identity == before[q].identity
                    &&& after[q].workspaces == before[q].workspaces
                    &&& after[q].transport_socket == before[q].transport_socket
                    &&& after[q].pending_pane_cleanups == before[q].pending_pane_cleanups
                }
            },
{
    assert forall|registry: &mut PeerRegistryState, r: bool| #[trigger]
        call_ensures(PeerRegistryState::set_connection, (registry, handle, connection), r) implies {
        let before = (*registry)@;
        let after = (*final(registry))@;
        &&& is_no_peer(before, handle@) ==> !r && after == before
        &&& is_peer(before, q, handle@) ==> {
            &&& after[q].connection == connection@
            &&& r == (before[q].connection != connection@)
            &&& only_peer_moved(before, after, q)
            &&& after[q].identity == before[q].identity
            &&& after[q].workspaces == before[q].workspaces
            &&& after[q].transport_socket == before[q].transport_socket
            &&& after[q].pending_pane_cleanups == before[q].pending_pane_cleanups
        }
    } by {
        lemma_peer((*registry)@, q, handle@);
    }
}

/// The socket a bridge came up on is recorded with its peer and nowhere else.
pub proof fn law_a_bridge_socket_is_recorded(handle: &PeerHandle, socket: String, q: int)
    ensures
        forall|registry: &mut PeerRegistryState, r: bool| #[trigger]
            call_ensures(PeerRegistryState::set_transport_socket, (registry, handle, socket), r)
                ==> {
                let before = (*registry)@;
                let after = (*final(registry))@;
                &&& is_no_peer(before, handle@) ==> !r && after == before
                &&& is_peer(before, q, handle@) ==> {
                    &&& only_peer_moved(before, after, q)
                    &&& before[q].transport_socket is None ==> r
                    &&& r ==> after[q].transport_socket == Some(socket@)
                    &&& !r ==> after == before && crate::paths::is_same_path(
                        before[q].transport_socket->0,
                        socket@,
                    )
                    &&& after[q].connection == before[q].connection
                    &&& after[q].identity == before[q].identity
                    &&& after[q].workspaces == before[q].workspaces
                }
            },
{
    assert forall|registry: &mut PeerRegistryState, r: bool| #[trigger]
        call_ensures(
            PeerRegistryState::set_transport_socket,
            (registry, handle, socket),
            r,
        ) implies {
        let before = (*registry)@;
        let after = (*final(registry))@;
        &&& is_no_peer(before, handle@) ==> !r && after == before
        &&& is_peer(before, q, handle@) ==> {
            &&& only_peer_moved(before, after, q)
            &&& before[q].transport_socket is None ==> r
            &&& r ==> after[q].transport_socket == Some(socket@)
            &&& !r ==> after == before && crate::paths::is_same_path(
                before[q].transport_socket->0,
                socket@,
            )
            &&& after[q].connection == before[q].connection
            &&& after[q].identity == before[q].identity
            &&& after[q].workspaces == before[q].workspaces
        }
    } by {
        lemma_peer((*registry)@, q, handle@);
    }
}

/// An identity that no other peer holds is recorded with its peer, and the facts
/// learned from another server go with that server. One that is held already is
/// refused, naming the holder.
pub open spec fn identity_lands(
    before: Seq<PeerView>,
    after: Seq<PeerView>,
    r: SetIdentity,
    handle: Seq<char>,
    identity: PeerIdentity,
    q: int,
) -> bool {
    let held = exists|j: int|
        0 <= j < before.len() && (#[trigger] before[j]).handle != handle
            && before[j].identity is Some && before[j].identity->0.instance_id
            == identity.instance_id@;
    &&& r is Duplicate == held
    &&& r matches SetIdentity::Duplicate { held_by } ==> after == before && exists|j: int|
        0 <= j < before.len() && (#[trigger] before[j]).handle == held_by@ && held_by@ != handle
            && before[j].identity is Some && before[j].identity->0.instance_id
            == identity.instance_id@
    &&& r is Unchanged ==> after == before
    &&& is_no_peer(before, handle) ==> r !is Recorded
    &&& is_peer(before, q, handle) && !held ==> {
        &&& r is Unchanged == (before[q].identity == Some(identity@))
        &&& only_peer_moved(before, after, q)
        &&& after[q].identity == Some(identity@)
        &&& after[q].connection == before[q].connection
        &&& after[q].transport_socket == before[q].transport_socket
        &&& after[q].pending_pane_cleanups == before[q].pending_pane_cleanups
        &&& r matches SetIdentity::Recorded { replaced } ==> {
            &&& replaced is Some == (before[q].identity is Some
                && before[q].identity->0.instance_id != identity.instance_id@)
            &&& replaced is Some ==> replaced->0@ == before[q].identity->0.instance_id
                && after[q].workspaces.len() == 0
            &&& replaced is None ==> after[q].workspaces == before[q].workspaces
        }
    }
}

/// A peer's identity is recorded as [`identity_lands`] says.
pub proof fn law_an_identity_is_recorded(handle: &PeerHandle, identity: PeerIdentity, q: int)
    ensures
        forall|registry: &mut PeerRegistryState, r: SetIdentity| #[trigger]
            call_ensures(PeerRegistryState::set_identity, (registry, handle, identity), r)
                ==> identity_lands(
                (*registry)@,
                (*final(registry))@,
                r,
                handle@,
                identity,
                q,
            ),
{
    assert forall|registry: &mut PeerRegistryState, r: SetIdentity| #[trigger]
        call_ensures(
            PeerRegistryState::set_identity,
            (registry, handle, identity),
            r,
        ) implies identity_lands(
        (*registry)@,
        (*final(registry))@,
        r,
        handle@,
        identity,
        q,
    ) by {
        let before = (*registry)@;
        let other = crate::app::peers::other_has_instance(handle@, identity.instance_id@);
        lemma_peer(before, q, handle@);
        crate::search::lemma_any(before, other);
        crate::search::lemma_first(before, other, 0);
        assert forall|j: int|
            0 <= j < before.len() && (#[trigger] before[j]).handle != handle@
                && before[j].identity is Some && before[j].identity->0.instance_id
                == identity.instance_id@ implies crate::search::any(before, other) by {
            assert(other(before[j]));
        }
    }
}

/// What a peer reports of its workspaces is stored with its peer, each id behind the
/// peer's own instance id and a colon; a peer that has not identified itself stores
/// nothing.
pub proof fn law_workspaces_are_stored_under_their_instance(
    handle: &PeerHandle,
    workspaces: Vec<WorkspaceInfo>,
    q: int,
)
    ensures
        forall|registry: &mut PeerRegistryState, r: bool| #[trigger]
            call_ensures(PeerRegistryState::set_workspaces, (registry, handle, workspaces), r)
                ==> workspaces_land(
                (*registry)@,
                (*final(registry))@,
                r,
                handle@,
                workspaces@,
                q,
            ),
{
    assert forall|registry: &mut PeerRegistryState, r: bool| #[trigger]
        call_ensures(
            PeerRegistryState::set_workspaces,
            (registry, handle, workspaces),
            r,
        ) implies workspaces_land(
        (*registry)@,
        (*final(registry))@,
        r,
        handle@,
        workspaces@,
        q,
    ) by {
        lemma_peer((*registry)@, q, handle@);
    }
}

/// The reported workspaces are what the peer is known to have afterwards.
pub open spec fn workspaces_land(
    before: Seq<PeerView>,
    after: Seq<PeerView>,
    r: bool,
    handle: Seq<char>,
    workspaces: Seq<WorkspaceInfo>,
    q: int,
) -> bool {
    &&& is_no_peer(before, handle) ==> !r && after == before
    &&& is_peer(before, q, handle) && before[q].identity is None ==> !r && after == before
    &&& is_peer(before, q, handle) && before[q].identity is Some ==> {
        let id = before[q].identity->0.instance_id;
        &&& r == (after != before)
        &&& only_peer_moved(before, after, q)
        &&& after[q].identity == before[q].identity
        &&& after[q].connection == before[q].connection
        &&& after[q].workspaces.len() == workspaces.len()
        &&& forall|i: int|
            0 <= i < workspaces.len() ==> {
                let stored = #[trigger] after[q].workspaces[i];
                &&& stored.workspace_id == id + seq![':'] + workspaces[i].workspace_id@
                &&& stored.active_tab_id == id + seq![':'] + workspaces[i].active_tab_id@
                &&& stored.label == workspaces[i].label@
                &&& stored.number == workspaces[i].number
                &&& stored.focused == workspaces[i].focused
            }
    }
}

/// A pane that could not be closed is retained with its peer once, behind the others,
/// and the oldest makes room once there are as many as are kept.
pub proof fn law_a_failed_cleanup_is_retained(
    handle: &PeerHandle,
    pending: PendingPaneCleanup,
    q: int,
)
    ensures
        forall|registry: &mut PeerRegistryState, r: bool| #[trigger]
            call_ensures(
                PeerRegistryState::record_failed_pane_cleanup,
                (registry, handle, pending),
                r,
            ) ==> cleanup_lands((*registry)@, (*final(registry))@, r, handle@, pending, q),
{
    assert forall|registry: &mut PeerRegistryState, r: bool| #[trigger]
        call_ensures(
            PeerRegistryState::record_failed_pane_cleanup,
            (registry, handle, pending),
            r,
        ) implies cleanup_lands(
        (*registry)@,
        (*final(registry))@,
        r,
        handle@,
        pending,
        q,
    ) by {
        let before = (*registry)@;
        let after = (*final(registry))@;
        lemma_peer(before, q, handle@);
        if is_peer(before, q, handle@) {
            let held = before[q].pending_pane_cleanups;
            let p = crate::app::peers::cleanup_for(pending.peer_pane_id@);
            crate::search::lemma_any(held, p);
            assert forall|i: int|
                0 <= i < held.len() && (#[trigger] held[i]).peer_pane_id
                    == pending.peer_pane_id@ implies crate::search::any(held, p) by {
                assert(p(held[i]));
            }
            if held.len() < 64 && after[q].pending_pane_cleanups.len() == held.len() + 1 {
                assert(after[q].pending_pane_cleanups.drop_last() =~= held);
            }
            if held.len() == 64 && after[q].pending_pane_cleanups != held {
                assert(after[q].pending_pane_cleanups.drop_last() =~= held.skip(1));
            }
        }
    }
}

/// The cleanup is among those that the peer retains afterwards.
pub open spec fn cleanup_lands(
    before: Seq<PeerView>,
    after: Seq<PeerView>,
    r: bool,
    handle: Seq<char>,
    pending: PendingPaneCleanup,
    q: int,
) -> bool {
    &&& is_no_peer(before, handle) ==> !r && after == before
    &&& is_peer(before, q, handle) ==> {
        let held = before[q].pending_pane_cleanups;
        let kept = after[q].pending_pane_cleanups;
        let known = exists|i: int|
            0 <= i < held.len() && (#[trigger] held[i]).peer_pane_id == pending.peer_pane_id@;
        &&& r
        &&& only_peer_moved(before, after, q)
        &&& after[q].connection == before[q].connection
        &&& after[q].identity == before[q].identity
        &&& after[q].workspaces == before[q].workspaces
        &&& known ==> kept == held
        &&& !known ==> kept.last() == pending@
        &&& !known && held.len() < 64 ==> kept.drop_last() == held
        &&& !known && held.len() == 64 ==> kept.len() == 64 && kept.drop_last() == held.skip(1)
    }
}

/// The cleanups that may be retried are those of the server that answers, in their
/// order; the others stay.
pub proof fn law_cleanups_are_taken_for_their_server(handle: &PeerHandle, id: &str, q: int)
    ensures
        forall|registry: &mut PeerRegistryState, r: Vec<PendingPaneCleanup>| #[trigger]
            call_ensures(
                PeerRegistryState::take_retryable_pane_cleanups,
                (registry, handle, id),
                r,
            ) ==> {
                let before = (*registry)@;
                let after = (*final(registry))@;
                &&& is_no_peer(before, handle@) ==> r@.len() == 0 && after == before
                &&& is_peer(before, q, handle@) ==> {
                    let held = before[q].pending_pane_cleanups;
                    let kept = after[q].pending_pane_cleanups;
                    &&& only_peer_moved(before, after, q)
                    &&& r@.len() + kept.len() == held.len()
                    &&& forall|i: int|
                        0 <= i < r@.len() ==> crate::text::opt_view(
                            (#[trigger] r@[i]).expected_instance,
                        ) == Some(id@)
                    &&& forall|i: int|
                        0 <= i < kept.len() ==> (#[trigger] kept[i]).expected_instance != Some(id@)
                    &&& after[q].connection == before[q].connection
                    &&& after[q].identity == before[q].identity
                    &&& after[q].workspaces == before[q].workspaces
                }
            },
{
    assert forall|registry: &mut PeerRegistryState, r: Vec<PendingPaneCleanup>| #[trigger]
        call_ensures(
            PeerRegistryState::take_retryable_pane_cleanups,
            (registry, handle, id),
            r,
        ) implies {
        let before = (*registry)@;
        let after = (*final(registry))@;
        &&& is_no_peer(before, handle@) ==> r@.len() == 0 && after == before
        &&& is_peer(before, q, handle@) ==> {
            let held = before[q].pending_pane_cleanups;
            let kept = after[q].pending_pane_cleanups;
            &&& only_peer_moved(before, after, q)
            &&& r@.len() + kept.len() == held.len()
            &&& forall|i: int|
                0 <= i < r@.len() ==> crate::text::opt_view((#[trigger] r@[i]).expected_instance)
                    == Some(id@)
            &&& forall|i: int|
                0 <= i < kept.len() ==> (#[trigger] kept[i]).expected_instance != Some(id@)
            &&& after[q].connection == before[q].connection
            &&& after[q].identity == before[q].identity
            &&& after[q].workspaces == before[q].workspaces
        }
    } by {
        let before = (*registry)@;
        lemma_peer(before, q, handle@);
        if is_peer(before, q, handle@) {
            let held = before[q].pending_pane_cleanups;
            let taken = held.filter(crate::app::peers::cleanup_expects(id@));
            crate::app::peers::law_cleanups_go_back_to_their_own_server(held, id@);
            assert(crate::app::peers::cleanups_view(r@).len() == r@.len());
            assert forall|i: int| 0 <= i < r@.len() implies crate::text::opt_view(
                (#[trigger] r@[i]).expected_instance,
            ) == Some(id@) by {
                assert(crate::app::peers::cleanups_view(r@)[i] == r@[i]@);
                assert(taken[i].expected_instance == Some(id@));
            }
        }
    }
}

/// A request to add a peer is refused with the reason: no name, a name that is taken,
/// a target that is taken. Otherwise the peer is added under the trimmed name, and
/// the session is to be saved.
pub open spec fn peer_is_added(
    before: App,
    after: App,
    r: Result<AddedPeer, ErrorBody>,
    wanted: PeerAddParams,
) -> bool {
    let name = crate::text::trimmed(wanted.name@);
    let peers = before.state.peers@;
    let taken = exists|j: int|
        0 <= j < peers.len() && crate::app::peers::same_target(
            (#[trigger] peers[j]).target,
            wanted.target@,
        );
    &&& r is Ok == (name.len() > 0 && is_no_peer(peers, name) && !taken)
    &&& r matches Err(error) ==> {
        &&& after.state.peers@ == peers
        &&& after.state.session_dirty == before.state.session_dirty
        &&& name.len() == 0 ==> error@ == ("invalid_request"@, "peer name must not be empty"@)
        &&& name.len() > 0 ==> error@.0 == "already_exists"@
        &&& name.len() > 0 && !is_no_peer(peers, name) ==> error@.1
            == "a peer with that name already exists"@
    }
    &&& r matches Ok(added) ==> {
        &&& added.name@ == name
        &&& after.state.session_dirty
        &&& after.state.peers@.len() == peers.len() + 1
        &&& after.state.peers@.drop_last() == peers
        &&& after.state.peers@.last().handle == name
        &&& after.state.peers@.last().target == wanted.target@
        &&& nothing_learned(after.state.peers@.last())
    }
    &&& after.state.workspaces == before.state.workspaces
    &&& after.state.active == before.state.active
    &&& after.terminal_runtimes == before.terminal_runtimes
}

/// A peer is added as [`peer_is_added`] says.
pub proof fn law_a_request_adds_its_peer(wanted: PeerAddParams)
    ensures
        forall|app: &mut App, r: Result<AddedPeer, ErrorBody>| #[trigger]
            call_ensures(App::handle_peer_add, (app, wanted), r) ==> peer_is_added(
                *app,
                *final(app),
                r,
                wanted,
            ),
{
    assert forall|app: &mut App, r: Result<AddedPeer, ErrorBody>| #[trigger]
        call_ensures(App::handle_peer_add, (app, wanted), r) implies peer_is_added(
        *app,
        *final(app),
        r,
        wanted,
    ) by {
        let name = crate::text::trimmed(wanted.name@);
        let before = (*app).state.peers@;
        let after = (*final(app)).state.peers@;
        let by_handle = crate::app::peers::has_handle(name);
        let by_target = crate::app::peers::has_target(wanted.target@);
        crate::search::lemma_first(before, by_handle, 0);
        crate::search::lemma_first(before, by_target, 0);
        assert forall|j: int|
            0 <= j < before.len() && !crate::search::any(before, by_handle) implies (
        #[trigger] before[j]).handle != name by {
            assert(!by_handle(before[j]));
        }
        assert forall|j: int|
            0 <= j < before.len() && crate::app::peers::same_target(
                (#[trigger] before[j]).target,
                wanted.target@,
            ) implies crate::search::any(before, by_target) by {
            assert(by_target(before[j]));
        }
        if r is Ok {
            assert(after.drop_last() =~= before);
        }
    }
}

/// The history that was read replaces what was known of it; a failed read changes
/// nothing.
pub proof fn law_history_is_kept_on_failure(recorded: Result<Vec<PeerHistoryEntry>, String>)
    ensures
        forall|app: &mut App| #[trigger]
            call_ensures(App::note_peer_history, (app, recorded), ()) ==> {
                &&& recorded matches Ok(entries) ==> (*final(app)).state.peer_history == entries
                &&& recorded is Err ==> *final(app) == *app
            },
{
}

} // verus!
