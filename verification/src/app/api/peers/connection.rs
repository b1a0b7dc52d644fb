//! A peer's control channel comes, goes, or turns out to lead to another server.

use vstd::prelude::*;

use crate::app::api::peers::lifecycle::PaneClose;
use crate::app::peers::{PeerConnectionState, PeerHandle, PeerIdentity, SetIdentity};
use crate::app::state::App;
use crate::text::cat3;

verus! {

/// What a change of a peer's control channel led to.
#[derive(Debug, PartialEq, Eq)]
pub struct PeerChanged {
    /// What recording the identity did, when one was reported.
    pub identified: Option<SetIdentity>,
    /// Whether the peer's connection is in another state than before.
    pub moved: bool,
    /// Panes to close on the peer that could not be closed while it was away.
    pub closes: Vec<PaneClose>,
}

/// The contents of an identity, if there is one.
pub open spec fn reported(identity: Option<PeerIdentity>) -> Option<
    crate::app::peers::IdentityView,
> {
    match identity {
        Some(identity) => Some(identity@),
        None => None,
    }
}

/// Only what is known of the peers changed.
pub open spec fn only_peers(before: App, after: App) -> bool {
    after == (App {
        state: crate::app::state::AppState { peers: after.state.peers, ..before.state },
        ..before
    })
}

/// What the peer reported about itself was recorded. Where another server answers
/// than before, the views attached to the old one were abandoned.
pub open spec fn identifies(
    before: App,
    after: App,
    r: SetIdentity,
    handle: Seq<char>,
    identity: crate::app::peers::IdentityView,
) -> bool {
    &&& crate::app::peers::records_identity(
        before.state.peers@,
        after.state.peers@,
        r,
        handle,
        identity,
    )
    &&& after == (App {
        state: crate::app::state::AppState { peers: after.state.peers, ..before.state },
        terminal_runtimes: after.terminal_runtimes,
        ..before
    })
    &&& match r {
        SetIdentity::Recorded { replaced: Some(_) } => {
            &&& after.terminal_runtimes@.len() == before.terminal_runtimes@.len()
            &&& forall|i: int|
                0 <= i < before.terminal_runtimes@.len() ==> super::views::is_abandoned(
                    before.terminal_runtimes@[i],
                    #[trigger] after.terminal_runtimes@[i],
                    handle,
                    identity.instance_id,
                )
        },
        _ => after.terminal_runtimes == before.terminal_runtimes,
    }
}

/// What came of the identity a change reported, if it reported one.
pub open spec fn hears(
    before: App,
    after: App,
    r: Option<SetIdentity>,
    handle: Seq<char>,
    identity: Option<crate::app::peers::IdentityView>,
) -> bool {
    match (r, identity) {
        (Some(r), Some(identity)) => identifies(before, after, r, handle, identity),
        (None, None) => after == before,
        _ => false,
    }
}

/// The peer's connection is in this state.
pub open spec fn moves(
    before: App,
    after: App,
    moved: bool,
    handle: Seq<char>,
    connection: crate::app::peers::ConnectionView,
) -> bool {
    &&& crate::app::peers::records_connection(
        before.state.peers@,
        after.state.peers@,
        moved,
        handle,
        connection,
    )
    &&& only_peers(before, after)
}

/// The waiting views of the peer may try again.
pub open spec fn wakes(before: App, after: App, handle: Seq<char>) -> bool {
    &&& super::views::only_runtimes(before, after)
    &&& forall|i: int|
        0 <= i < before.terminal_runtimes@.len() ==> (#[trigger] after.terminal_runtimes@[i])
            == super::views::retried(before.terminal_runtimes@[i], handle)
}

/// The peer is back: its views may try again at once, and so may the closes that
/// failed while it was away.
pub open spec fn comes_back(
    before: App,
    after: App,
    closes: Seq<PaneClose>,
    handle: Seq<char>,
) -> bool {
    exists|awake: App| #[trigger]
        wakes(before, awake, handle) && super::lifecycle::takes_cleanups(
            awake,
            after,
            closes,
            handle,
        )
}

/// What follows once the connection is in its new state.
pub open spec fn follows(
    there: App,
    after: App,
    r: PeerChanged,
    handle: Seq<char>,
    connection: crate::app::peers::ConnectionView,
) -> bool {
    if r.moved && connection is Connected {
        comes_back(there, after, r.closes@, handle)
    } else {
        after == there && r.closes@.len() == 0
    }
}

/// Why a peer is refused that leads to the server of another one.
pub open spec fn twin_message(held_by: Seq<char>) -> Seq<char> {
    "same server as peer '"@ + held_by + "'"@
}

/// What follows once the identity is recorded.
pub open spec fn settles(
    known: App,
    after: App,
    r: PeerChanged,
    handle: Seq<char>,
    connection: crate::app::peers::ConnectionView,
) -> bool {
    match r.identified {
        Some(SetIdentity::Duplicate { held_by }) => {
            &&& moves(
                known,
                after,
                r.moved,
                handle,
                crate::app::peers::ConnectionView::Error { message: twin_message(held_by@) },
            )
            &&& r.closes@.len() == 0
        },
        _ => exists|there: App| #[trigger]
            moves(known, there, r.moved, handle, connection) && follows(
                there,
                after,
                r,
                handle,
                connection,
            ),
    }
}

/// What a change of a peer's control channel comes to.
pub open spec fn changes_peer(
    before: App,
    after: App,
    r: PeerChanged,
    handle: Seq<char>,
    connection: crate::app::peers::ConnectionView,
    identity: Option<crate::app::peers::IdentityView>,
) -> bool {
    exists|known: App| #[trigger]
        hears(before, known, r.identified, handle, identity) && settles(
            known,
            after,
            r,
            handle,
            connection,
        )
}

impl App {
    /// Takes note of what a peer's control channel reported.
    ///
    /// A different server behind the same target invalidates every view attached to
    /// the old one. The same server reached under two handles is refused, which is
    /// an error no retry can fix: a peer that counted as connected without an
    /// identity of its own would contradict the registry. A peer that came back has
    /// its views and its failed closes tried at once.
    pub fn handle_peer_connection_changed(
        &mut self,
        handle: &PeerHandle,
        connection: PeerConnectionState,
        identity: Option<PeerIdentity>,
    ) -> (r: PeerChanged)
        ensures
            changes_peer(
                *old(self),
                *final(self),
                r,
                handle@,
                connection@,
                reported(identity),
            ),
            crate::app::peers::consistent(old(self).state.peers@)
                ==> crate::app::peers::consistent(final(self).state.peers@),
    {
        let identified = match identity {
            Some(identity) => {
                let instance_id = identity.instance_id.clone();
                let set = self.state.peers.set_identity(handle, identity);
                if let SetIdentity::Recorded { replaced: Some(_) } = &set {
                    self.abandon_views_of_replaced_peer(handle, instance_id.as_str());
                }
                Some(set)
            },
            None => None,
        };
        let ghost known = *self;
        assert(hears(*old(self), known, identified, handle@, reported(identity)));
        if let Some(SetIdentity::Duplicate { held_by }) = &identified {
            let message = cat3("same server as peer '", held_by.as_str(), "'");
            let moved = self.state.peers.set_connection(
                handle,
                PeerConnectionState::Error { message },
            );
            let r = PeerChanged { identified, moved, closes: Vec::new() };
            assert(settles(known, *self, r, handle@, connection@));
            return r;
        }
        let connected = connection.is_connected();
        let moved = self.state.peers.set_connection(handle, connection);
        let ghost there = *self;
        assert(moves(known, there, moved, handle@, connection@));
        let mut closes: Vec<PaneClose> = Vec::new();
        if moved && connected {
            self.retry_peer_views_now(handle);
            let ghost awake = *self;
            assert(wakes(there, awake, handle@));
            closes = self.retry_pending_pane_cleanups(handle);
            assert(comes_back(there, *self, closes@, handle@));
        }
        let r = PeerChanged { identified, moved, closes };
        assert(moves(known, there, r.moved, handle@, connection@));
        assert(follows(there, *self, r, handle@, connection@));
        assert(settles(known, *self, r, handle@, connection@));
        r
    }
}

/// A registry without contradictions stays one: a peer that identified itself, now
/// or before, is the only one of its instance, and no peer counts as connected
/// without an identity.
pub proof fn law_a_connected_peer_is_known(
    before: App,
    after: App,
    r: PeerChanged,
    handle: Seq<char>,
    connection: crate::app::peers::ConnectionView,
    identity: Option<crate::app::peers::IdentityView>,
)
    requires
        changes_peer(before, after, r, handle, connection, identity),
        crate::app::peers::identities_sound(before.state.peers@),
        connection is Connected ==> identity is Some || (match crate::search::find(
            before.state.peers@,
            crate::app::peers::has_handle(handle),
        ) {
            Some(peer) => peer.identity is Some,
            None => true,
        }),
    ensures
        crate::app::peers::identities_sound(after.state.peers@),
{
    let known = choose|known: App| #[trigger]
        hears(before, known, r.identified, handle, identity) && settles(
            known,
            after,
            r,
            handle,
            connection,
        );
    let peers = before.state.peers@;
    let at = crate::app::peers::position(peers, handle);
    crate::search::lemma_first(peers, crate::app::peers::has_handle(handle), 0);
    let heard = known.state.peers@;
    crate::search::lemma_first(heard, crate::app::peers::has_handle(handle), 0);
    if identity is Some && r.identified->0 is Recorded {
        let other = crate::app::peers::other_has_instance(handle, identity->0.instance_id);
        crate::search::lemma_first(peers, other, 0);
        assert forall|j: int| 0 <= j < peers.len() && j != at implies (
        #[trigger] peers[j]).instance_id() != Some(identity->0.instance_id) by {
            assert(!other(peers[j]));
        }
    }
    assert(crate::app::peers::identities_sound(heard));
    if r.identified matches Some(SetIdentity::Duplicate { .. }) {
        crate::search::lemma_first(after.state.peers@, crate::app::peers::has_handle(handle), 0);
    } else {
        let there = choose|there: App| #[trigger]
            moves(known, there, r.moved, handle, connection) && follows(
                there,
                after,
                r,
                handle,
                connection,
            );
        let moved = there.state.peers@;
        crate::search::lemma_first(moved, crate::app::peers::has_handle(handle), 0);
        assert(crate::app::peers::identities_sound(moved));
        if r.moved && connection is Connected {
            let awake = choose|awake: App| #[trigger]
                wakes(there, awake, handle) && super::lifecycle::takes_cleanups(
                    awake,
                    after,
                    r.closes@,
                    handle,
                );
            assert(awake.state.peers@ == moved);
        }
    }
}

} // verus!
