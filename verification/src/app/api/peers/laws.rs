//! What holds of peers and their views as a whole.

use vstd::prelude::*;

use crate::app::api::peers::forward::Started;
use crate::app::api::peers::lifecycle::{Discarded, Placed};
use crate::app::api::peers::registry::RemovedPeer;
use crate::app::api::peers::resolve::ExistingPeerView;
use crate::app::layout::FreshWorkspace;
use crate::app::state::{App, PaneId, RuntimeEntry};
use crate::events::{PeerViewOpenResult, PeerViewReconnectResult, PeerWorktreeAnswer};
use crate::terminal::{RemoteView, TerminalRuntime, TerminalSize};

verus! {

/// A view is a view onto one workspace: an id that begins like another's is not
/// mistaken for it.
pub proof fn law_views_are_of_one_workspace(
    entry: RuntimeEntry,
    peer: Seq<char>,
    a: Seq<char>,
    b: Seq<char>,
)
    requires
        super::resolve::views_workspace(peer, a)(entry),
        super::resolve::views_workspace(peer, b)(entry),
        !a.contains(':'),
        !b.contains(':'),
    ensures
        a == b,
{
    reveal_strlit(":");
    let target = super::views::remote(entry)->0.target@;
    let x = a + ":"@;
    let y = b + ":"@;
    if crate::text::has_prefix(target, x) {
        assert(target.take(x.len() as int)[a.len() as int] == ':');
        assert(target[a.len() as int] == ':');
        assert(forall|i: int| 0 <= i < a.len() ==> target.take(x.len() as int)[i] == a[i]);
    }
    if crate::text::has_prefix(target, y) {
        assert(target.take(y.len() as int)[b.len() as int] == ':');
        assert(target[b.len() as int] == ':');
        assert(forall|i: int| 0 <= i < b.len() ==> target.take(y.len() as int)[i] == b[i]);
    }
    if crate::text::has_prefix(target, x) && crate::text::has_prefix(target, y) {
        if a.len() < b.len() {
            assert(b[a.len() as int] == ':');
        } else if b.len() < a.len() {
            assert(a[b.len() as int] == ':');
        } else {
            assert forall|i: int| 0 <= i < a.len() implies a[i] == b[i] by {
                assert(target.take(x.len() as int)[i] == target.take(y.len() as int)[i]);
            }
            assert(a =~= b);
        }
    } else if crate::text::has_prefix(target, x) {
        assert(b[a.len() as int] == ':');
    } else if crate::text::has_prefix(target, y) {
        assert(a[b.len() as int] == ':');
    }
}

/// A workspace that is open already is handed back and not opened again, whatever
/// state its peer is in: nothing is dialed, nothing is claimed, and no view is
/// made.
pub proof fn law_an_open_workspace_is_not_opened_again(
    before: App,
    after: App,
    started: Started,
    target: Seq<char>,
    name: Option<Seq<char>>,
    label: Option<String>,
    made: bool,
    focus: bool,
    takeover: bool,
    answer: Option<PeerWorktreeAnswer>,
)
    requires
        super::forward::opens_workspace(
            before,
            after,
            started,
            target,
            name,
            label,
            made,
            focus,
            takeover,
            answer,
        ),
        super::resolve::target_owner(before.state.peers@, target, name) matches Ok(owner)
            && super::resolve::already_open(
            before,
            owner.0,
            owner.1,
            super::resolve::is_enumerated(before.state.peers@, owner.0, owner.1),
        ) is Some,
    ensures
        !(started is Deferred),
        after.terminal_runtimes == before.terminal_runtimes,
        after.peer_view_opens_in_flight == before.peer_view_opens_in_flight,
        after.state.workspaces == before.state.workspaces,
{
}

/// A target that a view is being opened onto is not opened a second time: until
/// the first open has finished, another is refused.
pub proof fn law_a_target_is_opened_once_at_a_time(
    before: App,
    mid: App,
    after: App,
    first: Started,
    second: Started,
    handle: Seq<char>,
    local: Seq<char>,
    requested: (Seq<char>, Seq<char>),
    resolve: (bool, bool),
    size: (TerminalSize, TerminalSize),
    takeover: (bool, bool),
)
    requires
        super::forward::hands_out_open(
            before,
            mid,
            first,
            handle,
            requested.0,
            local,
            resolve.0,
            size.0,
            takeover.0,
        ),
        first is Deferred,
        super::forward::hands_out_open(
            mid,
            after,
            second,
            handle,
            requested.1,
            local,
            resolve.1,
            size.1,
            takeover.1,
        ),
    ensures
        second.refuses(super::forward::already_opening(handle, local)),
        after == mid,
{
    let claims = mid.peer_view_opens_in_flight@;
    crate::search::lemma_any(claims, super::forward::claim_is(handle, local));
    assert(super::forward::claim_is(handle, local)(claims[claims.len() - 1]));
    assert(mid.state.peers@ == before.state.peers@);
}

/// A finished open leaves no claim on its target behind, whatever came of it, and
/// leaves the claims on other targets alone.
pub proof fn law_a_finished_open_releases_its_claim(
    before: App,
    after: App,
    placed: Placed,
    finished: PeerViewOpenResult,
    fresh: FreshWorkspace,
)
    requires
        super::lifecycle::finishes_open(before, after, placed, finished, fresh),
    ensures
        !crate::search::any(
            after.peer_view_opens_in_flight@,
            super::forward::claim_is(finished.handle@, finished.started_target@),
        ),
        forall|peer: Seq<char>, target: Seq<char>|
            #![trigger super::forward::claim_is(peer, target)]
            !(peer == finished.handle@ && target == finished.started_target@)
                && crate::search::any(
                before.peer_view_opens_in_flight@,
                super::forward::claim_is(peer, target),
            ) ==> crate::search::any(
                after.peer_view_opens_in_flight@,
                super::forward::claim_is(peer, target),
            ),
{
    let idle = choose|idle: App| #[trigger]
        super::lifecycle::releases_claim(
            before,
            idle,
            finished.handle@,
            finished.started_target@,
        ) && super::lifecycle::places_view(idle, after, placed, finished, fresh);
    let held = before.peer_view_opens_in_flight@;
    let own = super::forward::claim_is(finished.handle@, finished.started_target@);
    let left = held.filter(crate::search::lacks(own));
    assert(after.peer_view_opens_in_flight@ == left);
    crate::search::lemma_first(left, own, 0);
    if crate::search::any(left, own) {
        let i = crate::search::first(left, own, 0);
        held.lemma_filter_pred(crate::search::lacks(own), i);
    }
    assert forall|peer: Seq<char>, target: Seq<char>|
        #![trigger super::forward::claim_is(peer, target)]
        !(peer == finished.handle@ && target == finished.started_target@) && crate::search::any(
            held,
            super::forward::claim_is(peer, target),
        ) implies crate::search::any(left, super::forward::claim_is(peer, target)) by {
        let other = super::forward::claim_is(peer, target);
        crate::search::lemma_first(held, other, 0);
        let i = crate::search::first(held, other, 0);
        held.lemma_filter_contains(crate::search::lacks(own), i);
        let k = choose|k: int| 0 <= k < left.len() && left[k] == held[i];
        crate::search::lemma_any(left, other);
        assert(other(left[k]));
    }
}

/// No two terminals are views onto the same target of the same peer.
pub open spec fn one_view_per_target(entries: Seq<RuntimeEntry>) -> bool {
    forall|i: int, j: int|
        0 <= i < j < entries.len() && super::views::remote(#[trigger] entries[i]) is Some
            && super::views::remote(#[trigger] entries[j]) is Some ==> !(super::views::remote(
            entries[i],
        )->0.peer@ == super::views::remote(entries[j])->0.peer@ && super::views::remote(
            entries[i],
        )->0.target@ == super::views::remote(entries[j])->0.target@)
}

proof fn lemma_runtime_set_keeps_one_view(
    entries: Seq<RuntimeEntry>,
    entry: RuntimeEntry,
    view: RemoteView,
)
    requires
        one_view_per_target(entries),
        entry.runtime == TerminalRuntime::Remote(view),
        !crate::search::any(entries, super::resolve::views_target(view.peer@, view.target@)),
    ensures
        one_view_per_target(crate::app::layout::runtime_set(entries, entry)),
{
    let p = super::resolve::views_target(view.peer@, view.target@);
    crate::search::lemma_first(entries, p, 0);
    let at = crate::app::state::runtime_at(entries, entry.terminal_id@);
    crate::search::lemma_first(entries, crate::app::state::of_terminal(entry.terminal_id@), 0);
    let after = crate::app::layout::runtime_set(entries, entry);
    assert forall|i: int, j: int|
        0 <= i < j < after.len() && super::views::remote(#[trigger] after[i]) is Some
            && super::views::remote(#[trigger] after[j]) is Some implies !(super::views::remote(
        after[i],
    )->0.peer@ == super::views::remote(after[j])->0.peer@ && super::views::remote(
        after[i],
    )->0.target@ == super::views::remote(after[j])->0.target@) by {
        let slot = if at < entries.len() {
            at
        } else {
            entries.len() as int
        };
        if i == slot {
            assert(after[j] == entries[j]);
            assert(!p(entries[j]));
        } else if j == slot {
            assert(after[i] == entries[i]);
            assert(!p(entries[i]));
        } else {
            assert(after[i] == entries[i] && after[j] == entries[j]);
        }
    }
}

/// However many opens of one target finish, one view is held onto it: a finished
/// open never adds a second.
pub proof fn law_one_view_is_held_per_target(
    before: App,
    after: App,
    placed: Placed,
    finished: PeerViewOpenResult,
    fresh: FreshWorkspace,
)
    requires
        super::lifecycle::finishes_open(before, after, placed, finished, fresh),
        one_view_per_target(before.terminal_runtimes@),
        finished.result matches Ok(opened) ==> opened.view.peer@ == finished.handle@
            && opened.view.target@ == opened.local_target@,
    ensures
        one_view_per_target(after.terminal_runtimes@),
        finished.result matches Ok(opened) ==> crate::search::any(
            before.terminal_runtimes@,
            super::resolve::views_target(finished.handle@, opened.local_target@),
        ) ==> after.terminal_runtimes == before.terminal_runtimes,
{
    let idle = choose|idle: App| #[trigger]
        super::lifecycle::releases_claim(
            before,
            idle,
            finished.handle@,
            finished.started_target@,
        ) && super::lifecycle::places_view(idle, after, placed, finished, fresh);
    if let Ok(opened) = finished.result {
        let p = super::resolve::views_target(finished.handle@, opened.local_target@);
        if !crate::search::any(idle.terminal_runtimes@, p) {
            let entry = RuntimeEntry {
                terminal_id: fresh.tab.pane.terminal_id,
                runtime: TerminalRuntime::Remote(opened.view),
            };
            lemma_runtime_set_keeps_one_view(idle.terminal_runtimes@, entry, opened.view);
        }
    }
}

/// A view that stopped retrying stays so: no sweep tries it again, and an attempt
/// that succeeds after all does not bring it back.
pub proof fn law_dead_views_stay_dead(
    peers: Seq<crate::app::peers::PeerView>,
    was: RuntimeEntry,
    now: RuntimeEntry,
    before: App,
    after: App,
    discarded: Option<RemoteView>,
    finished: PeerViewReconnectResult,
)
    requires
        super::views::remote(was) is Some,
        super::views::remote(was)->0.dead is Some,
        super::views::is_swept(peers, was, now),
        super::views::finishes_attempt(before, after, discarded, finished),
        ({
            let entries = before.terminal_runtimes@;
            let at = crate::app::state::runtime_at(entries, finished.terminal_id@);
            0 <= at < entries.len() && entries[at] == was
        }),
    ensures
        now == was,
        !super::views::is_tried(peers)(was),
        ({
            let at = crate::app::state::runtime_at(
                before.terminal_runtimes@,
                finished.terminal_id@,
            );
            &&& super::views::remote(after.terminal_runtimes@[at]) is Some
            &&& super::views::remote(after.terminal_runtimes@[at])->0.dead
                == super::views::remote(was)->0.dead
            &&& super::views::remote(after.terminal_runtimes@[at])->0.connected
                == super::views::remote(was)->0.connected
        }),
        finished.result is Ok ==> discarded == Some(finished.result->Ok_0),
{
}

/// A view that is put back is on the server the peer is now: one that reached
/// another is thrown away.
pub proof fn law_a_reconnected_view_is_on_the_peers_server(
    before: App,
    after: App,
    finished: PeerViewReconnectResult,
    discarded: Option<RemoteView>,
    id: Seq<char>,
)
    requires
        super::views::finishes_attempt(before, after, discarded, finished),
        finished.result is Ok,
        discarded is None,
        super::views::current_instance(
            before.state.peers@,
            (finished.result->Ok_0).peer@,
        ) == Some(id),
    ensures
        !(finished.result->Ok_0).on_other_server(id),
        ({
            let at = crate::app::state::runtime_at(
                before.terminal_runtimes@,
                finished.terminal_id@,
            );
            super::views::remote(after.terminal_runtimes@[at]) matches Some(view)
                && !view.on_other_server(id)
        }),
{
    crate::search::lemma_first(
        before.terminal_runtimes@,
        crate::app::state::of_terminal(finished.terminal_id@),
        0,
    );
}

/// A view on a server the peer no longer is claims nothing there: closing it
/// closes no pane of the server that replaced it, and it does not come back.
pub proof fn law_views_of_a_replaced_server_claim_nothing(
    was: RuntimeEntry,
    now: RuntimeEntry,
    peer: Seq<char>,
    instance_id: Seq<char>,
    peers: Seq<crate::app::peers::PeerView>,
    discarded: Discarded,
)
    requires
        super::views::is_abandoned(was, now, peer, instance_id),
        super::views::remote(was) is Some,
        super::views::remote(was)->0.peer@ == peer,
        super::views::remote(was)->0.on_other_server(instance_id),
        super::views::remote(now) is Some,
        super::lifecycle::discards(peers, discarded, super::views::remote(now)->0),
    ensures
        discarded.close is None,
        super::views::remote(now)->0.dead is Some,
        !super::views::is_tried(peers)(now),
{
}

/// A view's state is told once: telling again says nothing new.
pub proof fn law_announcements_are_not_repeated(
    before: App,
    mid: App,
    after: App,
    told: Seq<(usize, PaneId)>,
    again: Seq<(usize, PaneId)>,
)
    requires
        super::views::announces(before, mid, told),
        super::views::announces(mid, after, again),
    ensures
        again.len() == 0,
        after.terminal_runtimes@ == mid.terminal_runtimes@,
{
    let entries = mid.terminal_runtimes@;
    assert forall|i: int| 0 <= i < entries.len() implies !super::views::is_news(mid)(
        #[trigger] entries[i],
    ) by {
        assert(entries[i] == super::views::announced(before.terminal_runtimes@[i]));
    }
    crate::search::lemma_filter_none(entries, super::views::is_news(mid));
    assert forall|i: int| 0 <= i < entries.len() implies after.terminal_runtimes@[i]
        == entries[i] by {
        assert(entries[i] == super::views::announced(before.terminal_runtimes@[i]));
        assert(after.terminal_runtimes@[i] == super::views::announced(entries[i]));
    }
    assert(after.terminal_runtimes@ =~= entries);
}

/// Removing a peer leaves no workspace that views it, and closes no pane on it:
/// nothing that stops running with it claims one.
pub proof fn law_removing_a_peer_leaves_no_view(
    before: App,
    after: App,
    removed: RemovedPeer,
    peer: Seq<char>,
)
    requires
        super::registry::clears(before, after, removed, peer),
    ensures
        forall|i: int|
            0 <= i < after.state.workspaces@.len() ==> !super::lifecycle::backed_by(peer)(
                #[trigger] after.state.workspaces@[i],
            ),
        forall|i: int|
            0 <= i < removed.bare@.len() ==> !claims_on(#[trigger] removed.bare@[i], peer),
        forall|i: int|
            0 <= i < removed.views.ended@.len() ==> !claims_on(
                #[trigger] removed.views.ended@[i],
                peer,
            ),
{
    let (forgot, left) = choose|forgot: App, left: App|
        #![trigger super::registry::forgets(before, forgot, peer), super::lifecycle::closes_views(
            left,
            after,
            removed.views,
            peer,
        )]
        super::registry::forgets(before, forgot, peer) && crate::app::layout::only_releases(
            forgot,
            left,
            removed.bare@,
            super::registry::run_by_peer(forgot.terminal_runtimes@, peer),
        ) && super::lifecycle::closes_views(left, after, removed.views, peer);
    let p = crate::search::lacks(super::lifecycle::backed_by(peer));
    assert forall|i: int| 0 <= i < after.state.workspaces@.len() implies
        !super::lifecycle::backed_by(peer)(#[trigger] after.state.workspaces@[i]) by {
        left.state.workspaces@.lemma_filter_pred(p, i);
    }
    let bare = crate::app::layout::runs_unattached(
        left.state.workspaces@,
        forgot.state.terminals@,
        super::registry::run_by_peer(forgot.terminal_runtimes@, peer),
    );
    assert forall|e: RuntimeEntry| forgot.terminal_runtimes@.contains(e) implies
        !#[trigger] claims_on(e, peer) by {
        let k = choose|k: int|
            0 <= k < forgot.terminal_runtimes@.len() && forgot.terminal_runtimes@[k] == e;
        assert(forgot.terminal_runtimes@[k] == super::registry::unclaimed(
            before.terminal_runtimes@[k],
            peer,
        ));
    }
    assert forall|i: int| 0 <= i < removed.bare@.len() implies !claims_on(
        #[trigger] removed.bare@[i],
        peer,
    ) by {
        assert(removed.bare@.contains(removed.bare@[i]));
        forgot.terminal_runtimes@.lemma_filter_contains_rev(bare, removed.bare@[i]);
    }
    let kept = crate::search::lacks(bare);
    let ends = crate::app::layout::runs_unattached(
        after.state.workspaces@,
        left.state.terminals@,
        super::lifecycle::shown_by(removed.views.workspaces@),
    );
    assert forall|i: int| 0 <= i < removed.views.ended@.len() implies !claims_on(
        #[trigger] removed.views.ended@[i],
        peer,
    ) by {
        let e = removed.views.ended@[i];
        assert(removed.views.ended@.contains(e));
        left.terminal_runtimes@.lemma_filter_contains_rev(ends, e);
        forgot.terminal_runtimes@.lemma_filter_contains_rev(kept, e);
    }
}

/// Closing the terminal behind this entry closes a pane on this peer.
pub open spec fn claims_on(entry: RuntimeEntry, peer: Seq<char>) -> bool {
    super::views::remote(entry) is Some && super::views::remote(entry)->0.peer@ == peer
        && super::views::remote(entry)->0.spawned_on_peer
}

/// A view that is thrown away takes the pane behind it along exactly when this
/// server had the peer make it; a pane that was there before is left alone.
pub proof fn law_only_panes_made_for_a_view_are_closed_with_it(
    peers: Seq<crate::app::peers::PeerView>,
    discarded: Discarded,
    view: RemoteView,
)
    requires
        super::lifecycle::discards(peers, discarded, view),
    ensures
        discarded.close is Some <==> view.spawned_on_peer,
        discarded.close matches Some(close) ==> close.handle@ == view.peer@
            && close.peer_pane_id@ == view.target@ && crate::text::opt_view(
            close.expected_instance,
        ) == crate::text::opt_view(view.instance),
{
}

/// A view that is closed with its workspace ends, when nothing else shows it, and
/// the panes that are closed on peers with it are those that were made for it.
pub proof fn law_a_closed_view_closes_the_pane_made_for_it(
    before: App,
    after: App,
    at: usize,
    ended: Seq<RuntimeEntry>,
    i: int,
)
    requires
        at < before.state.workspaces@.len(),
        crate::app::layout::closes_workspace(before, after, at, ended),
        0 <= i < before.terminal_runtimes@.len(),
        crate::search::any(
            before.state.terminals@,
            crate::app::layout::is_terminal(before.terminal_runtimes@[i].terminal_id@),
        ),
        crate::app::layout::shown_in(before.state.workspaces@[at as int])(
            before.terminal_runtimes@[i].terminal_id,
        ),
        !crate::app::layout::shown(
            before.state.workspaces@.remove(at as int),
            before.terminal_runtimes@[i].terminal_id@,
        ),
    ensures
        ended.contains(before.terminal_runtimes@[i]),
        ended.filter(super::lifecycle::is_spawned()).contains(before.terminal_runtimes@[i])
            <==> super::lifecycle::is_spawned()(before.terminal_runtimes@[i]),
{
    let entry = before.terminal_runtimes@[i];
    let ends = crate::app::layout::runs_unattached(
        after.state.workspaces@,
        before.state.terminals@,
        crate::app::layout::shown_in(before.state.workspaces@[at as int]),
    );
    before.terminal_runtimes@.lemma_filter_contains(ends, i);
    let spawned = super::lifecycle::is_spawned();
    let k = choose|k: int| 0 <= k < ended.len() && ended[k] == entry;
    if spawned(entry) {
        ended.lemma_filter_contains(spawned, k);
    }
    if ended.filter(spawned).contains(entry) {
        let m = choose|m: int|
            0 <= m < ended.filter(spawned).len() && ended.filter(spawned)[m] == entry;
        ended.lemma_filter_pred(spawned, m);
    }
}

/// Who owns a target does not depend on whether its peer is up: an id keeps its
/// owner while the connection comes and goes.
pub proof fn law_ownership_survives_a_lost_connection(
    peers: Seq<crate::app::peers::PeerView>,
    at: int,
    connection: crate::app::peers::ConnectionView,
    target: Seq<char>,
    name: Option<Seq<char>>,
)
    requires
        0 <= at < peers.len(),
    ensures
        super::resolve::target_owner(
            peers.update(at, crate::app::peers::PeerView { connection, ..peers[at] }),
            target,
            name,
        ) == super::resolve::target_owner(peers, target, name),
{
    let changed = peers.update(at, crate::app::peers::PeerView { connection, ..peers[at] });
    if let Some(name) = name {
        let p = crate::app::peers::has_handle(crate::text::trimmed(name));
        lemma_same_first(peers, changed, p, 0);
        crate::search::lemma_first(peers, p, 0);
    }
    if let Some((instance_id, _)) = crate::app::peers::split_id(target) {
        let p = crate::app::peers::has_instance_id(instance_id);
        lemma_same_first(peers, changed, p, 0);
        crate::search::lemma_first(peers, p, 0);
    }
}

proof fn lemma_same_first<T>(a: Seq<T>, b: Seq<T>, p: spec_fn(T) -> bool, from: int)
    requires
        a.len() == b.len(),
        0 <= from,
        forall|i: int| 0 <= i < a.len() ==> p(#[trigger] a[i]) == p(b[i]),
    ensures
        crate::search::first(a, p, from) == crate::search::first(b, p, from),
    decreases a.len() - from,
{
    if from < a.len() {
        assert(p(a[from]) == p(b[from]));
        lemma_same_first(a, b, p, from + 1);
    }
}

/// A peer added over ssh is offered again under the destination it was added
/// with, whatever session it named.
pub proof fn law_history_keeps_the_destination(
    destination: Seq<char>,
    session: Option<Seq<char>>,
)
    requires
        !destination.contains('#'),
    ensures
        crate::app::peer_setup_dialog::destination_of(
            super::registry::history_text(
                crate::app::peers::TargetView::Ssh { destination, session },
            ),
        ) == destination,
{
    reveal_strlit("ssh://");
    reveal_strlit("#");
    let target = super::registry::history_text(
        crate::app::peers::TargetView::Ssh { destination, session },
    );
    let rest = match session {
        Some(session) => destination + "#"@ + session,
        None => destination,
    };
    assert(target =~= "ssh://"@ + rest);
    assert(target.take(6) =~= "ssh://"@);
    assert(target.skip(6) =~= rest);
    assert forall|i: int| 0 <= i < destination.len() implies rest[i] != '#' by {
        assert(rest[i] == destination[i]);
        assert(destination.contains(destination[i]));
    }
    crate::text::lemma_find_is(rest, '#', 0, destination.len() as int);
    assert(rest.take(destination.len() as int) =~= destination);
}

/// A waiting close is sent only to the server that issued the pane's id.
pub proof fn law_a_retried_close_reaches_its_own_server(
    peers: Seq<crate::app::peers::PeerView>,
    handle: Seq<char>,
    i: int,
)
    requires
        ({
            let at = crate::app::peers::position(peers, handle);
            &&& 0 <= at < peers.len()
            &&& 0 <= i < super::lifecycle::retryable(peers[at]).len()
        }),
    ensures
        ({
            let at = crate::app::peers::position(peers, handle);
            let pending = super::lifecycle::retryable(peers[at])[i];
            super::lifecycle::close_route(
                super::lifecycle::without_retryable(peers, handle),
                handle,
            ) matches Ok(route) ==> pending.expected_instance == Some(route.1)
        }),
{
    let at = crate::app::peers::position(peers, handle);
    crate::search::lemma_first(peers, crate::app::peers::has_handle(handle), 0);
    if let Some(id) = peers[at].instance_id() {
        peers[at].pending_pane_cleanups.lemma_filter_pred(
            crate::app::peers::cleanup_expects(id),
            i,
        );
        let left = super::lifecycle::without_retryable(peers, handle);
        lemma_same_first(peers, left, crate::app::peers::has_handle(handle), 0);
    }
}

/// A view that is found in a workspace is shown there, and one that is found bare
/// is shown nowhere.
pub proof fn law_a_found_view_is_where_it_is_said_to_be(
    app: App,
    peer: Seq<char>,
    target: Seq<char>,
    whole: bool,
)
    requires
        super::resolve::already_open(app, peer, target, whole) is Some,
    ensures
        match super::resolve::already_open(app, peer, target, whole)->0 {
            ExistingPeerView::InWorkspace { ws_idx, terminal_id } => crate::app::state::workspace_has(
                crate::app::state::PaneKeyView::Terminal(terminal_id@),
            )(app.state.workspaces@[ws_idx as int]),
            ExistingPeerView::Bare { terminal_id } => !crate::app::layout::shown(
                app.state.workspaces@,
                terminal_id@,
            ),
        },
{
    let terminal_id = super::resolve::viewing_terminal(app, peer, target, whole)->0;
    assert(app.state.workspaces.len() == app.state.workspaces@.len());
    crate::search::lemma_first(
        app.state.workspaces@,
        crate::app::state::workspace_has(
            crate::app::state::PaneKeyView::Terminal(terminal_id@),
        ),
        0,
    );
}

} // verus!
