//! What holds of keeping views alive, and of what their peers report about them.

use vstd::prelude::*;

use crate::api::schema::requests::PaneInfo;
use crate::api::schema::workspaces::AgentStatus;
use crate::app::api::peers::rewrite::AgentState;
use crate::app::api::peers::views::{PanesUpdated, Reconnect};
use crate::app::peers::PeerHandle;
use crate::app::state::{App, PaneId, RuntimeEntry};
use crate::events::{AppEvent, PeerViewReconnectResult};
use crate::terminal::{PeerViewState, RemotePaneMetadata, RemoteView, TerminalId, TerminalRuntime};

verus! {

/// The report at `k` is the first one about what this view is onto: the pane it
/// names, or the terminal.
pub open spec fn is_about(panes: Seq<PaneInfo>, k: int, view: RemoteView) -> bool {
    &&& 0 <= k < panes.len()
    &&& view.target@ == panes[k].pane_id@ || view.target@ == panes[k].terminal_id@
    &&& forall|j: int|
        0 <= j < k ==> view.target@ != (#[trigger] panes[j]).pane_id@ && view.target@
            != panes[j].terminal_id@
}

/// What a pane shows of an agent with this status.
pub open spec fn replays(
    event: AppEvent,
    pane: PaneId,
    agent: Option<String>,
    status: AgentStatus,
) -> bool {
    event == (AppEvent::StateChanged {
        pane_id: pane,
        agent,
        state: match status {
            AgentStatus::Working => AgentState::Working,
            AgentStatus::Blocked => AgentState::Blocked,
            AgentStatus::Idle => AgentState::Idle,
            AgentStatus::Done => AgentState::Idle,
            AgentStatus::Unknown => AgentState::Unknown,
        },
        visible_blocker: status == AgentStatus::Blocked,
        visible_working: status == AgentStatus::Working,
        process_exited: false,
    })
}

/// The report differs from the one before in its agent or in the agent's status.
pub open spec fn agent_moved(previous: Option<RemotePaneMetadata>, pane: PaneInfo) -> bool {
    match previous {
        None => true,
        Some(previous) => {
            ||| previous.agent_status != Some(pane.agent_status)
            ||| previous.agent is Some != pane.agent is Some
            ||| previous.agent is Some && previous.agent->0@ != pane.agent->0@
        },
    }
}

/// The report differs from the one before in its title.
pub open spec fn title_moved(previous: Option<RemotePaneMetadata>, pane: PaneInfo) -> bool {
    match previous {
        None => true,
        Some(previous) => {
            ||| previous.terminal_title is Some != pane.terminal_title is Some
            ||| previous.terminal_title is Some && previous.terminal_title->0@
                != pane.terminal_title->0@
        },
    }
}

proof fn lemma_reported(panes: Seq<PaneInfo>, k: int, view: RemoteView, peer: Seq<char>)
    requires
        is_about(panes, k, view),
        view.peer@ == peer,
    ensures
        crate::search::find(panes, super::views::viewed_by(view, peer)) == Some(panes[k]),
{
    crate::search::lemma_first_is(panes, super::views::viewed_by(view, peer), 0, k);
}

/// A report that changes an agent or its status is replayed on the pane that views
/// it, with the state behind the status that was reported; and a title that
/// changed is read again.
pub proof fn law_what_moved_is_replayed(
    before: App,
    after: App,
    updated: PanesUpdated,
    peer: Seq<char>,
    panes: Seq<PaneInfo>,
    i: int,
    k: int,
    view: RemoteView,
    place: (int, PaneId),
)
    requires
        super::views::stores_report(before, after, updated, peer, panes),
        0 <= i < before.terminal_runtimes@.len(),
        before.terminal_runtimes@[i].runtime == TerminalRuntime::Remote(view),
        view.peer@ == peer,
        is_about(panes, k, view),
        super::views::pane_of_entry(before, before.terminal_runtimes@[i]) == Some(place),
    ensures
        agent_moved(view.metadata, panes[k]) ==> exists|d: int|
            0 <= d < updated.detections@.len() && replays(
                #[trigger] updated.detections@[d],
                place.1,
                panes[k].agent,
                panes[k].agent_status,
            ),
        title_moved(view.metadata, panes[k]) ==> updated.retitled@.contains(place.1),
{
    let entries = before.terminal_runtimes@;
    lemma_reported(panes, k, view, peer);
    if agent_moved(view.metadata, panes[k]) {
        let p = super::views::in_a_pane(before, super::views::has_new_agent_facts(panes, peer));
        let moved = entries.filter(p);
        assert(p(entries[i]));
        entries.lemma_filter_contains(p, i);
        let d = choose|d: int| 0 <= d < moved.len() && moved[d] == entries[i];
        assert(super::views::is_detection(before, panes, peer, moved[d], updated.detections@[d]));
        assert(replays(
            updated.detections@[d],
            place.1,
            panes[k].agent,
            panes[k].agent_status,
        ));
    }
    if title_moved(view.metadata, panes[k]) {
        let p = super::views::in_a_pane(before, super::views::has_new_title(panes, peer));
        let renamed = entries.filter(p);
        assert(p(entries[i]));
        entries.lemma_filter_contains(p, i);
        let d = choose|d: int| 0 <= d < renamed.len() && renamed[d] == entries[i];
        assert(super::views::shows_entry(before, renamed[d], updated.retitled@[d]));
    }
}

/// Nothing but what moved is replayed: every detection is about a view of this peer
/// whose agent or status differs from the report before.
pub proof fn law_only_what_moved_is_replayed(
    before: App,
    after: App,
    updated: PanesUpdated,
    peer: Seq<char>,
    panes: Seq<PaneInfo>,
    d: int,
)
    requires
        super::views::stores_report(before, after, updated, peer, panes),
        0 <= d < updated.detections@.len(),
    ensures
        exists|i: int, k: int|
            #![trigger before.terminal_runtimes@[i], panes[k]]
            {
                &&& 0 <= i < before.terminal_runtimes@.len()
                &&& before.terminal_runtimes@[i].runtime matches TerminalRuntime::Remote(view)
                &&& view.peer@ == peer
                &&& is_about(panes, k, view)
                &&& agent_moved(view.metadata, panes[k])
                &&& super::views::pane_of_entry(before, before.terminal_runtimes@[i]) matches Some(
                    place,
                )
                &&& replays(
                    updated.detections@[d],
                    place.1,
                    panes[k].agent,
                    panes[k].agent_status,
                )
            },
{
    let entries = before.terminal_runtimes@;
    let p = super::views::in_a_pane(before, super::views::has_new_agent_facts(panes, peer));
    let moved = entries.filter(p);
    let e = moved[d];
    entries.lemma_filter_pred(p, d);
    assert(moved.contains(e));
    entries.lemma_filter_contains_rev(p, e);
    let i = choose|i: int| 0 <= i < entries.len() && entries[i] == e;
    let view = super::views::remote(e)->0;
    let seen = super::views::viewed_by(view, peer);
    crate::search::lemma_first(panes, seen, 0);
    let k = crate::search::first(panes, seen, 0);
    assert(super::views::is_detection(before, panes, peer, e, updated.detections@[d]));
    assert(seen(panes[k]));
    assert forall|j: int| 0 <= j < k implies view.target@ != (#[trigger] panes[j]).pane_id@
        && view.target@ != panes[j].terminal_id@ by {
        assert(!seen(panes[j]));
    }
    assert(is_about(panes, k, view));
    assert(entries[i].runtime == TerminalRuntime::Remote(view));
    assert(panes[k] == panes[k]);
}

/// Two reports in a row that differ in an agent or its status alone: the second is
/// replayed.
pub proof fn law_a_second_report_is_replayed(
    before: App,
    mid: App,
    after: App,
    first: PanesUpdated,
    second: PanesUpdated,
    peer: Seq<char>,
    was: Seq<PaneInfo>,
    now: Seq<PaneInfo>,
    i: int,
    j: int,
    k: int,
    view: RemoteView,
    place: (int, PaneId),
)
    requires
        super::views::stores_report(before, mid, first, peer, was),
        super::views::stores_report(mid, after, second, peer, now),
        0 <= i < before.terminal_runtimes@.len(),
        before.terminal_runtimes@[i].runtime == TerminalRuntime::Remote(view),
        view.peer@ == peer,
        is_about(was, j, view),
        is_about(now, k, view),
        super::views::pane_of_entry(before, before.terminal_runtimes@[i]) == Some(place),
        was[j].agent_status != now[k].agent_status || was[j].agent is Some != now[k].agent is Some
            || (was[j].agent is Some && was[j].agent->0@ != now[k].agent->0@),
    ensures
        exists|d: int|
            0 <= d < second.detections@.len() && replays(
                #[trigger] second.detections@[d],
                place.1,
                now[k].agent,
                now[k].agent_status,
            ),
{
    lemma_reported(was, j, view, peer);
    let entry = before.terminal_runtimes@[i];
    assert(mid.terminal_runtimes@[i] == super::views::labeled(was, peer, entry));
    let seen = super::views::remote(mid.terminal_runtimes@[i])->0;
    assert(seen.metadata is Some);
    assert(seen.metadata->0@.agent == super::views::metadata_of(was[j])@.agent);
    assert(seen.metadata->0.agent_status == Some(was[j].agent_status));
    assert(mid.terminal_runtimes@[i].terminal_id == entry.terminal_id);
    law_what_moved_is_replayed(mid, after, second, peer, now, i, k, seen, place);
}

/// A report that says nothing new says nothing: the same report again is replayed
/// nowhere, retitles nothing and redraws nothing.
pub proof fn law_a_repeated_report_is_quiet(
    before: App,
    mid: App,
    after: App,
    first: PanesUpdated,
    second: PanesUpdated,
    peer: Seq<char>,
    panes: Seq<PaneInfo>,
)
    requires
        super::views::stores_report(before, mid, first, peer, panes),
        super::views::stores_report(mid, after, second, peer, panes),
    ensures
        second.detections@.len() == 0,
        second.retitled@.len() == 0,
        !second.redraw,
        after.terminal_runtimes@ == mid.terminal_runtimes@,
{
    let entries = mid.terminal_runtimes@;
    let facts = super::views::in_a_pane(mid, super::views::has_new_agent_facts(panes, peer));
    let titles = super::views::in_a_pane(mid, super::views::has_new_title(panes, peer));
    let fresh = super::views::is_relabeled(panes, peer);
    assert forall|i: int| 0 <= i < entries.len() implies !facts(#[trigger] entries[i]) && !titles(
        entries[i],
    ) && !fresh(entries[i]) by {
        let was = before.terminal_runtimes@[i];
        assert(entries[i] == super::views::labeled(panes, peer, was));
        if super::views::reported(panes, peer, was) is Some {
            assert(super::views::viewed_by(super::views::remote(was)->0, peer)
                =~= super::views::viewed_by(super::views::remote(entries[i])->0, peer));
        }
    }
    crate::search::lemma_filter_none(entries, facts);
    crate::search::lemma_filter_none(entries, titles);
    crate::search::lemma_any(entries, fresh);
    assert forall|i: int| 0 <= i < entries.len() implies after.terminal_runtimes@[i]
        == entries[i] by {
        assert(!fresh(entries[i]));
    }
    assert(after.terminal_runtimes@ =~= entries);
}

/// What a view last heard is what is kept of it, and it is drawn again when that
/// changed.
pub proof fn law_a_report_is_kept(
    before: App,
    after: App,
    updated: PanesUpdated,
    peer: Seq<char>,
    panes: Seq<PaneInfo>,
    i: int,
    k: int,
    view: RemoteView,
)
    requires
        super::views::stores_report(before, after, updated, peer, panes),
        0 <= i < before.terminal_runtimes@.len(),
        before.terminal_runtimes@[i].runtime == TerminalRuntime::Remote(view),
        view.peer@ == peer,
        is_about(panes, k, view),
    ensures
        ({
            let now = after.terminal_runtimes@[i];
            &&& now.terminal_id == before.terminal_runtimes@[i].terminal_id
            &&& now.runtime matches TerminalRuntime::Remote(left)
            &&& left == (RemoteView { metadata: left.metadata, ..view })
            &&& left.metadata matches Some(kept)
            &&& kept.agent_status == Some(panes[k].agent_status)
            &&& kept.keyboard_protocol == panes[k].keyboard_protocol
            &&& crate::text::opt_view(kept.agent) == crate::text::opt_view(panes[k].agent)
            &&& crate::text::opt_view(kept.terminal_title) == crate::text::opt_view(
                panes[k].terminal_title,
            )
            &&& crate::text::opt_view(kept.agent_osc_title) == crate::text::opt_view(
                panes[k].agent_osc_title,
            )
            &&& crate::text::opt_view(kept.agent_osc_progress) == crate::text::opt_view(
                panes[k].agent_osc_progress,
            )
            &&& crate::paths::is_same_optional(
                crate::text::opt_view(kept.cwd),
                crate::text::opt_view(panes[k].cwd),
            )
            &&& crate::paths::is_same_optional(
                crate::text::opt_view(kept.foreground_cwd),
                crate::text::opt_view(panes[k].foreground_cwd),
            )
            &&& left.metadata != view.metadata ==> updated.redraw
        }),
{
    lemma_reported(panes, k, view, peer);
    let e = before.terminal_runtimes@[i];
    assert(after.terminal_runtimes@[i] == super::views::labeled(panes, peer, e));
    crate::search::lemma_any(
        before.terminal_runtimes@,
        super::views::is_relabeled(panes, peer),
    );
    if super::views::is_relabeled(panes, peer)(e) {
        assert(updated.redraw);
    }
}

/// A view of another peer, and a terminal of this machine, hear nothing of a
/// report.
pub proof fn law_a_report_is_for_its_own_peer(
    before: App,
    after: App,
    updated: PanesUpdated,
    peer: Seq<char>,
    panes: Seq<PaneInfo>,
    i: int,
)
    requires
        super::views::stores_report(before, after, updated, peer, panes),
        0 <= i < before.terminal_runtimes@.len(),
        before.terminal_runtimes@[i].runtime matches TerminalRuntime::Remote(view) ==> view.peer@
            != peer,
    ensures
        after.terminal_runtimes@[i] == before.terminal_runtimes@[i],
{
    let e = before.terminal_runtimes@[i];
    assert(after.terminal_runtimes@[i] == super::views::labeled(panes, peer, e));
    if e.runtime is Remote {
        let seen = super::views::viewed_by(super::views::remote(e)->0, peer);
        crate::search::lemma_first(panes, seen, 0);
    }
}

/// What a report comes to, for the entry at `i` that views the pane which the report
/// at `k` is about: the report is kept, and a change of its agent or of the agent's
/// status is replayed on the pane that shows the view.
pub open spec fn report_lands(
    before: App,
    after: App,
    updated: PanesUpdated,
    panes: Seq<PaneInfo>,
    i: int,
    k: int,
    place: (int, PaneId),
) -> bool {
    &&& after.terminal_runtimes@.len() == before.terminal_runtimes@.len()
    &&& after.state == before.state
    &&& before.terminal_runtimes@[i].runtime matches TerminalRuntime::Remote(view) ==> {
        &&& after.terminal_runtimes@[i].runtime matches TerminalRuntime::Remote(left)
        &&& left.metadata is Some
        &&& left.metadata->0.agent_status == Some(panes[k].agent_status)
        &&& left.spawned_on_peer == view.spawned_on_peer
        &&& left.connected == view.connected
        &&& agent_moved(view.metadata, panes[k]) ==> exists|d: int|
            0 <= d < updated.detections@.len() && replays(
                #[trigger] updated.detections@[d],
                place.1,
                panes[k].agent,
                panes[k].agent_status,
            )
        &&& title_moved(view.metadata, panes[k]) ==> updated.retitled@.contains(place.1)
    }
}

/// Every report that a peer makes lands as [`report_lands`] says.
pub proof fn law_reports_are_taken_in(
    handle: &PeerHandle,
    panes: &Vec<PaneInfo>,
    i: int,
    k: int,
    view: RemoteView,
    place: (int, PaneId),
)
    ensures
        forall|app: &mut App, r: PanesUpdated| #[trigger]
            call_ensures(App::handle_peer_panes_updated, (app, handle, panes), r) && 0 <= i < (
            *app).terminal_runtimes@.len() && (*app).terminal_runtimes@[i].runtime
                == TerminalRuntime::Remote(view) && view.peer@ == handle@ && is_about(
                panes@,
                k,
                view,
            ) && super::views::pane_of_entry(*app, (*app).terminal_runtimes@[i]) == Some(place)
                ==> report_lands(*app, *final(app), r, panes@, i, k, place),
{
    assert forall|app: &mut App, r: PanesUpdated| #[trigger]
        call_ensures(App::handle_peer_panes_updated, (app, handle, panes), r) && 0 <= i < (
        *app).terminal_runtimes@.len() && (*app).terminal_runtimes@[i].runtime
            == TerminalRuntime::Remote(view) && view.peer@ == handle@ && is_about(panes@, k, view)
            && super::views::pane_of_entry(*app, (*app).terminal_runtimes@[i]) == Some(
            place,
        ) implies report_lands(*app, *final(app), r, panes@, i, k, place) by {
        law_what_moved_is_replayed(
            *app,
            *final(app),
            r,
            handle@,
            panes@,
            i,
            k,
            view,
            place,
        );
        law_a_report_is_kept(*app, *final(app), r, handle@, panes@, i, k, view);
    }
}

/// The view is attached to a server other than the one with this id.
pub open spec fn on_another(view: RemoteView, instance_id: Seq<char>) -> bool {
    view.instance is Some && view.instance->0@ != instance_id
}

/// A peer that came back as another server leaves its old views dead, and the panes
/// made for them are no longer this server's to close; every other view stays.
pub proof fn law_views_of_a_replaced_server_die(handle: &PeerHandle, instance_id: &str, i: int)
    ensures
        forall|app: &mut App| #[trigger]
            call_ensures(
                App::abandon_views_of_replaced_peer,
                (app, handle, instance_id),
                (),
            ) && 0 <= i < (*app).terminal_runtimes@.len() ==> {
                let was = (*app).terminal_runtimes@[i];
                let now = (*final(app)).terminal_runtimes@[i];
                &&& (*final(app)).state == (*app).state
                &&& (*final(app)).terminal_runtimes@.len() == (*app).terminal_runtimes@.len()
                &&& was.runtime is Local ==> now == was
                &&& was.runtime matches TerminalRuntime::Remote(view) ==> {
                    &&& !(view.peer@ == handle@ && on_another(view, instance_id@)) ==> now == was
                    &&& view.peer@ == handle@ && on_another(view, instance_id@) ==> {
                        &&& now.terminal_id == was.terminal_id
                        &&& now.runtime is Remote
                        &&& now.runtime->Remote_0.dead is Some
                        &&& now.runtime->Remote_0.dead->0@
                            == "the peer was replaced by a different server"@
                        &&& !now.runtime->Remote_0.spawned_on_peer
                        &&& now.runtime->Remote_0.target == view.target
                    }
                }
            },
{
}

/// A peer that came back has its views tried at once, and no other peer's.
pub proof fn law_a_returned_peer_is_tried_at_once(handle: &PeerHandle, i: int)
    ensures
        forall|app: &mut App| #[trigger]
            call_ensures(App::retry_peer_views_now, (app, handle), ()) && 0 <= i < (
            *app).terminal_runtimes@.len() ==> {
                let was = (*app).terminal_runtimes@[i];
                let now = (*final(app)).terminal_runtimes@[i];
                &&& (*final(app)).state == (*app).state
                &&& was.runtime is Local ==> now == was
                &&& was.runtime matches TerminalRuntime::Remote(view) ==> {
                    &&& view.peer@ != handle@ ==> now == was
                    &&& view.peer@ == handle@ ==> {
                        &&& now.terminal_id == was.terminal_id
                        &&& now.runtime is Remote
                        &&& now.runtime->Remote_0.backoff_over
                        &&& now.runtime->Remote_0 == (RemoteView { backoff_over: true, ..view })
                    }
                }
            },
{
}

/// The view is down, nothing is under way, and its wait is over.
pub open spec fn waits(view: RemoteView) -> bool {
    view.dead is None && !view.connected && !view.in_flight && view.backoff_over
}

/// What a sweep makes of a view: one that is up, under way or waiting stays; one whose
/// peer is gone or in error dies, and says so; one whose peer answers is tried again,
/// unless the peer has refused it for good.
pub open spec fn is_swept_right(
    peers: Seq<crate::app::peers::PeerView>,
    view: RemoteView,
    now: RuntimeEntry,
    was: RuntimeEntry,
    q: int,
) -> bool {
    let peer = peers[q];
    let left = now.runtime->Remote_0;
    &&& !waits(view) ==> now == was
    &&& waits(view) && crate::app::peer_laws::is_no_peer(peers, view.peer@) ==> {
        &&& left.dead is Some
        &&& left.dead->0@ == "peer '"@ + view.peer@ + "' is no longer configured"@
        &&& left.spawned_on_peer == view.spawned_on_peer
    }
    &&& waits(view) && super::open_laws::is_peer(peers, q, view.peer@) ==> {
        &&& peer.connection is Connecting || peer.connection is Reconnecting ==> now == was
        &&& peer.connection matches crate::app::peers::ConnectionView::Error { message } ==> {
            &&& left.dead is Some
            &&& left.dead->0@ == "peer '"@ + view.peer@ + "' is unavailable: "@ + message
        }
        &&& peer.connection is Connected && peer.identity is Some && peer.api_socket() is Some ==> {
            &&& view.refused is Some ==> left.dead == view.refused && !left.in_flight
            &&& view.refused is None ==> left.in_flight && left.dead is None
        }
        &&& peer.connection is Connected && (peer.identity is None || peer.api_socket() is None)
            ==> now == was
    }
}

/// A sweep treats every view as [`is_swept_right`] says, and makes an attempt for each
/// view that is tried, on the socket its peer answers on.
pub proof fn law_a_sweep_tries_what_can_be_tried(i: int, q: int)
    ensures
        forall|app: &mut App, r: (Vec<Reconnect>, Vec<TerminalId>)| #[trigger]
            call_ensures(App::sweep_views, (app,), r) && 0 <= i < (*app).terminal_runtimes@.len()
                ==> {
                let was = (*app).terminal_runtimes@[i];
                let now = (*final(app)).terminal_runtimes@[i];
                &&& (*final(app)).state == (*app).state
                &&& was.runtime is Local ==> now == was
                &&& was.runtime matches TerminalRuntime::Remote(view) ==> {
                    &&& now.terminal_id == was.terminal_id
                    &&& now.runtime is Remote
                    &&& is_swept_right((*app).state.peers@, view, now, was, q)
                    &&& !view.in_flight && now.runtime->Remote_0.in_flight ==> exists|a: int|
                        0 <= a < r.0@.len() && (#[trigger] r.0@[a]).terminal_id == was.terminal_id
                            && r.0@[a].peer == view.peer && r.0@[a].target == view.target
                            && r.0@[a].size == view.size && (super::open_laws::is_peer(
                            (*app).state.peers@,
                            q,
                            view.peer@,
                        ) ==> super::open_laws::answers_on(
                            (*app).state.peers@[q],
                            r.0@[a].api_socket@,
                            r.0@[a].instance_id@,
                        ))
                }
            },
{
    assert forall|app: &mut App, r: (Vec<Reconnect>, Vec<TerminalId>)| #[trigger]
        call_ensures(App::sweep_views, (app,), r) && 0 <= i < (
        *app).terminal_runtimes@.len() implies {
        let was = (*app).terminal_runtimes@[i];
        let now = (*final(app)).terminal_runtimes@[i];
        &&& (*final(app)).state == (*app).state
        &&& was.runtime is Local ==> now == was
        &&& was.runtime matches TerminalRuntime::Remote(view) ==> {
            &&& now.terminal_id == was.terminal_id
            &&& now.runtime is Remote
            &&& is_swept_right((*app).state.peers@, view, now, was, q)
            &&& !view.in_flight && now.runtime->Remote_0.in_flight ==> exists|a: int|
                0 <= a < r.0@.len() && (#[trigger] r.0@[a]).terminal_id == was.terminal_id
                    && r.0@[a].peer == view.peer && r.0@[a].target == view.target && r.0@[a].size
                    == view.size && (super::open_laws::is_peer(
                    (*app).state.peers@,
                    q,
                    view.peer@,
                ) ==> super::open_laws::answers_on(
                    (*app).state.peers@[q],
                    r.0@[a].api_socket@,
                    r.0@[a].instance_id@,
                ))
        }
    } by {
        let peers = (*app).state.peers@;
        let entries = (*app).terminal_runtimes@;
        let was = entries[i];
        let now = (*final(app)).terminal_runtimes@[i];
        assert(super::views::is_swept(peers, was, now));
        if was.runtime is Remote {
            let view = was.runtime->Remote_0;
            let p = crate::app::peers::has_handle(view.peer@);
            crate::search::lemma_first(peers, p, 0);
            if super::open_laws::is_peer(peers, q, view.peer@) {
                crate::search::lemma_first_is(peers, p, 0, q);
            }
            if crate::app::peer_laws::is_no_peer(peers, view.peer@) {
                crate::search::lemma_first_is(peers, p, 0, peers.len() as int);
            }
            if !view.in_flight && now.runtime->Remote_0.in_flight {
                let tried = super::views::is_tried(peers);
                entries.lemma_filter_contains(tried, i);
                let a = choose|a: int|
                    0 <= a < entries.filter(tried).len() && entries.filter(tried)[a] == was;
                assert(super::views::is_attempt(peers, r.0@[a], was));
            }
        }
    }
}

/// An attempt is made only for a view that waits.
pub proof fn law_only_waiting_views_are_tried()
    ensures
        forall|app: &mut App, r: (Vec<Reconnect>, Vec<TerminalId>)| #[trigger]
            call_ensures(App::sweep_views, (app,), r) ==> forall|a: int|
                0 <= a < r.0@.len() ==> tried_view((*app).terminal_runtimes@, #[trigger] r.0@[a]),
{
    assert forall|app: &mut App, r: (Vec<Reconnect>, Vec<TerminalId>), a: int|
        #[trigger] call_ensures(App::sweep_views, (app,), r) && 0 <= a
            < r.0@.len() implies tried_view(
        (*app).terminal_runtimes@,
        #[trigger] r.0@[a],
    ) by {
        let peers = (*app).state.peers@;
        let entries = (*app).terminal_runtimes@;
        let tried = super::views::is_tried(peers);
        entries.lemma_filter_pred(tried, a);
        entries.lemma_filter_contains_rev(tried, entries.filter(tried)[a]);
        let i = choose|i: int| 0 <= i < entries.len() && entries[i] == entries.filter(tried)[a];
        assert(super::views::is_attempt(peers, r.0@[a], entries.filter(tried)[a]));
        assert(entries[i].runtime is Remote);
    }
}

/// The attempt is for one of these entries, which waits.
pub open spec fn tried_view(entries: Seq<RuntimeEntry>, attempt: Reconnect) -> bool {
    exists|i: int|
        0 <= i < entries.len() && (#[trigger] entries[i]).terminal_id == attempt.terminal_id
            && entries[i].runtime is Remote && waits(entries[i].runtime->Remote_0)
            && entries[i].runtime->Remote_0.refused is None
            && entries[i].runtime->Remote_0.target == attempt.target
}

/// The entry at `i` is the first that runs this terminal.
pub open spec fn runs_at(entries: Seq<RuntimeEntry>, i: int, id: Seq<char>) -> bool {
    &&& 0 <= i < entries.len()
    &&& entries[i].terminal_id@ == id
    &&& forall|j: int| 0 <= j < i ==> (#[trigger] entries[j]).terminal_id@ != id
}

/// What an attempt comes to: a failed one is tried again later; one that came up on
/// the server that its peer is takes the view's place, with what the view knew and
/// owned; one for a view that died in the meantime, and one on another server, are
/// thrown away.
pub open spec fn attempt_lands(
    before: App,
    after: App,
    discarded: Option<RemoteView>,
    finished: PeerViewReconnectResult,
    i: int,
    q: int,
) -> bool {
    let was = before.terminal_runtimes@[i];
    let now = after.terminal_runtimes@[i];
    &&& after.state == before.state
    &&& after.terminal_runtimes@.len() == before.terminal_runtimes@.len()
    &&& forall|j: int|
        0 <= j < before.terminal_runtimes@.len() && j != i ==> #[trigger] after.terminal_runtimes@[j]
            == before.terminal_runtimes@[j]
    &&& was.runtime is Local ==> now == was && (finished.result matches Ok(view) ==> discarded
        == Some(view))
    &&& was.runtime matches TerminalRuntime::Remote(view) ==> {
        &&& finished.result is Err ==> {
            &&& discarded is None
            &&& now.runtime == TerminalRuntime::Remote(
                RemoteView { in_flight: false, backoff_over: false, ..view },
            )
        }
        &&& finished.result matches Ok(fresh) ==> {
            let replaced = super::open_laws::is_peer(before.state.peers@, q, fresh.peer@)
                && before.state.peers@[q].identity is Some && on_another(
                fresh,
                before.state.peers@[q].identity->0.instance_id,
            );
            &&& view.dead is Some ==> now == was && discarded == Some(fresh)
            &&& view.dead is None && replaced ==> {
                &&& discarded == Some(fresh)
                &&& now.runtime == TerminalRuntime::Remote(
                    RemoteView { in_flight: false, backoff_over: false, ..view },
                )
            }
            &&& view.dead is None && super::open_laws::is_peer(
                before.state.peers@,
                q,
                fresh.peer@,
            ) && !replaced ==> {
                &&& discarded is None
                &&& now.terminal_id == was.terminal_id
                &&& now.runtime is Remote
                &&& now.runtime->Remote_0.spawned_on_peer == view.spawned_on_peer
                &&& now.runtime->Remote_0.announced == view.announced
                &&& now.runtime->Remote_0.metadata == view.metadata
                &&& now.runtime->Remote_0.instance == fresh.instance
                &&& now.runtime->Remote_0.connected == fresh.connected
                &&& now.runtime->Remote_0.target == fresh.target
            }
        }
    }
}

/// An attempt lands as [`attempt_lands`] says.
pub proof fn law_an_attempt_lands_on_its_view(finished: PeerViewReconnectResult, i: int, q: int)
    ensures
        forall|app: &mut App, r: Option<RemoteView>| #[trigger]
            call_ensures(App::handle_peer_view_reconnected, (app, finished), r) && runs_at(
                (*app).terminal_runtimes@,
                i,
                finished.terminal_id@,
            ) ==> attempt_lands(*app, *final(app), r, finished, i, q),
{
    assert forall|app: &mut App, r: Option<RemoteView>| #[trigger]
        call_ensures(App::handle_peer_view_reconnected, (app, finished), r) && runs_at(
            (*app).terminal_runtimes@,
            i,
            finished.terminal_id@,
        ) implies attempt_lands(*app, *final(app), r, finished, i, q) by {
        let entries = (*app).terminal_runtimes@;
        let peers = (*app).state.peers@;
        crate::search::lemma_first_is(
            entries,
            crate::app::state::of_terminal(finished.terminal_id@),
            0,
            i,
        );
        if finished.result is Ok {
            let peer = finished.result->Ok_0.peer@;
            if super::open_laws::is_peer(peers, q, peer) {
                crate::search::lemma_first_is(peers, crate::app::peers::has_handle(peer), 0, q);
            }
        }
    }
}

/// How a view stands: dead is disconnected, whatever else; else connected, or on its
/// way back.
pub open spec fn standing(view: RemoteView) -> PeerViewState {
    match (view.dead, view.connected) {
        (Some(_), _) => PeerViewState::Disconnected,
        (None, true) => PeerViewState::Connected,
        (None, false) => PeerViewState::Reconnecting,
    }
}

/// Every view whose standing changed is announced on the pane that shows it, and is
/// not announced again until it changes.
pub proof fn law_standings_are_announced(i: int, place: (int, PaneId))
    ensures
        forall|app: &mut App, r: Vec<(usize, PaneId)>| #[trigger]
            call_ensures(App::announce_peer_view_liveness, (app,), r) && 0 <= i < (
            *app).terminal_runtimes@.len() ==> {
                let was = (*app).terminal_runtimes@[i];
                let now = (*final(app)).terminal_runtimes@[i];
                &&& (*final(app)).state == (*app).state
                &&& was.runtime is Local ==> now == was
                &&& was.runtime matches TerminalRuntime::Remote(view) ==> {
                    &&& now.terminal_id == was.terminal_id
                    &&& now.runtime == TerminalRuntime::Remote(
                        RemoteView { announced: standing(view), ..view },
                    )
                    &&& view.announced != standing(view) && super::views::pane_of_entry(*app, was)
                        == Some(place) ==> exists|k: int|
                        0 <= k < r@.len() && (#[trigger] r@[k]).0 == place.0 && r@[k].1 == place.1
                }
            },
{
    assert forall|app: &mut App, r: Vec<(usize, PaneId)>| #[trigger]
        call_ensures(App::announce_peer_view_liveness, (app,), r) && 0 <= i < (
        *app).terminal_runtimes@.len() implies {
        let was = (*app).terminal_runtimes@[i];
        let now = (*final(app)).terminal_runtimes@[i];
        &&& (*final(app)).state == (*app).state
        &&& was.runtime is Local ==> now == was
        &&& was.runtime matches TerminalRuntime::Remote(view) ==> {
            &&& now.terminal_id == was.terminal_id
            &&& now.runtime == TerminalRuntime::Remote(
                RemoteView { announced: standing(view), ..view },
            )
            &&& view.announced != standing(view) && super::views::pane_of_entry(*app, was) == Some(
                place,
            ) ==> exists|k: int|
                0 <= k < r@.len() && (#[trigger] r@[k]).0 == place.0 && r@[k].1 == place.1
        }
    } by {
        let entries = (*app).terminal_runtimes@;
        let was = entries[i];
        assert((*final(app)).terminal_runtimes@[i] == super::views::announced(was));
        if was.runtime is Remote {
            let view = was.runtime->Remote_0;
            if view.announced != standing(view) && super::views::pane_of_entry(*app, was) == Some(
                place,
            ) {
                let news = super::views::is_news(*app);
                entries.lemma_filter_contains(news, i);
                let k = choose|k: int|
                    0 <= k < entries.filter(news).len() && entries.filter(news)[k] == was;
                assert(super::views::pane_of_entry(*app, entries.filter(news)[k]) == Some(
                    (r@[k].0 as int, r@[k].1),
                ));
            }
        }
    }
}

/// What a view says of itself.
pub proof fn law_a_view_says_how_it_stands(
    view: RemoteView,
    instance: &str,
    state: PeerViewState,
    due: bool,
    other: bool,
    pane: Option<crate::terminal::SpawnedPeerPane>,
    named: bool,
)
    requires
        call_ensures(RemoteView::state, (&view,), state),
        call_ensures(RemoteView::reconnect_due, (&view,), due),
        call_ensures(RemoteView::is_on_other_server, (&view, instance), other),
        call_ensures(RemoteView::spawned_peer_pane, (&view,), pane),
        call_ensures(RemoteView::target_is_a_pane_or_terminal, (&view,), named),
    ensures
        state == standing(view),
        due == waits(view),
        other == on_another(view, instance@),
        pane is Some == view.spawned_on_peer,
        pane matches Some(pane) ==> pane.peer == view.peer && pane.peer_pane_id == view.target
            && pane.expected_instance == view.instance,
        crate::text::has_prefix(view.target@, "term_"@) ==> named,
{
}

/// A view of a peer is onto one of its panes, by the pane's id or its terminal's.
pub proof fn law_a_view_is_onto_its_pane(
    view: RemoteView,
    peer: &str,
    pane: &str,
    terminal: &str,
    r: bool,
)
    requires
        call_ensures(RemoteView::views_peer_pane, (&view, peer, pane, terminal), r),
    ensures
        r == (view.peer@ == peer@ && (view.target@ == pane@ || view.target@ == terminal@)),
{
}

/// What happens to a view happens to nothing else of it.
pub proof fn law_views_change_one_thing_at_a_time(
    reason: String,
    previous: &RemoteView,
    metadata: RemotePaneMetadata,
)
    ensures
        forall|view: &mut RemoteView| #[trigger]
            call_ensures(RemoteView::mark_dead, (view, reason), ()) ==> *final(view) == (
            RemoteView { dead: Some(reason), ..*view }),
        forall|view: &mut RemoteView| #[trigger]
            call_ensures(RemoteView::reconnect_failed, (view,), ()) ==> *final(view) == (
            RemoteView { in_flight: false, backoff_over: false, ..*view }),
        forall|view: &mut RemoteView| #[trigger]
            call_ensures(RemoteView::retry_now, (view,), ()) ==> *final(view) == (RemoteView {
                backoff_over: true,
                ..*view
            }),
        forall|view: &mut RemoteView| #[trigger]
            call_ensures(RemoteView::clear_spawned_on_peer, (view,), ()) ==> *final(view) == (
            RemoteView { spawned_on_peer: false, ..*view }),
        forall|view: &mut RemoteView| #[trigger]
            call_ensures(RemoteView::inherit_from, (view, previous), ()) ==> *final(view) == (
            RemoteView {
                spawned_on_peer: previous.spawned_on_peer,
                announced: previous.announced,
                metadata: previous.metadata,
                ..*view
            }),
        forall|view: &mut RemoteView, r: bool| #[trigger]
            call_ensures(RemoteView::begin_reconnect, (view,), r) ==> {
                &&& r == view.refused is None
                &&& r ==> *final(view) == (RemoteView { in_flight: true, ..*view })
                &&& !r ==> *final(view) == (RemoteView { dead: view.refused, ..*view })
            },
        forall|view: &mut RemoteView, r: Option<PeerViewState>| #[trigger]
            call_ensures(RemoteView::take_view_state_change, (view,), r) ==> {
                &&& r is Some == (view.announced != standing(*view))
                &&& r is Some ==> r->0 == standing(*view)
                &&& (*final(view)).announced == standing(*view)
            },
        forall|view: &mut RemoteView, r: bool| #[trigger]
            call_ensures(RemoteView::set_metadata, (view, metadata), r) ==> {
                &&& (*final(view)).metadata is Some
                &&& (*final(view)).metadata->0.agent_status == metadata.agent_status
                &&& crate::text::opt_view((*final(view)).metadata->0.agent)
                    == crate::text::opt_view(metadata.agent)
                &&& crate::text::opt_view((*final(view)).metadata->0.terminal_title)
                    == crate::text::opt_view(metadata.terminal_title)
                &&& view.metadata is None ==> r
                &&& !r ==> *final(view) == *view
            },
{
    assert forall|view: &mut RemoteView, r: bool| #[trigger]
        call_ensures(RemoteView::set_metadata, (view, metadata), r) implies {
        &&& (*final(view)).metadata is Some
        &&& (*final(view)).metadata->0.agent_status == metadata.agent_status
        &&& crate::text::opt_view((*final(view)).metadata->0.agent) == crate::text::opt_view(
            metadata.agent,
        )
        &&& crate::text::opt_view((*final(view)).metadata->0.terminal_title)
            == crate::text::opt_view(metadata.terminal_title)
        &&& view.metadata is None ==> r
        &&& !r ==> *final(view) == *view
    } by {
        if !r {
            assert((*view).metadata->0@.agent == metadata@.agent);
            assert((*view).metadata->0@.terminal_title == metadata@.terminal_title);
            assert((*view).metadata->0@.agent_status == metadata@.agent_status);
        }
    }
}

/// A terminal's size is its own.
pub proof fn law_a_terminal_has_its_size(
    runtime: TerminalRuntime,
    r: crate::terminal::TerminalSize,
)
    requires
        call_ensures(TerminalRuntime::current_size, (&runtime,), r),
    ensures
        runtime matches TerminalRuntime::Local { size } ==> r == size,
        runtime matches TerminalRuntime::Remote(view) ==> r == view.size,
{
}

} // verus!
