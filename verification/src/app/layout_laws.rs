//! What holds of putting panes where they are shown, and of taking them away.

use vstd::prelude::*;

use crate::api::schema::events::EventKind;
use crate::api::schema::peers::TerminalTarget;
use crate::api::schema::responses::ErrorBody;
use crate::app::api::announce::Announcement;
use crate::app::api::peers::forward::Reply;
use crate::app::api::peers::lifecycle::{ClosedViews, Discarded, PaneClose};
use crate::app::api::peers::open_laws::{answers_on, is_peer};
use crate::app::peer_laws::is_no_peer;
use crate::app::peers::{PeerHandle, PeerView};
use crate::app::state::{App, Mode, PaneId, RuntimeEntry, Workspace};
use crate::events::AppEvent;
use crate::terminal::{RemoteView, TerminalId, TerminalRuntime};

verus! {

/// The pane at these places shows this terminal.
pub open spec fn shows_terminal(
    workspaces: Seq<Workspace>,
    at: int,
    tab: int,
    pane: int,
    id: Seq<char>,
) -> bool {
    &&& 0 <= at < workspaces.len()
    &&& 0 <= tab < workspaces[at].tabs@.len()
    &&& 0 <= pane < workspaces[at].tabs@[tab].panes@.len()
    &&& workspaces[at].tabs@[tab].panes@[pane].state.attached_terminal_id@ == id
}

/// A terminal is shown exactly where some pane shows it.
proof fn lemma_shown(workspaces: Seq<Workspace>, id: Seq<char>)
    ensures
        crate::app::layout::shown(workspaces, id) == exists|at: int, tab: int, pane: int|
            shows_terminal(workspaces, at, tab, pane, id),
{
    let key = crate::app::state::PaneKeyView::Terminal(id);
    crate::search::lemma_any(workspaces, crate::app::state::workspace_has(key));
    if crate::app::layout::shown(workspaces, id) {
        let at = choose|j: int|
            0 <= j < workspaces.len() && crate::app::state::workspace_has(key)(
                #[trigger] workspaces[j],
            );
        crate::search::lemma_any(workspaces[at].tabs@, crate::app::state::tab_has(key));
        let tab = choose|j: int|
            0 <= j < workspaces[at].tabs@.len() && crate::app::state::tab_has(key)(
                #[trigger] workspaces[at].tabs@[j],
            );
        crate::search::lemma_any(
            workspaces[at].tabs@[tab].panes@,
            crate::app::state::pane_has(key),
        );
        let pane = choose|j: int|
            0 <= j < workspaces[at].tabs@[tab].panes@.len() && crate::app::state::pane_has(key)(
                #[trigger] workspaces[at].tabs@[tab].panes@[j],
            );
        assert(shows_terminal(workspaces, at, tab, pane, id));
    }
    assert forall|at: int, tab: int, pane: int|
        shows_terminal(workspaces, at, tab, pane, id) implies crate::app::layout::shown(
        workspaces,
        id,
    ) by {
        crate::search::lemma_any(
            workspaces[at].tabs@[tab].panes@,
            crate::app::state::pane_has(key),
        );
        assert(crate::app::state::pane_has(key)(workspaces[at].tabs@[tab].panes@[pane]));
        crate::search::lemma_any(workspaces[at].tabs@, crate::app::state::tab_has(key));
        assert(crate::app::state::tab_has(key)(workspaces[at].tabs@[tab]));
        assert(crate::app::state::workspace_has(key)(workspaces[at]));
    }
}

/// A terminal that was registered runs what it was registered with, and is known; the
/// others run what they ran.
pub proof fn law_a_registered_terminal_runs(id: TerminalId, runtime: TerminalRuntime)
    ensures
        forall|app: &mut App| #[trigger]
            call_ensures(App::register_terminal, (app, id, runtime), ()) ==> registered(
                *app,
                *final(app),
                id,
                runtime,
            ),
        forall|app: &mut App| #[trigger]
            call_ensures(App::register_peer_terminal, (app, id, runtime), ()) ==> registered(
                *app,
                *final(app),
                id,
                runtime,
            ),
{
    assert forall|before: App, after: App| #[trigger]
        crate::app::layout::registers(before, after, id, runtime) implies registered(
        before,
        after,
        id,
        runtime,
    ) by {
        let entries = before.terminal_runtimes@;
        let at = crate::app::state::runtime_at(entries, id@);
        crate::search::lemma_first(entries, crate::app::state::of_terminal(id@), 0);
        let now = after.terminal_runtimes@;
        assert(now[at].terminal_id@ == id@ && now[at].runtime == runtime);
        crate::search::lemma_any(
            before.state.terminals@,
            crate::app::layout::is_terminal(id@),
        );
        if after.state.terminals@ != before.state.terminals@ {
            assert(after.state.terminals@.last()@ == id@);
        }
        assert forall|j: int|
            0 <= j < entries.len() && (
            #[trigger] entries[j]).terminal_id@ != id@ implies after.terminal_runtimes@[j]
            == entries[j] by {}
    }
}

/// The terminal runs this, and is one of those that are known.
pub open spec fn registered(
    before: App,
    after: App,
    id: TerminalId,
    runtime: TerminalRuntime,
) -> bool {
    &&& exists|j: int|
        0 <= j < after.terminal_runtimes@.len() && (
        #[trigger] after.terminal_runtimes@[j]).terminal_id@ == id@
            && after.terminal_runtimes@[j].runtime == runtime
    &&& exists|j: int|
        0 <= j < after.state.terminals@.len() && (#[trigger] after.state.terminals@[j])@ == id@
    &&& forall|j: int|
        0 <= j < before.terminal_runtimes@.len() && (
        #[trigger] before.terminal_runtimes@[j]).terminal_id@ != id@
            ==> after.terminal_runtimes@[j] == before.terminal_runtimes@[j]
    &&& after.state.workspaces == before.state.workspaces
    &&& after.state.active == before.state.active
    &&& after.state.selected == before.state.selected
    &&& after.state.mode == before.state.mode
}

/// What was shown stays shown when another workspace closes: it moves up by one when
/// it stood behind the closed one. When the shown one closes, the one that takes its
/// place is shown, else the one before it, and none when none is left.
pub open spec fn stays_shown(before: App, after: App, at: int) -> bool {
    let left = before.state.workspaces@.len() - 1;
    match before.state.active {
        None => after.state.active is None,
        Some(was) => {
            &&& left == 0 ==> after.state.active is None
            &&& left > 0 && was < at ==> after.state.active == Some(was)
            &&& left > 0 && at < was <= left ==> after.state.active == Some((was - 1) as usize)
            &&& left > 0 && was == at && at < left ==> after.state.active == Some(at as usize)
            &&& left > 0 && was == at && at == left ==> after.state.active == Some(
                (left - 1) as usize,
            )
        },
    }
}

/// What ends with a closing is what only the closed panes showed: a terminal that is
/// still shown runs on.
pub open spec fn runs_on(before: App, after: App, ended: Seq<RuntimeEntry>) -> bool {
    &&& forall|i: int, at: int, tab: int, pane: int|
        0 <= i < ended.len() ==> !#[trigger] shows_terminal(
            after.state.workspaces@,
            at,
            tab,
            pane,
            (#[trigger] ended[i]).terminal_id@,
        )
    &&& forall|i: int, at: int, tab: int, pane: int|
        0 <= i < before.terminal_runtimes@.len() && #[trigger] shows_terminal(
            after.state.workspaces@,
            at,
            tab,
            pane,
            (#[trigger] before.terminal_runtimes@[i]).terminal_id@,
        ) ==> after.terminal_runtimes@.contains(before.terminal_runtimes@[i])
    &&& ended.len() + after.terminal_runtimes@.len() == before.terminal_runtimes@.len()
}

proof fn lemma_split_filter(s: Seq<RuntimeEntry>, p: spec_fn(RuntimeEntry) -> bool)
    ensures
        s.filter(p).len() + s.filter(crate::search::lacks(p)).len() == s.len(),
    decreases s.len(),
{
    reveal(Seq::filter);
    if s.len() > 0 {
        lemma_split_filter(s.drop_last(), p);
    }
}

proof fn lemma_runs_on(
    before: App,
    after: App,
    ended: Seq<RuntimeEntry>,
    p: spec_fn(TerminalId) -> bool,
)
    requires
        crate::app::layout::released(before, after, ended, p),
    ensures
        runs_on(before, after, ended),
{
    let left = after.state.workspaces@;
    let entries = before.terminal_runtimes@;
    let ends = crate::app::layout::runs_unattached(left, before.state.terminals@, p);
    lemma_split_filter(entries, ends);
    assert forall|i: int, at: int, tab: int, pane: int|
        0 <= i < ended.len() implies !#[trigger] shows_terminal(
        left,
        at,
        tab,
        pane,
        (#[trigger] ended[i]).terminal_id@,
    ) by {
        entries.lemma_filter_pred(ends, i);
        lemma_shown(left, ended[i].terminal_id@);
    }
    assert forall|i: int, at: int, tab: int, pane: int|
        0 <= i < entries.len() && #[trigger] shows_terminal(
            left,
            at,
            tab,
            pane,
            (#[trigger] entries[i]).terminal_id@,
        ) implies after.terminal_runtimes@.contains(entries[i]) by {
        lemma_shown(left, entries[i].terminal_id@);
        entries.lemma_filter_contains(crate::search::lacks(ends), i);
    }
}

/// A workspace that closes is handed back; the others keep their order, the cursor
/// stays on the place it was closed at, what was shown stays shown, and what is still
/// shown runs on.
pub proof fn law_a_closed_workspace_leaves_the_others(at: usize)
    ensures
        forall|app: &mut App, r: (Workspace, Vec<RuntimeEntry>)| #[trigger]
            call_ensures(App::close_workspace, (app, at), r) && at < (*app).state.workspaces@.len()
                ==> {
                &&& r.0 == (*app).state.workspaces@[at as int]
                &&& (*final(app)).state.workspaces@ == (*app).state.workspaces@.remove(at as int)
                &&& stays_shown(*app, *final(app), at as int)
                &&& runs_on(*app, *final(app), r.1@)
                &&& at + 1 < (*app).state.workspaces@.len() ==> (*final(app)).state.selected == at
                &&& at + 1 == (*app).state.workspaces@.len() && at > 0 ==> (*final(app)).state.selected == at - 1
                &&& (*final(app)).state.peers == (*app).state.peers
                &&& (*final(app)).state.mode == (*app).state.mode
            },
{
    assert forall|app: &mut App, r: (Workspace, Vec<RuntimeEntry>)| #[trigger]
        call_ensures(App::close_workspace, (app, at), r) && at < (
        *app).state.workspaces@.len() implies runs_on(*app, *final(app), r.1@) by {
        lemma_runs_on(
            *app,
            *final(app),
            r.1@,
            crate::app::layout::shown_in((*app).state.workspaces@[at as int]),
        );
    }
}

/// A pane that is taken out leaves the others of its tab; its tab goes with its last
/// pane, and its workspace with its last tab. What is still shown runs on.
pub open spec fn pane_is_out(
    before: App,
    after: App,
    ended: Seq<RuntimeEntry>,
    at: int,
    tab: int,
    pane: int,
) -> bool {
    let was = before.state.workspaces@[at];
    let panes = was.tabs@[tab].panes@;
    &&& runs_on(before, after, ended)
    &&& was.tabs@.len() == 1 && panes.len() == 1 ==> {
        &&& after.state.workspaces@ == before.state.workspaces@.remove(at)
        &&& stays_shown(before, after, at)
    }
    &&& was.tabs@.len() > 1 && panes.len() == 1 ==> {
        let now = after.state.workspaces@[at];
        &&& after.state.workspaces@.len() == before.state.workspaces@.len()
        &&& now.tabs@ == was.tabs@.remove(tab)
        &&& was.active_tab < tab ==> now.active_tab == was.active_tab
        &&& tab < was.active_tab < was.tabs@.len() ==> now.active_tab == was.active_tab - 1
        &&& after.state.active == before.state.active
        &&& after.state.selected == before.state.selected
        &&& now.peer == was.peer && now.id == was.id && now.label == was.label
    }
    &&& panes.len() > 1 ==> {
        let now = after.state.workspaces@[at];
        &&& after.state.workspaces@.len() == before.state.workspaces@.len()
        &&& now.tabs@.len() == was.tabs@.len()
        &&& now.tabs@[tab].panes@ == panes.remove(pane)
        &&& now.active_tab == was.active_tab
        &&& now.focused_pane == was.focused_pane || was.focused_pane == Some(panes[pane].id)
        &&& was.focused_pane == Some(panes[pane].id) && was.active_tab == tab
            ==> now.focused_pane == Some(
            if pane == 0 {
                panes[1].id
            } else {
                panes[0].id
            },
        )
        &&& after.state.active == before.state.active
        &&& after.state.selected == before.state.selected
    }
}

/// A pane is taken out as [`pane_is_out`] says.
pub proof fn law_a_removed_pane_leaves_the_others(at: usize, tab: usize, pane: usize)
    ensures
        forall|app: &mut App, r: Vec<RuntimeEntry>| #[trigger]
            call_ensures(App::remove_pane, (app, at, tab, pane), r) && at < (
            *app).state.workspaces@.len() && tab < (
            *app).state.workspaces@[at as int].tabs@.len() && pane < (
            *app).state.workspaces@[at as int].tabs@[tab as int].panes@.len() ==> pane_is_out(
                *app,
                *final(app),
                r@,
                at as int,
                tab as int,
                pane as int,
            ),
{
    assert forall|app: &mut App, r: Vec<RuntimeEntry>| #[trigger]
        call_ensures(App::remove_pane, (app, at, tab, pane), r) && at < (
        *app).state.workspaces@.len() && tab < (*app).state.workspaces@[at as int].tabs@.len()
            && pane < (
        *app).state.workspaces@[at as int].tabs@[tab as int].panes@.len() implies pane_is_out(
        *app,
        *final(app),
        r@,
        at as int,
        tab as int,
        pane as int,
    ) by {
        let was = (*app).state.workspaces@[at as int];
        let panes = was.tabs@[tab as int].panes@;
        if was.tabs@.len() == 1 && panes.len() == 1 {
            lemma_runs_on(*app, *final(app), r@, crate::app::layout::shown_in(was));
        } else {
            lemma_runs_on(
                *app,
                *final(app),
                r@,
                crate::app::layout::is_terminal(
                    panes[pane as int].state.attached_terminal_id@,
                ),
            );
        }
    }
}

/// A view that is put into a workspace of its own is the last one, is the peer's, and
/// shows the terminal it runs.
pub proof fn law_an_attached_workspace_is_last(
    peer: String,
    peer_workspace: Option<String>,
    label: String,
    runtime: TerminalRuntime,
    focus: bool,
    fresh: crate::app::layout::FreshWorkspace,
)
    ensures
        forall|app: &mut App, r: usize| #[trigger]
            call_ensures(
                App::create_attached_workspace,
                (app, peer, peer_workspace, label, runtime, focus, fresh),
                r,
            ) ==> {
                let added = (*final(app)).state.workspaces@.last();
                &&& r == (*app).state.workspaces@.len()
                &&& (*final(app)).state.workspaces@.len() == r + 1
                &&& added.id == fresh.id
                &&& added.public_id == fresh.public_id
                &&& added.peer is Some && added.peer->0@ == peer@
                &&& added.peer_workspace == peer_workspace
                &&& added.label is Some && added.label->0@ == label@
                &&& shows_terminal(
                    (*final(app)).state.workspaces@,
                    r as int,
                    0,
                    0,
                    fresh.tab.pane.terminal_id@,
                )
                &&& focus ==> (*final(app)).state.active == Some(r) && (*final(app)).state.selected == r
                &&& !focus ==> (*final(app)).state.active == (*app).state.active && (*final(app)).state.selected == (*app).state.selected
            },
{
}

/// The peer cannot be asked to close a pane, and this is why.
pub open spec fn why_unreachable(peers: Seq<PeerView>, q: int, peer: Seq<char>, why: Seq<char>) -> bool {
    &&& is_no_peer(peers, peer) ==> why == "peer is no longer configured"@
    &&& is_peer(peers, q, peer) ==> {
        &&& peers[q].connection is Connecting ==> why == "peer is "@ + "connecting"@
        &&& peers[q].connection is Reconnecting ==> why == "peer is "@ + "reconnecting"@
        &&& peers[q].connection is Error ==> why == "peer is "@ + "error"@
        &&& peers[q].connection is Connected && peers[q].api_socket() is None ==> why
            == "peer has no transport"@
        &&& peers[q].connection is Connected && peers[q].api_socket() is Some
            && peers[q].identity is None ==> why == "peer has no instance identity"@
    }
}

/// The close is for this pane of this peer, goes to the socket the peer answers on,
/// and says why where the peer does not answer.
pub open spec fn close_goes(
    peers: Seq<PeerView>,
    close: PaneClose,
    peer: Seq<char>,
    pane: Seq<char>,
    expected: Option<Seq<char>>,
    q: int,
) -> bool {
    &&& close.handle@ == peer
    &&& close.peer_pane_id@ == pane
    &&& crate::text::opt_view(close.expected_instance) == expected
    &&& is_peer(peers, q, peer) ==> (close.route matches Ok(route) ==> answers_on(
        peers[q],
        route.api_socket@,
        route.instance_id@,
    ))
    &&& is_peer(peers, q, peer) && peers[q].connection is Connected && peers[q].api_socket() is Some
        && peers[q].identity is Some ==> close.route is Ok
    &&& is_no_peer(peers, peer) ==> close.route is Err
    &&& close.route matches Err(why) ==> why_unreachable(peers, q, peer, why@)
}

proof fn lemma_close_goes(
    peers: Seq<PeerView>,
    close: PaneClose,
    peer: Seq<char>,
    pane: Seq<char>,
    expected: Option<Seq<char>>,
    q: int,
)
    requires
        crate::app::api::peers::lifecycle::closes_pane(peers, close, peer, pane, expected),
    ensures
        close_goes(peers, close, peer, pane, expected, q),
{
    let p = crate::app::peers::has_handle(peer);
    crate::search::lemma_first(peers, p, 0);
    if is_peer(peers, q, peer) {
        crate::search::lemma_first_is(peers, p, 0, q);
    }
    if is_no_peer(peers, peer) {
        crate::search::lemma_first_is(peers, p, 0, peers.len() as int);
    }
}

/// A pane is closed where it runs.
pub proof fn law_a_close_goes_to_its_peer(
    app: App,
    peer: &str,
    pane: &str,
    expected: Option<String>,
    close: PaneClose,
    q: int,
)
    requires
        call_ensures(App::close_spawned_peer_pane, (&app, peer, pane, expected), close),
    ensures
        close_goes(
            app.state.peers@,
            close,
            peer@,
            pane@,
            crate::text::opt_view(expected),
            q,
        ),
{
    lemma_close_goes(app.state.peers@, close, peer@, pane@, crate::text::opt_view(expected), q);
}

/// A view that is thrown away takes the pane that was made for it along, and leaves
/// any other pane alone.
pub proof fn law_a_discarded_view_closes_only_its_own_pane(
    app: App,
    view: RemoteView,
    r: Discarded,
    q: int,
)
    requires
        call_ensures(App::discard_spawned_peer_view, (&app, view), r),
    ensures
        r.view == view,
        r.close is Some == view.spawned_on_peer,
        r.close matches Some(close) ==> close_goes(
            app.state.peers@,
            close,
            view.peer@,
            view.target@,
            crate::text::opt_view(view.instance),
            q,
        ),
{
    if r.close is Some {
        lemma_close_goes(
            app.state.peers@,
            r.close->0,
            view.peer@,
            view.target@,
            crate::text::opt_view(view.instance),
            q,
        );
    }
}

/// A close that worked is not spoken of; one that did not is reported with what
/// undoes the leak: the pane, and the server it runs on.
pub proof fn law_a_failed_close_is_reported(
    close: PaneClose,
    outcome: Result<(), String>,
    r: Option<AppEvent>,
)
    requires
        call_ensures(
            crate::app::api::peers::lifecycle::report_pane_close,
            (close, outcome),
            r,
        ),
    ensures
        r is None == (close.route is Ok && outcome is Ok),
        r matches Some(event) ==> {
            &&& event matches AppEvent::PeerPaneCleanupFailed {
                handle,
                peer_pane_id,
                expected_instance,
                reason,
            }
            &&& handle == close.handle
            &&& peer_pane_id == close.peer_pane_id
            &&& expected_instance == close.expected_instance
            &&& close.route matches Err(why) ==> reason == why
            &&& close.route is Ok ==> outcome is Err && reason == outcome->Err_0
        },
{
}

/// The entry runs a view whose pane was made for it.
pub open spec fn runs_made_pane(entry: RuntimeEntry) -> bool {
    entry.runtime matches TerminalRuntime::Remote(view) && view.spawned_on_peer
}

/// The close is for the pane that the entry's view shows.
pub open spec fn is_close_of(close: PaneClose, entry: RuntimeEntry) -> bool {
    &&& entry.runtime matches TerminalRuntime::Remote(view)
    &&& close.handle@ == view.peer@
    &&& close.peer_pane_id@ == view.target@
    &&& crate::text::opt_view(close.expected_instance) == crate::text::opt_view(view.instance)
}

/// The close is for a pane that was made for one of these views.
pub open spec fn closes_one_of(close: PaneClose, ended: Seq<RuntimeEntry>) -> bool {
    exists|j: int|
        0 <= j < ended.len() && runs_made_pane(#[trigger] ended[j]) && is_close_of(close, ended[j])
}

/// Of the views that ended, those whose pane was made for them are closed on their
/// peer, and the others are not.
pub proof fn law_ended_views_close_their_own_panes(
    app: App,
    ended: &Vec<RuntimeEntry>,
    r: Vec<PaneClose>,
)
    requires
        call_ensures(App::close_ended_views, (&app, ended), r),
    ensures
        forall|i: int| 0 <= i < r@.len() ==> closes_one_of(#[trigger] r@[i], ended@),
        forall|j: int|
            0 <= j < ended@.len() && runs_made_pane(#[trigger] ended@[j]) ==> exists|i: int|
                0 <= i < r@.len() && is_close_of(#[trigger] r@[i], ended@[j]),
{
    let p = crate::app::api::peers::lifecycle::is_spawned();
    let made = ended@.filter(p);
    assert forall|i: int| 0 <= i < r@.len() implies closes_one_of(#[trigger] r@[i], ended@) by {
        ended@.lemma_filter_pred(p, i);
        ended@.lemma_filter_contains_rev(p, made[i]);
        let j = choose|j: int| 0 <= j < ended@.len() && ended@[j] == made[i];
        assert(is_close_of(r@[i], ended@[j]));
    }
    assert forall|j: int|
        0 <= j < ended@.len() && runs_made_pane(#[trigger] ended@[j]) implies exists|i: int|
        0 <= i < r@.len() && is_close_of(#[trigger] r@[i], ended@[j]) by {
        ended@.lemma_filter_contains(p, j);
        let i = choose|i: int| 0 <= i < made.len() && made[i] == ended@[j];
        assert(is_close_of(r@[i], ended@[j]));
    }
}

/// A bare view onto a peer is closed by its terminal's id: an unknown terminal, one
/// that is not a peer's, and one that a pane shows are refused, and change nothing.
pub proof fn law_only_a_bare_view_is_closed(target: TerminalTarget)
    ensures
        forall|app: &mut App, r: Result<(Reply, Vec<RuntimeEntry>), ErrorBody>| #[trigger]
            call_ensures(App::handle_peer_terminal_close, (app, target), r) ==> terminal_is_closed(
                *app,
                *final(app),
                r,
                target.terminal_id@,
            ),
{
    assert forall|app: &mut App, r: Result<(Reply, Vec<RuntimeEntry>), ErrorBody>| #[trigger]
        call_ensures(App::handle_peer_terminal_close, (app, target), r) implies terminal_is_closed(
        *app,
        *final(app),
        r,
        target.terminal_id@,
    ) by {
        let id = target.terminal_id@;
        let p = crate::app::layout::is_terminal(id);
        let known = (*app).state.terminals@;
        crate::search::lemma_first(known, p, 0);
        lemma_shown((*app).state.workspaces@, id);
        if r is Ok {
            let left = (*final(app)).state.workspaces@;
            let q = crate::search::lacks(crate::app::layout::unattached(left, p));
            assert forall|i: int| 0 <= i < (*final(app)).state.terminals@.len() implies (
            #[trigger] (*final(app)).state.terminals@[i])@ != id by {
                known.lemma_filter_pred(q, i);
            }
            let ends = crate::app::layout::runs_unattached(left, known, p);
            assert forall|i: int| 0 <= i < r->Ok_0.1@.len() implies (
            #[trigger] r->Ok_0.1@[i]).terminal_id@ == id by {
                (*app).terminal_runtimes@.lemma_filter_pred(ends, i);
            }
            assert(known[crate::search::first(known, p, 0)]@ == id);
        }
        if known.len() > crate::search::first(known, p, 0) {
            assert(known[crate::search::first(known, p, 0)]@ == id);
        } else {
            assert forall|i: int| 0 <= i < known.len() implies (#[trigger] known[i])@ != id by {
                assert(!p(known[i]));
            }
        }
    }
}

/// The terminal is gone, or it was refused.
pub open spec fn terminal_is_closed(
    before: App,
    after: App,
    r: Result<(Reply, Vec<RuntimeEntry>), ErrorBody>,
    id: Seq<char>,
) -> bool {
    let known = exists|i: int|
        0 <= i < before.state.terminals@.len() && (#[trigger] before.state.terminals@[i])@ == id;
    &&& r is Err ==> after == before
    &&& !known ==> r is Err && r->Err_0@.0 == "not_found"@
    &&& known && r is Err ==> r->Err_0@.0 == "invalid_request"@
    &&& (exists|at: int, tab: int, pane: int|
        shows_terminal(before.state.workspaces@, at, tab, pane, id)) ==> r is Err
    &&& r matches Ok((reply, ended)) ==> {
        &&& reply matches Reply::TerminalClosed { terminal_id }
        &&& terminal_id@ == id
        &&& forall|i: int|
            0 <= i < after.state.terminals@.len() ==> (#[trigger] after.state.terminals@[i])@ != id
        &&& forall|i: int| 0 <= i < ended@.len() ==> (#[trigger] ended@[i]).terminal_id@ == id
        &&& after.state.workspaces == before.state.workspaces
        &&& after.state.active == before.state.active
        &&& after.state.selected == before.state.selected
    }
}

/// Removing a peer's views takes every workspace of that peer and no other, and
/// announces each of them closed.
pub proof fn law_closing_a_peers_views_takes_only_them(handle: &PeerHandle)
    ensures
        forall|app: &mut App, r: ClosedViews| #[trigger]
            call_ensures(App::close_views_backed_by_peer, (app, handle), r) ==> {
                let left = (*final(app)).state.workspaces@;
                let all = (*app).state.workspaces@;
                &&& forall|i: int|
                    0 <= i < left.len() ==> all.contains(left[i]) && !((
                    #[trigger] left[i]).peer is Some && left[i].peer->0@ == handle@)
                &&& forall|i: int|
                    0 <= i < r.workspaces@.len() ==> all.contains(r.workspaces@[i]) && (
                    #[trigger] r.workspaces@[i]).peer is Some && r.workspaces@[i].peer->0@
                        == handle@
                &&& forall|i: int|
                    0 <= i < all.len() ==> left.contains(all[i]) || r.workspaces@.contains(
                        #[trigger] all[i],
                    )
                &&& r.events@.len() == r.workspaces@.len()
                &&& forall|i: int|
                    0 <= i < r.events@.len() ==> (#[trigger] r.events@[i])
                        == (Announcement::WorkspaceClosed {
                        workspace_id: r.workspaces@[i].public_id,
                    })
                &&& runs_on(*app, *final(app), r.ended@)
            },
{
    assert forall|app: &mut App, r: ClosedViews| #[trigger]
        call_ensures(App::close_views_backed_by_peer, (app, handle), r) implies {
        let left = (*final(app)).state.workspaces@;
        let all = (*app).state.workspaces@;
        &&& forall|i: int|
            0 <= i < left.len() ==> all.contains(left[i]) && !((#[trigger] left[i]).peer is Some
                && left[i].peer->0@ == handle@)
        &&& forall|i: int|
            0 <= i < r.workspaces@.len() ==> all.contains(r.workspaces@[i]) && (
            #[trigger] r.workspaces@[i]).peer is Some && r.workspaces@[i].peer->0@ == handle@
        &&& forall|i: int|
            0 <= i < all.len() ==> left.contains(all[i]) || r.workspaces@.contains(
                #[trigger] all[i],
            )
        &&& r.events@.len() == r.workspaces@.len()
        &&& forall|i: int|
            0 <= i < r.events@.len() ==> (#[trigger] r.events@[i]) == (
            Announcement::WorkspaceClosed { workspace_id: r.workspaces@[i].public_id })
        &&& runs_on(*app, *final(app), r.ended@)
    } by {
        let all = (*app).state.workspaces@;
        let p = crate::app::api::peers::lifecycle::backed_by(handle@);
        let n = crate::search::lacks(p);
        lemma_runs_on(
            *app,
            *final(app),
            r.ended@,
            crate::app::api::peers::lifecycle::shown_by(r.workspaces@),
        );
        assert forall|i: int| 0 <= i < all.filter(n).len() implies all.contains(all.filter(n)[i])
            && !((#[trigger] all.filter(n)[i]).peer is Some && all.filter(n)[i].peer->0@
            == handle@) by {
            all.lemma_filter_pred(n, i);
            all.lemma_filter_contains_rev(n, all.filter(n)[i]);
        }
        assert forall|i: int| 0 <= i < all.filter(p).len() implies all.contains(all.filter(p)[i])
            && (#[trigger] all.filter(p)[i]).peer is Some && all.filter(p)[i].peer->0@
            == handle@ by {
            all.lemma_filter_pred(p, i);
            all.lemma_filter_contains_rev(p, all.filter(p)[i]);
        }
        assert forall|i: int| 0 <= i < all.len() implies all.filter(n).contains(all[i])
            || all.filter(p).contains(#[trigger] all[i]) by {
            if p(all[i]) {
                all.lemma_filter_contains(p, i);
            } else {
                all.lemma_filter_contains(n, i);
            }
        }
    }
}

/// A cleanup is retried only on the server that it was recorded against, and is no
/// longer retained once it is.
pub proof fn law_retried_cleanups_go_back(handle: &PeerHandle, q: int)
    ensures
        forall|app: &mut App, r: Vec<PaneClose>| #[trigger]
            call_ensures(App::retry_pending_pane_cleanups, (app, handle), r) && is_peer(
                (*app).state.peers@,
                q,
                handle@,
            ) ==> cleanups_go_back(*app, *final(app), r@, handle@, q),
        forall|app: &mut App, r: Vec<PaneClose>| #[trigger]
            call_ensures(App::retry_pending_pane_cleanups, (app, handle), r) && is_no_peer(
                (*app).state.peers@,
                handle@,
            ) ==> r@.len() == 0 && (*final(app)).state.peers@ == (*app).state.peers@,
{
    assert forall|app: &mut App, r: Vec<PaneClose>| #[trigger]
        call_ensures(App::retry_pending_pane_cleanups, (app, handle), r) && is_peer(
            (*app).state.peers@,
            q,
            handle@,
        ) implies cleanups_go_back(*app, *final(app), r@, handle@, q) by {
        let peers = (*app).state.peers@;
        crate::search::lemma_first_is(peers, crate::app::peers::has_handle(handle@), 0, q);
        if peers[q].identity is Some {
            let id = peers[q].identity->0.instance_id;
            let held = peers[q].pending_pane_cleanups;
            crate::app::peers::law_cleanups_go_back_to_their_own_server(held, id);
            let taken = held.filter(crate::app::peers::cleanup_expects(id));
            assert forall|i: int| 0 <= i < r@.len() implies (#[trigger] r@[i]).handle@ == handle@
                && crate::text::opt_view(r@[i].expected_instance) == Some(id) by {
                assert(taken[i].expected_instance == Some(id));
            }
        }
    }
    assert forall|app: &mut App, r: Vec<PaneClose>| #[trigger]
        call_ensures(App::retry_pending_pane_cleanups, (app, handle), r) && is_no_peer(
            (*app).state.peers@,
            handle@,
        ) implies r@.len() == 0 && (*final(app)).state.peers@ == (*app).state.peers@ by {
        let peers = (*app).state.peers@;
        crate::search::lemma_first_is(
            peers,
            crate::app::peers::has_handle(handle@),
            0,
            peers.len() as int,
        );
    }
}

/// The retried cleanups are those of the server that answers.
pub open spec fn cleanups_go_back(
    before: App,
    after: App,
    closes: Seq<PaneClose>,
    handle: Seq<char>,
    q: int,
) -> bool {
    let was = before.state.peers@[q];
    let now = after.state.peers@[q];
    &&& after.state.peers@.len() == before.state.peers@.len()
    &&& after.state.workspaces == before.state.workspaces
    &&& was.identity is None ==> closes.len() == 0 && now == was
    &&& was.identity is Some ==> {
        let id = was.identity->0.instance_id;
        &&& closes.len() + now.pending_pane_cleanups.len() == was.pending_pane_cleanups.len()
        &&& now.identity == was.identity && now.connection == was.connection && now.workspaces
            == was.workspaces
        &&& forall|i: int|
            0 <= i < closes.len() ==> (#[trigger] closes[i]).handle@ == handle
                && crate::text::opt_view(closes[i].expected_instance) == Some(id)
        &&& forall|i: int|
            0 <= i < now.pending_pane_cleanups.len() ==> (
            #[trigger] now.pending_pane_cleanups[i]).expected_instance != Some(id)
    }
}

/// What is announced of an answer: a new tab, a new pane and its layout, a worktree
/// that was made or opened, and nothing of the rest. Each event is of its own kind.
pub proof fn law_answers_are_announced(reply: Reply, r: Vec<Announcement>)
    requires
        call_ensures(Reply::announcements, (&reply,), r),
    ensures
        reply matches Reply::Tab { ws_idx, tab_idx } ==> {
            &&& r@.len() == 1
            &&& r@[0] == (Announcement::TabCreated { ws_idx, tab_idx })
        },
        reply matches Reply::Pane { ws_idx, tab_idx, pane_id, .. } ==> {
            &&& r@.len() == 2
            &&& r@[0] == (Announcement::PaneCreated { ws_idx, pane_id })
            &&& r@[1] == (Announcement::LayoutUpdated { ws_idx, tab_idx })
        },
        reply matches Reply::WorktreeCreated { ws_idx, worktree, .. } ==> {
            &&& r@.len() == 1
            &&& r@[0] == (Announcement::WorktreeCreated { ws_idx, worktree })
        },
        reply matches Reply::WorktreeOpened { ws_idx, worktree, already_open, .. } ==> {
            &&& r@.len() == 1
            &&& r@[0] == (Announcement::WorktreeOpened { ws_idx, worktree, already_open })
        },
        reply is Error ==> r@.len() == 0,
        reply is Workspace ==> r@.len() == 0,
        reply is TerminalClosed ==> r@.len() == 0,
        reply is PeerTerminal ==> r@.len() == 0,
{
}

/// Each announcement is of its own kind.
pub proof fn law_announcements_have_their_kind(event: Announcement, r: EventKind)
    requires
        call_ensures(Announcement::kind, (&event,), r),
    ensures
        event is TabCreated ==> r == EventKind::TabCreated,
        event is PaneCreated ==> r == EventKind::PaneCreated,
        event is LayoutUpdated ==> r == EventKind::LayoutUpdated,
        event is WorkspaceClosed ==> r == EventKind::WorkspaceClosed,
        event is WorktreeCreated ==> r == EventKind::WorktreeCreated,
        event is WorktreeOpened ==> r == EventKind::WorktreeOpened,
        event is WorktreeRemoved ==> r == EventKind::WorktreeRemoved,
{
}

/// A pane is found by its public id, a workspace by its own, and an agent by its name.
pub proof fn law_ids_find_what_they_name(
    app: App,
    id: &str,
    workspace: Option<usize>,
    internal: Option<usize>,
    agent: Option<(usize, PaneId)>,
)
    requires
        call_ensures(App::parse_workspace_id, (&app, id), workspace),
        call_ensures(App::workspace_position, (&app, id), internal),
        call_ensures(App::resolve_agent_target, (&app, id), agent),
    ensures
        workspace matches Some(at) ==> at < app.state.workspaces@.len()
            && app.state.workspaces@[at as int].public_id@ == id@,
        workspace is None ==> forall|j: int|
            0 <= j < app.state.workspaces@.len() ==> (
            #[trigger] app.state.workspaces@[j]).public_id@ != id@,
        internal matches Some(at) ==> at < app.state.workspaces@.len()
            && app.state.workspaces@[at as int].id@ == id@,
        internal is None ==> forall|j: int|
            0 <= j < app.state.workspaces@.len() ==> (#[trigger] app.state.workspaces@[j]).id@
                != id@,
        agent matches Some((at, pane)) ==> exists|j: int|
            0 <= j < app.state.agents@.len() && (#[trigger] app.state.agents@[j]).name@ == id@
                && app.state.agents@[j].ws_idx == at && app.state.agents@[j].pane_id == pane,
        agent is None ==> forall|j: int|
            0 <= j < app.state.agents@.len() ==> (#[trigger] app.state.agents@[j]).name@ != id@,
{
    let workspaces = app.state.workspaces@;
    let by_public = crate::app::state::has_public_id(id@);
    let by_id = crate::app::state::has_id(id@);
    let named = crate::app::state::agent_named(id@);
    crate::search::lemma_first(workspaces, by_public, 0);
    crate::search::lemma_first(workspaces, by_id, 0);
    crate::search::lemma_first(app.state.agents@, named, 0);
    assert forall|j: int| 0 <= j < workspaces.len() && workspace is None implies (
    #[trigger] workspaces[j]).public_id@ != id@ by {
        assert(!by_public(workspaces[j]));
    }
    assert forall|j: int| 0 <= j < workspaces.len() && internal is None implies (
    #[trigger] workspaces[j]).id@ != id@ by {
        assert(!by_id(workspaces[j]));
    }
    assert forall|j: int| 0 <= j < app.state.agents@.len() && agent is None implies (
    #[trigger] app.state.agents@[j]).name@ != id@ by {
        assert(!named(app.state.agents@[j]));
    }
}

/// An outcome is shown as a toast, with its title and its context.
pub proof fn law_an_outcome_is_shown(title: String, context: &str)
    ensures
        forall|app: &mut App| #[trigger]
            call_ensures(App::report_action_outcome, (app, title, context), ()) ==> {
                &&& (*final(app)).state.toast is Some
                &&& (*final(app)).state.toast->0.title@ == title@
                &&& (*final(app)).state.toast->0.context@ == context@
                &&& (*final(app)).state.workspaces == (*app).state.workspaces
                &&& (*final(app)).state.mode == (*app).state.mode
                &&& (*final(app)).state.active == (*app).state.active
            },
{
}

/// Behind a dialog is a terminal where a workspace is shown, and the list where none
/// is.
pub proof fn law_a_dialog_has_its_mode_behind_it(app: App, r: Mode)
    requires
        call_ensures(App::mode_behind_dialog, (&app,), r),
    ensures
        app.state.active is Some ==> r == Mode::Terminal,
        app.state.active is None ==> r == Mode::Navigate,
{
}

/// A new pane is a terminal that counts as seen, under the ids that were made for it
/// and without a label.
pub proof fn law_a_new_pane_is_a_seen_terminal(
    fresh: crate::app::layout::FreshPane,
    split: Option<crate::app::state::Split>,
)
    ensures
        ({
            let pane = crate::app::layout::new_pane(fresh, split);
            &&& pane.state.seen
            &&& pane.state.kind is Terminal
            &&& pane.state.attached_terminal_id == fresh.terminal_id
            &&& pane.id == fresh.id
            &&& pane.public_id == fresh.public_id
            &&& pane.label is None
            &&& pane.split == split
        }),
{
}

} // verus!
