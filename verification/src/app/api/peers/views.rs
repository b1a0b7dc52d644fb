//! Keeping peer-backed views alive.
//!
//! Runs from the server loop, declaratively: the desired state is "every view is
//! connected to the server it was opened against", and comparing against it every
//! tick catches failures no single event announces.

use vstd::prelude::*;

use crate::api::schema::requests::PaneInfo;
use crate::app::api::peers::rewrite::{agent_state_from_status, AgentState};
use crate::app::peers::{PeerConnectionState, PeerHandle};
use crate::app::state::{App, PaneId, PaneKey, RuntimeEntry};
use crate::events::{AppEvent, PeerViewReconnectResult};
use crate::terminal::{
    same_status, RemotePaneMetadata, RemoteView, TerminalId, TerminalRuntime, TerminalSize,
};
use crate::text::{cat3, cat4, opt_clone, opt_eq, str_eq};

verus! {

/// The view behind an entry, if it is a peer's.
pub open spec fn remote(entry: RuntimeEntry) -> Option<RemoteView> {
    match entry.runtime {
        TerminalRuntime::Remote(view) => Some(view),
        _ => None,
    }
}

/// The entry with another view behind it.
pub open spec fn with_view(entry: RuntimeEntry, view: RemoteView) -> RuntimeEntry {
    RuntimeEntry { runtime: TerminalRuntime::Remote(view), ..entry }
}

/// Nothing changed but the runtimes, and no terminal lost or got one.
pub open spec fn only_runtimes(before: App, after: App) -> bool {
    &&& after == (App { terminal_runtimes: after.terminal_runtimes, ..before })
    &&& after.terminal_runtimes@.len() == before.terminal_runtimes@.len()
}

/// The entry once the peer's server was found to be another: its views on other
/// servers claim nothing and are dead.
pub open spec fn is_abandoned(
    was: RuntimeEntry,
    now: RuntimeEntry,
    peer: Seq<char>,
    instance_id: Seq<char>,
) -> bool {
    match remote(was) {
        Some(view) if view.peer@ == peer && view.on_other_server(instance_id) => {
            &&& remote(now) matches Some(left)
            &&& left.dead matches Some(reason)
            &&& reason@ == "the peer was replaced by a different server"@
            &&& now == with_view(
                was,
                RemoteView { spawned_on_peer: false, dead: left.dead, ..view },
            )
        },
        _ => now == was,
    }
}

/// The entry once the waiting views of a peer may try again.
pub open spec fn retried(entry: RuntimeEntry, peer: Seq<char>) -> RuntimeEntry {
    match remote(entry) {
        Some(view) if view.peer@ == peer => with_view(
            entry,
            RemoteView { backoff_over: true, ..view },
        ),
        _ => entry,
    }
}

/// What one sweep does with a view.
pub enum Sweep {
    /// Nothing: it is connected, waiting, or its peer is down.
    Stays,
    /// It stops retrying, for this reason.
    Dies(Seq<char>),
    /// It stops retrying because its peer refused it.
    GivesUp,
    /// An attempt is made: the socket of the peer, and the server to be reached.
    Tries(Seq<char>, Seq<char>),
}

/// What one sweep does with a view.
///
/// A peer that is gone or stopped retrying takes its views with it; one that is
/// only down is waited for.
pub open spec fn sweep_of(peers: Seq<crate::app::peers::PeerView>, view: RemoteView) -> Sweep {
    if !view.due() {
        Sweep::Stays
    } else {
        match crate::search::find(peers, crate::app::peers::has_handle(view.peer@)) {
            None => Sweep::Dies(
                super::resolve::about_peer(
                    "peer '"@,
                    view.peer@,
                    "' is no longer configured"@,
                ),
            ),
            Some(peer) => match peer.connection {
                crate::app::peers::ConnectionView::Error { message } => Sweep::Dies(
                    "peer '"@ + view.peer@ + "' is unavailable: "@ + message,
                ),
                crate::app::peers::ConnectionView::Connected => if peer.api_socket() is Some
                    && peer.instance_id() is Some {
                    if view.refused is Some {
                        Sweep::GivesUp
                    } else {
                        Sweep::Tries(peer.api_socket()->0, peer.instance_id()->0)
                    }
                } else {
                    Sweep::Stays
                },
                _ => Sweep::Stays,
            },
        }
    }
}

/// The entry after one sweep.
pub open spec fn is_swept(
    peers: Seq<crate::app::peers::PeerView>,
    was: RuntimeEntry,
    now: RuntimeEntry,
) -> bool {
    match remote(was) {
        None => now == was,
        Some(view) => match sweep_of(peers, view) {
            Sweep::Stays => now == was,
            Sweep::Dies(why) => {
                &&& remote(now) matches Some(left)
                &&& left.dead matches Some(reason)
                &&& reason@ == why
                &&& now == with_view(was, RemoteView { dead: left.dead, ..view })
            },
            Sweep::GivesUp => now == with_view(was, RemoteView { dead: view.refused, ..view }),
            Sweep::Tries(_, _) => now == with_view(was, RemoteView { in_flight: true, ..view }),
        },
    }
}

/// A sweep makes an attempt for this entry.
pub open spec fn is_tried(
    peers: Seq<crate::app::peers::PeerView>,
) -> spec_fn(RuntimeEntry) -> bool {
    |e: RuntimeEntry| remote(e) is Some && sweep_of(peers, remote(e)->0) is Tries
}

/// A sweep finds that what this entry views does not exist any more. Only a pane
/// or a terminal is gone for good; a name can come back.
pub open spec fn is_gone(peers: Seq<crate::app::peers::PeerView>) -> spec_fn(RuntimeEntry) -> bool {
    |e: RuntimeEntry|
        remote(e) is Some && sweep_of(peers, remote(e)->0) is GivesUp
            && remote(e)->0.names_a_pane() && remote(e)->0.target_gone
}

/// An attempt to reconnect a view. It is never a takeover: the peer lets this
/// server reclaim its own abandoned attach, and anything else holding the
/// terminal is somebody else's session.
#[derive(Debug, PartialEq, Eq)]
pub struct Reconnect {
    pub terminal_id: TerminalId,
    pub peer: String,
    pub target: String,
    /// The peer's API socket, which the terminal socket is derived from. It is
    /// resolved for every attempt: a bridge that was rebuilt answers on a new
    /// path.
    pub api_socket: String,
    pub instance_id: String,
    pub size: TerminalSize,
}

/// The attempt is for this entry.
pub open spec fn is_attempt(
    peers: Seq<crate::app::peers::PeerView>,
    attempt: Reconnect,
    entry: RuntimeEntry,
) -> bool {
    &&& remote(entry) matches Some(view)
    &&& attempt.terminal_id == entry.terminal_id
    &&& attempt.peer == view.peer
    &&& attempt.target == view.target
    &&& attempt.size == view.size
    &&& sweep_of(peers, view) == Sweep::Tries(attempt.api_socket@, attempt.instance_id@)
}

/// One sweep over the views: each is changed as it should be, an attempt is made
/// for those that are to be tried, and those whose target is gone are named.
pub open spec fn sweeps(
    before: App,
    after: App,
    attempts: Seq<Reconnect>,
    gone: Seq<TerminalId>,
) -> bool {
    let peers = before.state.peers@;
    let entries = before.terminal_runtimes@;
    &&& only_runtimes(before, after)
    &&& forall|i: int|
        0 <= i < entries.len() ==> is_swept(
            peers,
            entries[i],
            #[trigger] after.terminal_runtimes@[i],
        )
    &&& attempts.len() == entries.filter(is_tried(peers)).len()
    &&& forall|i: int|
        0 <= i < attempts.len() ==> is_attempt(
            peers,
            #[trigger] attempts[i],
            entries.filter(is_tried(peers))[i],
        )
    &&& gone == entries.filter(is_gone(peers)).map_values(|e: RuntimeEntry| e.terminal_id)
}

impl App {
    /// Stops every view of `handle` that is attached to a server other than
    /// `instance_id`.
    ///
    /// A view's target is a *peer-local* id kept verbatim across reconnects. That
    /// is only sound while the peer is the same server: afterwards the id names an
    /// unrelated pane, so reconnecting would render somebody else's terminal, and
    /// closing the view would close a pane nobody asked about. So the claim goes
    /// first, and the view is marked dead rather than closed.
    pub fn abandon_views_of_replaced_peer(&mut self, handle: &PeerHandle, instance_id: &str)
        ensures
            only_runtimes(*old(self), *final(self)),
            forall|i: int|
                0 <= i < old(self).terminal_runtimes@.len() ==> is_abandoned(
                    old(self).terminal_runtimes@[i],
                    #[trigger] final(self).terminal_runtimes@[i],
                    handle@,
                    instance_id@,
                ),
    {
        let mut i: usize = 0;
        while i < self.terminal_runtimes.len()
            invariant
                i <= self.terminal_runtimes.len(),
                only_runtimes(*old(self), *self),
                forall|j: int|
                    0 <= j < i ==> is_abandoned(
                        old(self).terminal_runtimes@[j],
                        #[trigger] self.terminal_runtimes@[j],
                        handle@,
                        instance_id@,
                    ),
                forall|j: int|
                    i <= j < self.terminal_runtimes@.len() ==> #[trigger] self.terminal_runtimes@[j]
                        == old(self).terminal_runtimes@[j],
            decreases self.terminal_runtimes.len() - i,
        {
            match &mut self.terminal_runtimes[i].runtime {
                TerminalRuntime::Remote(view) => {
                    if str_eq(view.peer.as_str(), handle.as_str()) && view.is_on_other_server(
                        instance_id,
                    ) {
                        view.clear_spawned_on_peer();
                        view.mark_dead("the peer was replaced by a different server".to_owned());
                    }
                },
                TerminalRuntime::Local { .. } => {},
            }
            i += 1;
        }
    }

    /// Retries every view backed by `handle` immediately.
    ///
    /// Called when the peer's own control channel comes back: a view that earned
    /// a long wait while the peer was down should not keep the pane frozen after
    /// it returns.
    pub fn retry_peer_views_now(&mut self, handle: &PeerHandle)
        ensures
            only_runtimes(*old(self), *final(self)),
            forall|i: int|
                0 <= i < old(self).terminal_runtimes@.len() ==> (
                #[trigger] final(self).terminal_runtimes@[i]) == retried(
                    old(self).terminal_runtimes@[i],
                    handle@,
                ),
    {
        let mut i: usize = 0;
        while i < self.terminal_runtimes.len()
            invariant
                i <= self.terminal_runtimes.len(),
                only_runtimes(*old(self), *self),
                forall|j: int|
                    0 <= j < i ==> #[trigger] self.terminal_runtimes@[j] == retried(
                        old(self).terminal_runtimes@[j],
                        handle@,
                    ),
                forall|j: int|
                    i <= j < self.terminal_runtimes@.len() ==> #[trigger] self.terminal_runtimes@[j]
                        == old(self).terminal_runtimes@[j],
            decreases self.terminal_runtimes.len() - i,
        {
            match &mut self.terminal_runtimes[i].runtime {
                TerminalRuntime::Remote(view) => {
                    if str_eq(view.peer.as_str(), handle.as_str()) {
                        view.retry_now();
                    }
                },
                TerminalRuntime::Local { .. } => {},
            }
            i += 1;
        }
    }
}

/// What is known of a peer's reach for one view: where an attempt goes, why none
/// ever will, or neither.
enum Reach {
    Nowhere,
    Never(String),
    At(String, String),
}

impl App {
    /// Where an attempt for a view that is due would go.
    fn reach_for(&self, peer: &str) -> (r: Reach)
        ensures
            forall|view: RemoteView|
                view.due() && view.peer@ == peer@ ==> match r {
                    Reach::Nowhere => sweep_of(self.state.peers@, view) is Stays,
                    Reach::Never(reason) => sweep_of(self.state.peers@, view) == Sweep::Dies(
                        reason@,
                    ),
                    Reach::At(socket, id) => #[trigger] sweep_of(self.state.peers@, view)
                        == if view.refused is Some {
                        Sweep::GivesUp
                    } else {
                        Sweep::Tries(socket@, id@)
                    },
                },
    {
        let handle = PeerHandle::new(peer);
        match self.state.peers.get(&handle) {
            None => Reach::Never(cat3("peer '", peer, "' is no longer configured")),
            Some(state) => match &state.connection {
                // A peer that stopped retrying will not answer, and its views
                // cannot outlast it.
                PeerConnectionState::Error { message } => Reach::Never(
                    cat4("peer '", peer, "' is unavailable: ", message.as_str()),
                ),
                PeerConnectionState::Connected => match (state.api_socket(), state.instance_id()) {
                    (Some(api_socket), Some(instance_id)) => Reach::At(
                        api_socket.to_owned(),
                        instance_id.to_owned(),
                    ),
                    _ => Reach::Nowhere,
                },
                // Still down: the view waits for the peer rather than burning
                // attempts against a socket that cannot answer.
                _ => Reach::Nowhere,
            },
        }
    }

    /// Looks at every view once: starts an attempt for those that dropped, and
    /// names those whose target is gone.
    pub fn sweep_views(&mut self) -> (r: (Vec<Reconnect>, Vec<TerminalId>))
        ensures
            sweeps(*old(self), *final(self), r.0@, r.1@),
    {
        let ghost peers = self.state.peers@;
        let ghost entries = self.terminal_runtimes@;
        let mut attempts: Vec<Reconnect> = Vec::new();
        let mut gone: Vec<TerminalId> = Vec::new();
        let mut i: usize = 0;
        proof {
            reveal(Seq::filter);
            assert(entries.take(0) =~= Seq::empty());
            assert(gone@ =~= entries.take(0).filter(is_gone(peers)).map_values(
                |e: RuntimeEntry| e.terminal_id,
            ));
        }
        while i < self.terminal_runtimes.len()
            invariant
                i <= self.terminal_runtimes.len(),
                only_runtimes(*old(self), *self),
                peers == old(self).state.peers@,
                entries == old(self).terminal_runtimes@,
                forall|j: int|
                    0 <= j < i ==> is_swept(
                        peers,
                        entries[j],
                        #[trigger] self.terminal_runtimes@[j],
                    ),
                forall|j: int|
                    i <= j < self.terminal_runtimes@.len() ==> #[trigger] self.terminal_runtimes@[j]
                        == entries[j],
                attempts@.len() == entries.take(i as int).filter(is_tried(peers)).len(),
                forall|j: int|
                    0 <= j < attempts@.len() ==> is_attempt(
                        peers,
                        #[trigger] attempts@[j],
                        entries.take(i as int).filter(is_tried(peers))[j],
                    ),
                gone@ == entries.take(i as int).filter(is_gone(peers)).map_values(
                    |e: RuntimeEntry| e.terminal_id,
                ),
            decreases self.terminal_runtimes.len() - i,
        {
            let ghost entry = entries[i as int];
            proof {
                crate::search::lemma_filter_step(entries, is_tried(peers), i as int);
                crate::search::lemma_filter_step(entries, is_gone(peers), i as int);
                let kept = entries.take(i as int).filter(is_gone(peers));
                assert(kept.push(entry).map_values(|e: RuntimeEntry| e.terminal_id)
                    =~= kept.map_values(|e: RuntimeEntry| e.terminal_id).push(entry.terminal_id));
            }
            let due = match &self.terminal_runtimes[i].runtime {
                TerminalRuntime::Remote(view) => if view.reconnect_due() {
                    Some(self.reach_for(view.peer.as_str()))
                } else {
                    None
                },
                TerminalRuntime::Local { .. } => None,
            };
            match due {
                None => {},
                Some(reach) => {
                    assert(sweep_of(peers, remote(entry)->0) == sweep_of(
                        self.state.peers@,
                        remote(entry)->0,
                    ));
                    let terminal_id = self.terminal_runtimes[i].terminal_id.clone();
                    match &mut self.terminal_runtimes[i].runtime {
                        TerminalRuntime::Remote(view) => {
                            match reach {
                                Reach::Nowhere => {},
                                Reach::Never(reason) => {
                                    view.mark_dead(reason);
                                },
                                Reach::At(api_socket, instance_id) => {
                                    if view.begin_reconnect() {
                                        attempts.push(
                                            Reconnect {
                                                terminal_id,
                                                peer: view.peer.clone(),
                                                target: view.target.clone(),
                                                api_socket,
                                                instance_id,
                                                size: view.size,
                                            },
                                        );
                                    } else if view.target_is_a_pane_or_terminal()
                                        && view.target_gone {
                                        gone.push(terminal_id);
                                    }
                                },
                            }
                        },
                        TerminalRuntime::Local { .. } => {},
                    }
                },
            }
            i += 1;
        }
        assert(entries.take(i as int) =~= entries);
        (attempts, gone)
    }
}

/// The view behind this terminal claims nothing any more.
pub open spec fn disowns(before: App, after: App, id: Seq<char>) -> bool {
    let entries = before.terminal_runtimes@;
    let at = crate::app::state::runtime_at(entries, id);
    &&& after == (App { terminal_runtimes: after.terminal_runtimes, ..before })
    &&& after.terminal_runtimes@ == if at < entries.len() && remote(entries[at]) is Some {
        entries.update(
            at,
            with_view(
                entries[at],
                RemoteView { spawned_on_peer: false, ..remote(entries[at])->0 },
            ),
        )
    } else {
        entries
    }
}

/// A view whose target is gone is removed: its pane, when one shows it, and the
/// bare terminal otherwise.
pub open spec fn retires(
    before: App,
    after: App,
    id: TerminalId,
    ended: Seq<RuntimeEntry>,
) -> bool {
    exists|idle: App| #[trigger]
        disowns(before, idle, id@) && takes_away(idle, after, id, ended)
}

/// The pane that shows this terminal is taken out, or the terminal when none
/// does.
pub open spec fn takes_away(
    before: App,
    after: App,
    id: TerminalId,
    ended: Seq<RuntimeEntry>,
) -> bool {
    let key = crate::app::state::PaneKeyView::Terminal(id@);
    let workspaces = before.state.workspaces@;
    let at = crate::search::first(workspaces, crate::app::state::workspace_has(key), 0);
    if at < workspaces.len() {
        let tab = crate::search::first(
            workspaces[at].tabs@,
            crate::app::state::tab_has(key),
            0,
        );
        let pane = crate::search::first(
            workspaces[at].tabs@[tab].panes@,
            crate::app::state::pane_has(key),
            0,
        );
        crate::app::layout::removes_pane(
            before,
            after,
            at as usize,
            tab as usize,
            pane as usize,
            ended,
        )
    } else {
        crate::app::layout::only_releases(
            before,
            after,
            ended,
            crate::app::layout::is_terminal(id@),
        )
    }
}

/// These views were removed, one after the other.
pub open spec fn retires_all(
    before: App,
    after: App,
    ids: Seq<TerminalId>,
    ended: Seq<RuntimeEntry>,
) -> bool
    decreases ids.len(),
{
    if ids.len() == 0 {
        after == before && ended.len() == 0
    } else {
        exists|mid: App, n: int|
            0 <= n <= ended.len() && retires_all(before, mid, ids.drop_last(), ended.take(n))
                && #[trigger] retires(mid, after, ids.last(), ended.skip(n))
    }
}

/// The view's state is not the one that was last announced.
pub open spec fn is_unannounced(entry: RuntimeEntry) -> bool {
    remote(entry) is Some && remote(entry)->0.announced != remote(entry)->0.stands()
}

/// The entry once its state counts as announced.
pub open spec fn announced(entry: RuntimeEntry) -> RuntimeEntry {
    match remote(entry) {
        Some(view) => with_view(entry, RemoteView { announced: view.stands(), ..view }),
        None => entry,
    }
}

/// Where the pane of an entry is.
pub open spec fn pane_of_entry(app: App, entry: RuntimeEntry) -> Option<(int, PaneId)> {
    crate::app::state::located(
        app.state.workspaces@,
        crate::app::state::PaneKeyView::Terminal(entry.terminal_id@),
    )
}

/// This pane shows the entry's terminal.
pub open spec fn shows_entry(app: App, entry: RuntimeEntry, pane: PaneId) -> bool {
    pane_of_entry(app, entry) matches Some(place) && place.1 == pane
}

/// The entry's state is news about a pane.
pub open spec fn is_news(app: App) -> spec_fn(RuntimeEntry) -> bool {
    |e: RuntimeEntry| is_unannounced(e) && pane_of_entry(app, e) is Some
}

/// Every view's state was announced: for each pane whose state was not the one
/// last announced, once.
pub open spec fn announces(before: App, after: App, panes: Seq<(usize, PaneId)>) -> bool {
    let entries = before.terminal_runtimes@;
    let news = entries.filter(is_news(before));
    &&& only_runtimes(before, after)
    &&& forall|i: int|
        0 <= i < entries.len() ==> (#[trigger] after.terminal_runtimes@[i]) == announced(
            entries[i],
        )
    &&& panes.len() == news.len()
    &&& forall|i: int|
        0 <= i < panes.len() ==> pane_of_entry(before, news[i]) == Some(
            ((#[trigger] panes[i]).0 as int, panes[i].1),
        )
}

/// What one pass over the views led to.
#[derive(Debug, PartialEq, Eq)]
pub struct Reconciled {
    pub attempts: Vec<Reconnect>,
    /// What stopped running, for its owner to shut down.
    pub ended: Vec<RuntimeEntry>,
    /// The panes to report as updated.
    pub updated: Vec<(usize, PaneId)>,
}

/// One pass over the views: a sweep, the removal of those whose target is gone,
/// and an announcement.
pub open spec fn reconciles(before: App, after: App, done: Reconciled) -> bool {
    exists|swept: App, gone: Seq<TerminalId>, left: App|
        #[trigger] sweeps(before, swept, done.attempts@, gone) && retires_all(
            swept,
            left,
            gone,
            done.ended@,
        ) && #[trigger] announces(left, after, done.updated@)
}

impl App {
    /// Removes a view whose peer said its target does not exist.
    ///
    /// The peer's answer is authoritative — the pane was destroyed there — so the
    /// tab or workspace follows the pane exactly as if a local process had
    /// exited. The claim is cleared first: there is nothing left on the peer to
    /// close.
    pub fn retire_gone_peer_view(&mut self, terminal_id: &TerminalId) -> (r: Vec<RuntimeEntry>)
        ensures
            retires(*old(self), *final(self), *terminal_id, r@),
    {
        let at = self.runtime_position(terminal_id);
        if at < self.terminal_runtimes.len() {
            match &mut self.terminal_runtimes[at].runtime {
                TerminalRuntime::Remote(view) => {
                    view.clear_spawned_on_peer();
                },
                TerminalRuntime::Local { .. } => {},
            }
        }
        let ghost idle = *self;
        assert(disowns(*old(self), idle, terminal_id@)) by {
            let entries = old(self).terminal_runtimes@;
            if at < entries.len() && remote(entries[at as int]) is Some {
                assert(self.terminal_runtimes@ =~= entries.update(
                    at as int,
                    with_view(
                        entries[at as int],
                        RemoteView { spawned_on_peer: false, ..remote(entries[at as int])->0 },
                    ),
                ));
            } else {
                assert(self.terminal_runtimes@ =~= entries);
            }
        }
        let key = PaneKey::Terminal(terminal_id);
        let ws_idx = crate::app::state::workspace_with(&self.state.workspaces, &key);
        if ws_idx < self.state.workspaces.len() {
            let tab = self.state.workspaces[ws_idx].tab_position(&key);
            proof {
                crate::search::lemma_first(
                    self.state.workspaces@,
                    crate::app::state::workspace_has(key@),
                    0,
                );
                crate::search::lemma_first(
                    self.state.workspaces@[ws_idx as int].tabs@,
                    crate::app::state::tab_has(key@),
                    0,
                );
            }
            let pane = self.state.workspaces[ws_idx].tabs[tab].position(&key);
            self.remove_pane(ws_idx, tab, pane)
        } else {
            let same = |t: &TerminalId| -> (b: bool)
                ensures
                    b == crate::app::layout::is_terminal(terminal_id@)(*t),
                { t.is(terminal_id) };
            self.release_terminals(same, Ghost(crate::app::layout::is_terminal(terminal_id@)))
        }
    }

    /// Notes every view whose liveness just changed as announced, and returns the
    /// panes to report.
    ///
    /// Comparing against what was last announced catches a connection that drops
    /// on its own the same way it catches the transitions this loop makes itself,
    /// and makes a repeat impossible. A view whose pane is already gone has
    /// nothing to report about.
    pub fn announce_peer_view_liveness(&mut self) -> (r: Vec<(usize, PaneId)>)
        ensures
            announces(*old(self), *final(self), r@),
    {
        let ghost entries = self.terminal_runtimes@;
        let ghost news = is_news(*self);
        let mut panes: Vec<(usize, PaneId)> = Vec::new();
        let mut i: usize = 0;
        proof {
            reveal(Seq::filter);
            assert(entries.take(0) =~= Seq::empty());
        }
        while i < self.terminal_runtimes.len()
            invariant
                i <= self.terminal_runtimes.len(),
                only_runtimes(*old(self), *self),
                entries == old(self).terminal_runtimes@,
                news == is_news(*old(self)),
                forall|j: int|
                    0 <= j < i ==> #[trigger] self.terminal_runtimes@[j] == announced(entries[j]),
                forall|j: int|
                    i <= j < self.terminal_runtimes@.len() ==> #[trigger] self.terminal_runtimes@[j]
                        == entries[j],
                panes@.len() == entries.take(i as int).filter(news).len(),
                forall|j: int|
                    0 <= j < panes@.len() ==> pane_of_entry(
                        *old(self),
                        entries.take(i as int).filter(news)[j],
                    ) == Some(((#[trigger] panes@[j]).0 as int, panes@[j].1)),
            decreases self.terminal_runtimes.len() - i,
        {
            proof {
                crate::search::lemma_filter_step(entries, news, i as int);
            }
            let changed = match &mut self.terminal_runtimes[i].runtime {
                TerminalRuntime::Remote(view) => view.take_view_state_change().is_some(),
                TerminalRuntime::Local { .. } => false,
            };
            if changed {
                match self.pane_location_for_terminal(&self.terminal_runtimes[i].terminal_id) {
                    Some(location) => {
                        panes.push(location);
                    },
                    None => {},
                }
            }
            i += 1;
        }
        assert(entries.take(i as int) =~= entries);
        panes
    }

    /// Reopens peer-backed views whose control connection dropped.
    ///
    /// A view can lose its connection while its peer's control channel stays up,
    /// so reacting only to peer state would strand exactly those panes. One
    /// refusal retires rather than reconnects: when the peer says the target is
    /// gone, the pane died on another machine, and keeping a gray view of it would
    /// strand a workspace entry forever.
    pub fn reconcile_remote_terminal_views(&mut self) -> (r: Reconciled)
        ensures
            reconciles(*old(self), *final(self), r),
    {
        let (attempts, gone) = self.sweep_views();
        let ghost swept = *self;
        let mut ended: Vec<RuntimeEntry> = Vec::new();
        let mut i: usize = 0;
        assert(gone@.take(0) =~= Seq::empty());
        while i < gone.len()
            invariant
                i <= gone.len(),
                retires_all(swept, *self, gone@.take(i as int), ended@),
            decreases gone.len() - i,
        {
            let ghost mid = *self;
            let ghost before = ended@;
            let ghost n = before.len() as int;
            let mut more = self.retire_gone_peer_view(&gone[i]);
            let ghost last = more@;
            ended.append(&mut more);
            proof {
                let ids = gone@.take(i as int + 1);
                assert(ids.drop_last() =~= gone@.take(i as int));
                assert(ids.last() == gone@[i as int]);
                assert(ended@.take(n) =~= before);
                assert(ended@.skip(n) =~= last);
                assert(retires_all(swept, mid, ids.drop_last(), ended@.take(n)));
                assert(retires(mid, *self, ids.last(), ended@.skip(n)));
                assert(retires_all(swept, *self, ids, ended@));
            }
            i += 1;
        }
        let ghost left = *self;
        assert(gone@.take(i as int) =~= gone@);
        assert(retires_all(swept, left, gone@, ended@));
        let updated = self.announce_peer_view_liveness();
        let done = Reconciled { attempts, ended, updated };
        assert(sweeps(*old(self), swept, done.attempts@, gone@));
        assert(retires_all(swept, left, gone@, done.ended@));
        assert(announces(left, *self, done.updated@));
        done
    }
}

/// The instance this peer last identified itself as.
pub open spec fn current_instance(
    peers: Seq<crate::app::peers::PeerView>,
    peer: Seq<char>,
) -> Option<Seq<char>> {
    match crate::search::find(peers, crate::app::peers::has_handle(peer)) {
        Some(peer) => peer.instance_id(),
        None => None,
    }
}

/// What a finished attempt comes to.
///
/// It is only installed in a view that is still there and not dead, and only
/// while the peer is the server that was reached.
pub open spec fn finishes_attempt(
    before: App,
    after: App,
    discarded: Option<RemoteView>,
    finished: PeerViewReconnectResult,
) -> bool {
    let entries = before.terminal_runtimes@;
    let at = crate::app::state::runtime_at(entries, finished.terminal_id@);
    &&& after == (App { terminal_runtimes: after.terminal_runtimes, ..before })
    &&& if at >= entries.len() || remote(entries[at]) is None {
        &&& after.terminal_runtimes@ == entries
        &&& discarded == match finished.result {
            Ok(view) => Some(view),
            Err(_) => None,
        }
    } else {
        let existing = remote(entries[at])->0;
        let failed = with_view(
            entries[at],
            RemoteView { in_flight: false, backoff_over: false, ..existing },
        );
        match finished.result {
            Err(_) => {
                &&& after.terminal_runtimes@ == entries.update(at, failed)
                &&& discarded is None
            },
            Ok(view) => {
                let current = current_instance(before.state.peers@, view.peer@);
                if existing.dead is Some {
                    &&& after.terminal_runtimes@ == entries
                    &&& discarded == Some(view)
                } else if current is Some && view.on_other_server(current->0) {
                    &&& after.terminal_runtimes@ == entries.update(at, failed)
                    &&& discarded == Some(view)
                } else {
                    &&& after.terminal_runtimes@ == entries.update(
                        at,
                        with_view(entries[at], view.inheriting(existing)),
                    )
                    &&& discarded is None
                }
            },
        }
    }
}

/// The pane is the one this view is onto.
pub open spec fn viewed_by(view: RemoteView, peer: Seq<char>) -> spec_fn(PaneInfo) -> bool {
    |p: PaneInfo| view.views(peer, p.pane_id@, p.terminal_id@)
}

/// What a peer's report about a pane says of a view onto it.
pub open spec fn metadata_of(pane: PaneInfo) -> RemotePaneMetadata {
    RemotePaneMetadata {
        cwd: pane.cwd,
        foreground_cwd: pane.foreground_cwd,
        terminal_title: pane.terminal_title,
        agent_osc_title: pane.agent_osc_title,
        agent_osc_progress: pane.agent_osc_progress,
        agent: pane.agent,
        agent_status: Some(pane.agent_status),
        keyboard_protocol: pane.keyboard_protocol,
    }
}

/// The pane a peer reported that this entry is a view onto.
pub open spec fn reported(
    panes: Seq<PaneInfo>,
    peer: Seq<char>,
    entry: RuntimeEntry,
) -> Option<PaneInfo> {
    match remote(entry) {
        Some(view) => crate::search::find(panes, viewed_by(view, peer)),
        None => None,
    }
}

/// The report says something new of this entry.
pub open spec fn is_relabeled(
    panes: Seq<PaneInfo>,
    peer: Seq<char>,
) -> spec_fn(RuntimeEntry) -> bool {
    |e: RuntimeEntry|
        match reported(panes, peer, e) {
            Some(pane) => !(remote(e)->0.metadata is Some && crate::terminal::same_report(
                remote(e)->0.metadata->0@,
                metadata_of(pane)@,
            )),
            None => false,
        }
}

/// The entry once the peer's report was stored.
pub open spec fn labeled(panes: Seq<PaneInfo>, peer: Seq<char>, entry: RuntimeEntry) -> RuntimeEntry {
    if is_relabeled(panes, peer)(entry) {
        with_view(
            entry,
            RemoteView {
                metadata: Some(metadata_of(reported(panes, peer, entry)->0)),
                ..remote(entry)->0
            },
        )
    } else {
        entry
    }
}

/// The report says something new of the agent in this entry.
pub open spec fn has_new_agent_facts(
    panes: Seq<PaneInfo>,
    peer: Seq<char>,
) -> spec_fn(RuntimeEntry) -> bool {
    |e: RuntimeEntry|
        match reported(panes, peer, e) {
            Some(pane) => match remote(e)->0.metadata {
                Some(previous) => crate::text::opt_view(previous.agent) != crate::text::opt_view(
                    pane.agent,
                ) || previous.agent_status != Some(pane.agent_status),
                None => true,
            },
            None => false,
        }
}

/// The report gives this entry another title.
pub open spec fn has_new_title(
    panes: Seq<PaneInfo>,
    peer: Seq<char>,
) -> spec_fn(RuntimeEntry) -> bool {
    |e: RuntimeEntry|
        match reported(panes, peer, e) {
            Some(pane) => match remote(e)->0.metadata {
                Some(previous) => crate::text::opt_view(previous.terminal_title)
                    != crate::text::opt_view(pane.terminal_title),
                None => true,
            },
            None => false,
        }
}

/// The entry has the property, and a pane shows it.
pub open spec fn in_a_pane(
    app: App,
    p: spec_fn(RuntimeEntry) -> bool,
) -> spec_fn(RuntimeEntry) -> bool {
    |e: RuntimeEntry| p(e) && pane_of_entry(app, e) is Some
}

/// The detection to replay for an entry whose agent facts moved.
///
/// The peer owns the process: a remote agent exiting arrives as its pane
/// disappearing from the enumeration, not as an exit this server watched.
pub open spec fn is_detection(
    app: App,
    panes: Seq<PaneInfo>,
    peer: Seq<char>,
    entry: RuntimeEntry,
    event: AppEvent,
) -> bool {
    &&& reported(panes, peer, entry) matches Some(pane)
    &&& pane_of_entry(app, entry) matches Some(place)
    &&& event == (AppEvent::StateChanged {
        pane_id: place.1,
        agent: pane.agent,
        state: super::rewrite::state_behind(pane.agent_status),
        visible_blocker: super::rewrite::state_behind(pane.agent_status) == AgentState::Blocked,
        visible_working: super::rewrite::state_behind(pane.agent_status) == AgentState::Working,
        process_exited: false,
    })
}

/// What a report about a peer's panes led to.
#[derive(Debug, PartialEq, Eq)]
pub struct PanesUpdated {
    /// Agent detections to replay, for panes whose agent facts moved.
    pub detections: Vec<AppEvent>,
    /// Panes whose title is to be read again.
    pub retitled: Vec<PaneId>,
    /// Whether anything that is drawn changed.
    pub redraw: bool,
}

/// What storing a report about a peer's panes comes to.
pub open spec fn stores_report(
    before: App,
    after: App,
    updated: PanesUpdated,
    peer: Seq<char>,
    panes: Seq<PaneInfo>,
) -> bool {
    let entries = before.terminal_runtimes@;
    let moved = entries.filter(in_a_pane(before, has_new_agent_facts(panes, peer)));
    let renamed = entries.filter(in_a_pane(before, has_new_title(panes, peer)));
    &&& only_runtimes(before, after)
    &&& forall|i: int|
        0 <= i < entries.len() ==> (#[trigger] after.terminal_runtimes@[i]) == labeled(
            panes,
            peer,
            entries[i],
        )
    &&& updated.redraw == crate::search::any(entries, is_relabeled(panes, peer))
    &&& updated.detections@.len() == moved.len()
    &&& forall|i: int|
        0 <= i < moved.len() ==> is_detection(
            before,
            panes,
            peer,
            moved[i],
            #[trigger] updated.detections@[i],
        )
    &&& updated.retitled@.len() == renamed.len()
    &&& forall|i: int|
        0 <= i < renamed.len() ==> shows_entry(before, renamed[i], #[trigger] updated.retitled@[i])
}

fn metadata_from(pane: &PaneInfo) -> (r: RemotePaneMetadata)
    ensures
        r == metadata_of(*pane),
{
    RemotePaneMetadata {
        cwd: opt_clone(&pane.cwd),
        foreground_cwd: opt_clone(&pane.foreground_cwd),
        terminal_title: opt_clone(&pane.terminal_title),
        agent_osc_title: opt_clone(&pane.agent_osc_title),
        agent_osc_progress: opt_clone(&pane.agent_osc_progress),
        agent: opt_clone(&pane.agent),
        agent_status: Some(pane.agent_status),
        keyboard_protocol: pane.keyboard_protocol,
    }
}

fn reported_pane<'a>(panes: &'a Vec<PaneInfo>, peer: &str, view: &RemoteView) -> (r: Option<
    &'a PaneInfo,
>)
    ensures
        match r {
            Some(pane) => crate::search::find(panes@, viewed_by(*view, peer@)) == Some(*pane),
            None => crate::search::find(panes@, viewed_by(*view, peer@)) is None,
        },
{
    let mut i: usize = 0;
    while i < panes.len()
        invariant
            i <= panes.len(),
            crate::search::first(panes@, viewed_by(*view, peer@), 0) == crate::search::first(
                panes@,
                viewed_by(*view, peer@),
                i as int,
            ),
        decreases panes.len() - i,
    {
        if view.views_peer_pane(peer, panes[i].pane_id.as_str(), panes[i].terminal_id.as_str()) {
            return Some(&panes[i]);
        }
        i += 1;
    }
    None
}

impl App {
    /// Puts a reconnected view back in the slot its pane already points at.
    /// Returns the connection to drop, when it could not be used.
    ///
    /// The terminal id does not change, so no pane, layout, or workspace state
    /// moves. The worker checked the peer's identity when it connected, but its
    /// answer travels back as an event and the world moves in between: installing
    /// it unconditionally would resurrect a view onto a server that had already
    /// been replaced.
    pub fn handle_peer_view_reconnected(&mut self, finished: PeerViewReconnectResult) -> (r: Option<
        RemoteView,
    >)
        ensures
            finishes_attempt(*old(self), *final(self), r, finished),
    {
        let PeerViewReconnectResult { terminal_id, result } = finished;
        let at = self.runtime_position(&terminal_id);
        let mut missing = at >= self.terminal_runtimes.len();
        if !missing {
            match &self.terminal_runtimes[at].runtime {
                TerminalRuntime::Remote(_) => {},
                TerminalRuntime::Local { .. } => {
                    missing = true;
                },
            }
        }
        if missing {
            // The pane closed while the attempt was in flight. Closing the new
            // view releases the peer's terminal instead of leaving it rendering
            // for nobody.
            return match result {
                Ok(view) => Some(view),
                Err(_) => None,
            };
        }
        let replaced = match &result {
            Ok(view) => match self.state.peers.get(&PeerHandle::new(view.peer.as_str())) {
                Some(peer) => match peer.instance_id() {
                    Some(id) => view.is_on_other_server(id),
                    None => false,
                },
                None => false,
            },
            Err(_) => false,
        };
        let discarded = match &mut self.terminal_runtimes[at].runtime {
            TerminalRuntime::Remote(existing) => match result {
                Ok(view) => if existing.dead.is_some() {
                    Some(view)
                } else if replaced {
                    // The view is still live and still wants a connection, so
                    // this counts as a failed attempt: without it the view would
                    // never be retried at all.
                    existing.reconnect_failed();
                    Some(view)
                } else {
                    let mut view = view;
                    view.inherit_from(existing);
                    *existing = view;
                    None
                },
                Err(_) => {
                    existing.reconnect_failed();
                    None
                },
            },
            TerminalRuntime::Local { .. } => None,
        };
        proof {
            let entries = old(self).terminal_runtimes@;
            let existing = remote(entries[at as int])->0;
            let failed = with_view(
                entries[at as int],
                RemoteView { in_flight: false, backoff_over: false, ..existing },
            );
            if finished.result is Ok && existing.dead is Some {
                assert(self.terminal_runtimes@ =~= entries);
            } else if finished.result is Err || replaced {
                assert(self.terminal_runtimes@ =~= entries.update(at as int, failed));
            } else {
                assert(self.terminal_runtimes@ =~= entries.update(
                    at as int,
                    with_view(entries[at as int], finished.result->Ok_0.inheriting(existing)),
                ));
            }
        }
        discarded
    }

    /// Caches what a peer just reported about its panes on the views onto them.
    ///
    /// Only the peer can see a remote pane's cwd, title, or agent, and a render
    /// frame must never wait on another machine, so the facts are stored on the
    /// view and read from there. Agent state is not a view's: it belongs to the
    /// terminal, so it is fed back through the same event the local detector
    /// emits.
    pub fn handle_peer_panes_updated(&mut self, handle: &PeerHandle, panes: &Vec<PaneInfo>) -> (r:
        PanesUpdated)
        ensures
            stores_report(*old(self), *final(self), r, handle@, panes@),
    {
        let peer = handle.as_str();
        let ghost entries = self.terminal_runtimes@;
        let ghost moved = in_a_pane(*self, has_new_agent_facts(panes@, handle@));
        let ghost renamed = in_a_pane(*self, has_new_title(panes@, handle@));
        let mut detections: Vec<AppEvent> = Vec::new();
        let mut retitled: Vec<PaneId> = Vec::new();
        let mut redraw = false;
        let mut i: usize = 0;
        proof {
            reveal(Seq::filter);
            assert(entries.take(0) =~= Seq::empty());
        }
        while i < self.terminal_runtimes.len()
            invariant
                i <= self.terminal_runtimes.len(),
                peer@ == handle@,
                only_runtimes(*old(self), *self),
                entries == old(self).terminal_runtimes@,
                moved == in_a_pane(*old(self), has_new_agent_facts(panes@, handle@)),
                renamed == in_a_pane(*old(self), has_new_title(panes@, handle@)),
                forall|j: int|
                    0 <= j < i ==> #[trigger] self.terminal_runtimes@[j] == labeled(
                        panes@,
                        handle@,
                        entries[j],
                    ),
                forall|j: int|
                    i <= j < self.terminal_runtimes@.len() ==> #[trigger] self.terminal_runtimes@[j]
                        == entries[j],
                redraw == exists|j: int|
                    0 <= j < i && is_relabeled(panes@, handle@)(#[trigger] entries[j]),
                detections@.len() == entries.take(i as int).filter(moved).len(),
                forall|j: int|
                    0 <= j < detections@.len() ==> is_detection(
                        *old(self),
                        panes@,
                        handle@,
                        entries.take(i as int).filter(moved)[j],
                        #[trigger] detections@[j],
                    ),
                retitled@.len() == entries.take(i as int).filter(renamed).len(),
                forall|j: int|
                    0 <= j < retitled@.len() ==> shows_entry(
                        *old(self),
                        entries.take(i as int).filter(renamed)[j],
                        #[trigger] retitled@[j],
                    ),
            decreases self.terminal_runtimes.len() - i,
        {
            proof {
                crate::search::lemma_filter_step(entries, moved, i as int);
                crate::search::lemma_filter_step(entries, renamed, i as int);
            }
            let ghost entry = entries[i as int];
            let mut facts_changed = false;
            let mut title_changed = false;
            let mut found: Option<&PaneInfo> = None;
            match &mut self.terminal_runtimes[i].runtime {
                TerminalRuntime::Remote(view) => {
                    match reported_pane(panes, peer, view) {
                        Some(pane) => {
                            found = Some(pane);
                            let metadata = metadata_from(pane);
                            match &view.metadata {
                                Some(previous) => {
                                    facts_changed = !opt_eq(&previous.agent, &metadata.agent)
                                        || !same_status(
                                        previous.agent_status,
                                        metadata.agent_status,
                                    );
                                    title_changed = !opt_eq(
                                        &previous.terminal_title,
                                        &metadata.terminal_title,
                                    );
                                },
                                None => {
                                    facts_changed = true;
                                    title_changed = true;
                                },
                            }
                            let changed = view.set_metadata(metadata);
                            redraw = redraw || changed;
                        },
                        None => {},
                    }
                },
                TerminalRuntime::Local { .. } => {},
            }
            match found {
                Some(pane) => {
                    match self.pane_for_terminal(&self.terminal_runtimes[i].terminal_id) {
                        Some(pane_id) => {
                            if facts_changed {
                                let state = agent_state_from_status(pane.agent_status);
                                detections.push(
                                    AppEvent::StateChanged {
                                        pane_id,
                                        agent: opt_clone(&pane.agent),
                                        state,
                                        visible_blocker: state == AgentState::Blocked,
                                        visible_working: state == AgentState::Working,
                                        process_exited: false,
                                    },
                                );
                            }
                            if title_changed {
                                retitled.push(pane_id);
                            }
                        },
                        None => {},
                    }
                },
                None => {},
            }
            assert(is_relabeled(panes@, handle@)(entries[i as int]) ==> redraw);
            i += 1;
        }
        assert(entries.take(i as int) =~= entries);
        proof {
            crate::search::lemma_any(entries, is_relabeled(panes@, handle@));
        }
        PanesUpdated { detections, retitled, redraw }
    }
}

} // verus!
