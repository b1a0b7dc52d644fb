//! Placing peer-backed views, and taking them away again.
//!
//! A worker connected something, and this decides where it goes — or, when the
//! place it was going has since closed, disposes of it in the one way that also
//! releases the pane on the peer.

use vstd::prelude::*;

use crate::api::schema::peers::{PeerTerminalInfo, TerminalTarget};
use crate::api::schema::responses::ErrorBody;
use crate::app::api::announce::{closing_announcements, Announcement};
use crate::app::api::peers::forward::{open_as_terminal_error, Reply, Started};
use crate::app::api::peers::resolve::{ExistingPeerView, Route};
use crate::app::layout::{FreshPane, FreshTab, FreshWorkspace};
use crate::app::peers::{PeerHandle, PendingPaneCleanup};
use crate::app::state::{App, PaneId, PaneKey, RuntimeEntry, Split, Workspace};
use crate::events::{
    AppEvent, PeerPaneSplitResult, PeerTabCreateResult, PeerViewOpenResult, PeerViewOpened,
    PeerViewPlacement, PeerWorkspaceCreateResult,
};
use crate::search::take_where;
use crate::terminal::{RemoteView, TerminalId, TerminalRuntime, TerminalSize};
use crate::text::{cat2, cat3, opt_is, str_eq};

verus! {

/// A pane on a peer that is to be closed there, or why that cannot be asked.
#[derive(Debug, PartialEq, Eq)]
pub struct PaneClose {
    pub handle: PeerHandle,
    pub peer_pane_id: String,
    /// The instance that issued `peer_pane_id`.
    pub expected_instance: Option<String>,
    pub route: Result<Route, String>,
}

/// A view that never reached the layout, and the pane to close with it.
#[derive(Debug, PartialEq, Eq)]
pub struct Discarded {
    pub view: RemoteView,
    pub close: Option<PaneClose>,
}

/// What came of placing a view.
#[derive(Debug, PartialEq, Eq)]
pub struct Placed {
    pub reply: Reply,
    /// What goes out to subscribers.
    pub events: Vec<Announcement>,
    pub discarded: Option<Discarded>,
}

impl Placed {
    /// The answer, with what goes out along with it.
    fn of(reply: Reply, discarded: Option<Discarded>) -> (r: Self)
        ensures
            r.reply == reply,
            r.events@ == crate::app::api::announce::announced(reply),
            r.discarded == discarded,
    {
        let events = reply.announcements();
        Placed { reply, events, discarded }
    }
}

/// Where a close for a pane of this peer can be sent right now, or why nowhere.
pub open spec fn close_route(peers: Seq<crate::app::peers::PeerView>, peer: Seq<char>) -> Result<
    (Seq<char>, Seq<char>),
    Seq<char>,
> {
    match crate::search::find(peers, crate::app::peers::has_handle(peer)) {
        None => Err("peer is no longer configured"@),
        Some(state) => if !(state.connection is Connected) {
            Err("peer is "@ + state.connection.kind().text())
        } else if state.api_socket() is None {
            Err("peer has no transport"@)
        } else if state.instance_id() is None {
            Err("peer has no instance identity"@)
        } else {
            Ok((state.api_socket()->0, state.instance_id()->0))
        },
    }
}

/// The contents of a route.
pub open spec fn route_view(route: Result<Route, String>) -> Result<
    (Seq<char>, Seq<char>),
    Seq<char>,
> {
    match route {
        Ok(route) => Ok((route.api_socket@, route.instance_id@)),
        Err(reason) => Err(reason@),
    }
}

/// The close is for this pane of this peer.
pub open spec fn closes_pane(
    peers: Seq<crate::app::peers::PeerView>,
    close: PaneClose,
    peer: Seq<char>,
    pane: Seq<char>,
    expected: Option<Seq<char>>,
) -> bool {
    &&& close.handle@ == peer
    &&& close.peer_pane_id@ == pane
    &&& crate::text::opt_view(close.expected_instance) == expected
    &&& route_view(close.route) == close_route(peers, peer)
}

/// The view is disposed of, and the pane behind it closed when this server is the
/// one that asked for it.
pub open spec fn discards(
    peers: Seq<crate::app::peers::PeerView>,
    discarded: Discarded,
    view: RemoteView,
) -> bool {
    &&& discarded.view == view
    &&& match discarded.close {
        Some(close) => view.spawned_on_peer && closes_pane(
            peers,
            close,
            view.peer@,
            view.target@,
            crate::text::opt_view(view.instance),
        ),
        None => !view.spawned_on_peer,
    }
}

/// The view is disposed of because its place is gone, and the caller is refused.
pub open spec fn turned_away(
    before: App,
    after: App,
    placed: Placed,
    view: RemoteView,
    error: (Seq<char>, Seq<char>),
) -> bool {
    &&& after == before
    &&& placed.events@.len() == 0
    &&& placed.reply matches Reply::Error(body) && body@ == error
    &&& placed.discarded matches Some(discarded) && discards(before.state.peers@, discarded, view)
}

/// The claim is on another target.
pub open spec fn claim_is_other(
    peer: Seq<char>,
    target: Seq<char>,
) -> spec_fn((String, String)) -> bool {
    crate::search::lacks(super::forward::claim_is(peer, target))
}

/// The label of a view's workspace: the one that was asked for, else the peer,
/// with the target behind it where the peer made the target for this server.
pub open spec fn view_label(
    label: Option<String>,
    created: bool,
    handle: Seq<char>,
    local_target: Seq<char>,
) -> Seq<char> {
    match label {
        Some(label) => label@,
        None => if created {
            handle + ":"@ + local_target
        } else {
            handle
        },
    }
}

/// The contents of an answer about a peer's terminal.
pub open spec fn terminal_reply(
    reply: Reply,
    terminal: Seq<char>,
    handle: Seq<char>,
    target: Seq<char>,
    local_target: Seq<char>,
    size: TerminalSize,
) -> bool {
    reply matches Reply::PeerTerminal(info) && info@ == (
    crate::api::schema::peers::PeerTerminalView {
        terminal_id: terminal,
        name: handle,
        target,
        local_target,
        cols: size.cols,
        rows: size.rows,
    })
}

/// What a connected view becomes when a view onto the same terminal is held
/// already: the new connection goes, and the caller gets the one that exists.
pub open spec fn joins_existing(
    before: App,
    after: App,
    reply: Reply,
    handle: Seq<char>,
    local_target: Seq<char>,
    placement: PeerViewPlacement,
    existing: ExistingPeerView,
) -> bool {
    match placement {
        PeerViewPlacement::Workspace { focus, worktree, .. } => match existing {
            ExistingPeerView::InWorkspace { ws_idx, .. } => {
                &&& after.state == if focus {
                    super::forward::switched(before, ws_idx).state
                } else {
                    before.state
                }
                &&& super::forward::is_view_reply(
                    before,
                    ws_idx,
                    match worktree {
                        Some(answer) => Some(answer.held()),
                        None => None,
                    },
                    reply,
                )
            },
            ExistingPeerView::Bare { terminal_id } => {
                &&& after.state == before.state
                &&& reply matches Reply::Error(body) && body@ == super::forward::open_as_terminal(
                    handle,
                    local_target,
                    terminal_id@,
                )
            },
        },
        PeerViewPlacement::Terminal { target } => {
            &&& after.state == before.state
            &&& terminal_reply(
                reply,
                existing.terminal()@,
                handle,
                target@,
                local_target,
                match crate::app::state::runtime_of(
                    before.terminal_runtimes@,
                    existing.terminal()@,
                ) {
                    Some(runtime) => runtime.size(),
                    None => TerminalSize { rows: 1, cols: 1 },
                },
            )
        },
    }
}

/// What a connected view becomes when it is the first onto its terminal.
pub open spec fn takes_place(
    before: App,
    after: App,
    reply: Reply,
    handle: Seq<char>,
    local_target: Seq<char>,
    view: RemoteView,
    placement: PeerViewPlacement,
    fresh: FreshWorkspace,
) -> bool {
    match placement {
        PeerViewPlacement::Workspace { peer_workspace, label, created, focus, worktree } => {
            &&& crate::app::layout::attaches_workspace(
                before,
                after,
                handle,
                peer_workspace,
                view_label(label, created, handle, local_target),
                TerminalRuntime::Remote(view),
                focus,
                fresh,
            )
            &&& super::forward::is_view_reply(
                after,
                before.state.workspaces@.len() as usize,
                worktree,
                reply,
            )
        },
        PeerViewPlacement::Terminal { target } => {
            &&& crate::app::layout::registers(
                before,
                after,
                fresh.tab.pane.terminal_id,
                TerminalRuntime::Remote(view),
            )
            &&& terminal_reply(
                reply,
                fresh.tab.pane.terminal_id@,
                handle,
                target@,
                local_target,
                view.size,
            )
        },
    }
}

/// What a finished open comes to. The claim on its target is released whatever
/// came of it.
pub open spec fn finishes_open(
    before: App,
    after: App,
    placed: Placed,
    finished: PeerViewOpenResult,
    fresh: FreshWorkspace,
) -> bool {
    exists|idle: App| #[trigger]
        releases_claim(before, idle, finished.handle@, finished.started_target@) && places_view(
            idle,
            after,
            placed,
            finished,
            fresh,
        )
}

/// Nothing changed but that this target is not claimed any more.
pub open spec fn releases_claim(before: App, after: App, peer: Seq<char>, target: Seq<char>) -> bool {
    &&& after == (App {
        peer_view_opens_in_flight: after.peer_view_opens_in_flight,
        ..before
    })
    &&& after.peer_view_opens_in_flight@ == before.peer_view_opens_in_flight@.filter(
        claim_is_other(peer, target),
    )
}

/// Where a finished open goes once its claim is released.
pub open spec fn places_view(
    before: App,
    after: App,
    placed: Placed,
    finished: PeerViewOpenResult,
    fresh: FreshWorkspace,
) -> bool {
    match finished.result {
        Err(error) => {
            &&& after == before
            &&& placed.reply == Reply::Error(error)
            &&& placed.events@.len() == 0
            &&& placed.discarded is None
        },
        Ok(opened) => match super::resolve::already_open(
            before,
            finished.handle@,
            opened.local_target@,
            false,
        ) {
            Some(existing) => {
                &&& placed.discarded == Some(Discarded { view: opened.view, close: None })
                &&& placed.events@ == crate::app::api::announce::announced(placed.reply)
                &&& after.terminal_runtimes == before.terminal_runtimes
                &&& after.peer_view_opens_in_flight == before.peer_view_opens_in_flight
                &&& joins_existing(
                    before,
                    after,
                    placed.reply,
                    finished.handle@,
                    opened.local_target@,
                    finished.placement,
                    existing,
                )
            },
            None => {
                &&& placed.discarded is None
                &&& placed.events@ == crate::app::api::announce::announced(placed.reply)
                &&& takes_place(
                    before,
                    after,
                    placed.reply,
                    finished.handle@,
                    opened.local_target@,
                    opened.view,
                    finished.placement,
                    fresh,
                )
            },
        },
    }
}

impl App {
    /// Gives up the claim on a target.
    fn release_claim(&mut self, peer: &str, target: &str)
        ensures
            releases_claim(*old(self), *final(self), peer@, target@),
    {
        let is_it = |c: &(String, String)| -> (b: bool)
            ensures
                b == super::forward::claim_is(peer@, target@)(*c),
            { str_eq(c.0.as_str(), peer) && str_eq(c.1.as_str(), target) };
        take_where(
            &mut self.peer_view_opens_in_flight,
            is_it,
            Ghost(super::forward::claim_is(peer@, target@)),
        );
    }

    /// Places a view a worker just connected, and answers the waiting caller.
    ///
    /// The open was decided before the worker resolved and connected, so another
    /// view onto the same terminal can have landed in between. Two views would
    /// reclaim each other's attach forever, so the new connection is dropped and
    /// the caller is handed the view that exists.
    pub fn handle_peer_view_open_finished(
        &mut self,
        finished: PeerViewOpenResult,
        fresh: FreshWorkspace,
    ) -> (r: Placed)
        ensures
            finishes_open(*old(self), *final(self), r, finished, fresh),
    {
        let PeerViewOpenResult { handle, started_target, placement, result, .. } = finished;
        self.release_claim(handle.as_str(), started_target.as_str());
        let ghost idle = *self;
        assert(releases_claim(*old(self), idle, finished.handle@, finished.started_target@));
        let opened = match result {
            Ok(opened) => opened,
            Err(error) => {
                return Placed::of(Reply::Error(error), None);
            },
        };
        let PeerViewOpened { view, local_target } = opened;
        match self.peer_view_already_open(handle.as_str(), local_target.as_str(), false) {
            Some(existing) => {
                let reply = self.join_existing_view(&handle, local_target, placement, existing);
                return Placed::of(reply, Some(Discarded { view, close: None }));
            },
            None => {},
        }
        let reply = self.place_view(&handle, local_target, view, placement, fresh);
        Placed::of(reply, None)
    }

    /// Answers an open with the view this server already holds.
    fn join_existing_view(
        &mut self,
        handle: &PeerHandle,
        local_target: String,
        placement: PeerViewPlacement,
        existing: ExistingPeerView,
    ) -> (r: Reply)
        requires
            super::resolve::already_open(*old(self), handle@, local_target@, false) == Some(
                existing,
            ),
        ensures
            joins_existing(
                *old(self),
                *final(self),
                r,
                handle@,
                local_target@,
                placement,
                existing,
            ),
            final(self).terminal_runtimes == old(self).terminal_runtimes,
            final(self).peer_view_opens_in_flight == old(self).peer_view_opens_in_flight,
    {
        match placement {
            PeerViewPlacement::Workspace { focus, worktree, .. } => match existing {
                ExistingPeerView::InWorkspace { ws_idx, terminal_id } => {
                    assert(ws_idx < self.state.workspaces@.len()) by {
                        crate::search::lemma_first(
                            self.state.workspaces@,
                            crate::app::state::workspace_has(
                                crate::app::state::PaneKeyView::Terminal(terminal_id@),
                            ),
                            0,
                        );
                    }
                    let worktree = match worktree {
                        Some(answer) => Some(answer.into_already_open()),
                        None => None,
                    };
                    let reply = self.view_response(ws_idx, worktree);
                    if focus {
                        self.switch_workspace(ws_idx);
                    }
                    reply
                },
                ExistingPeerView::Bare { terminal_id } => Reply::Error(
                    open_as_terminal_error(
                        handle.as_str(),
                        local_target.as_str(),
                        terminal_id.as_str(),
                    ),
                ),
            },
            PeerViewPlacement::Terminal { target } => {
                let terminal_id = existing.terminal_id();
                let size = match self.runtime(terminal_id) {
                    Some(runtime) => runtime.current_size(),
                    None => TerminalSize { rows: 1, cols: 1 },
                };
                Reply::PeerTerminal(
                    PeerTerminalInfo {
                        terminal_id: terminal_id.as_str().to_owned(),
                        name: handle.as_str().to_owned(),
                        target,
                        local_target,
                        cols: size.cols,
                        rows: size.rows,
                    },
                )
            },
        }
    }

    /// Gives a view that is the first onto its terminal its place.
    fn place_view(
        &mut self,
        handle: &PeerHandle,
        local_target: String,
        view: RemoteView,
        placement: PeerViewPlacement,
        fresh: FreshWorkspace,
    ) -> (r: Reply)
        ensures
            takes_place(
                *old(self),
                *final(self),
                r,
                handle@,
                local_target@,
                view,
                placement,
                fresh,
            ),
    {
        match placement {
            PeerViewPlacement::Workspace { peer_workspace, label, created, focus, worktree } => {
                let label = match label {
                    Some(label) => label,
                    None => if created {
                        cat3(handle.as_str(), ":", local_target.as_str())
                    } else {
                        handle.as_str().to_owned()
                    },
                };
                let ws_idx = self.create_attached_workspace(
                    handle.as_str().to_owned(),
                    peer_workspace,
                    label,
                    TerminalRuntime::Remote(view),
                    focus,
                    fresh,
                );
                self.view_response(ws_idx, worktree)
            },
            PeerViewPlacement::Terminal { target } => {
                let size = view.size;
                let terminal_id = fresh.tab.pane.terminal_id;
                let name = terminal_id.as_str().to_owned();
                self.register_peer_terminal(terminal_id, TerminalRuntime::Remote(view));
                Reply::PeerTerminal(
                    PeerTerminalInfo {
                        terminal_id: name,
                        name: handle.as_str().to_owned(),
                        target,
                        local_target,
                        cols: size.cols,
                        rows: size.rows,
                    },
                )
            },
        }
    }

    /// Registers a peer-backed terminal that no workspace holds.
    pub fn register_peer_terminal(&mut self, terminal_id: TerminalId, runtime: TerminalRuntime)
        ensures
            crate::app::layout::registers(*old(self), *final(self), terminal_id, runtime),
    {
        self.register_terminal(terminal_id, runtime);
    }
}

/// What releasing a bare terminal comes to.
pub open spec fn closes_terminal(
    before: App,
    after: App,
    r: Result<(Reply, Vec<RuntimeEntry>), ErrorBody>,
    target: Seq<char>,
) -> bool {
    let known = crate::search::find(
        before.state.terminals@,
        crate::app::layout::is_terminal(target),
    );
    if known is None {
        &&& after == before
        &&& r matches Err(error) && error@ == (
            "not_found"@,
            super::resolve::about_peer("no terminal named '"@, target, "'"@),
        )
    } else if crate::app::state::remote_of(before.terminal_runtimes@, target) is None {
        &&& after == before
        &&& r matches Err(error) && error@ == (
            "invalid_request"@,
            super::resolve::about_peer("terminal '"@, target, "' is not peer-backed"@),
        )
    } else if crate::app::layout::shown(before.state.workspaces@, target) {
        &&& after == before
        &&& r matches Err(error) && error@ == (
            "invalid_request"@,
            super::resolve::about_peer(
                "terminal '"@,
                target,
                "' is attached to a pane; close the pane instead"@,
            ),
        )
    } else {
        &&& r matches Ok((reply, ended))
        &&& reply matches Reply::TerminalClosed { terminal_id } && terminal_id@ == target
        &&& crate::app::layout::only_releases(
            before,
            after,
            ended@,
            crate::app::layout::is_terminal(target),
        )
    }
}

/// What a finished tab comes to.
pub open spec fn finishes_tab(
    before: App,
    after: App,
    placed: Placed,
    finished: PeerTabCreateResult,
    fresh: FreshTab,
) -> bool {
    match finished.result {
        Err(error) => {
            &&& after == before
            &&& placed.reply == Reply::Error(error)
            &&& placed.events@.len() == 0
            &&& placed.discarded is None
        },
        Ok(view) => {
            let at = crate::search::first(
                before.state.workspaces@,
                crate::app::state::has_id(finished.workspace_id@),
                0,
            );
            if at >= before.state.workspaces@.len() {
                turned_away(
                    before,
                    after,
                    placed,
                    view,
                    (
                        "workspace_not_found"@,
                        "workspace closed while the peer was creating the tab"@,
                    ),
                )
            } else {
                &&& placed.discarded is None
                &&& placed.reply == (Reply::Tab {
                    ws_idx: at as usize,
                    tab_idx: before.state.workspaces@[at].tabs@.len() as usize,
                })
                &&& placed.events@ == seq![
                    Announcement::TabCreated {
                        ws_idx: at as usize,
                        tab_idx: before.state.workspaces@[at].tabs@.len() as usize,
                    },
                ]
                &&& crate::app::layout::attaches_tab(
                    before,
                    after,
                    at as usize,
                    finished.label,
                    TerminalRuntime::Remote(view),
                    finished.focus,
                    fresh,
                )
            }
        },
    }
}

/// What a finished split comes to.
pub open spec fn finishes_split(
    before: App,
    after: App,
    placed: Placed,
    finished: PeerPaneSplitResult,
    fresh: FreshPane,
) -> bool {
    match finished.result {
        Err(error) => {
            &&& after == before
            &&& placed.reply == Reply::Error(error)
            &&& placed.events@.len() == 0
            &&& placed.discarded is None
        },
        Ok(view) => {
            let at = crate::search::first(
                before.state.workspaces@,
                crate::app::state::has_id(finished.workspace_id@),
                0,
            );
            if at >= before.state.workspaces@.len() {
                turned_away(
                    before,
                    after,
                    placed,
                    view,
                    ("workspace_not_found"@, "workspace closed while the peer was splitting"@),
                )
            } else {
                let tabs = before.state.workspaces@[at].tabs@;
                let tab = crate::search::first(
                    tabs,
                    crate::app::state::tab_has(
                        crate::app::state::PaneKeyView::Id(finished.target_pane),
                    ),
                    0,
                );
                if tab >= tabs.len() {
                    turned_away(
                        before,
                        after,
                        placed,
                        view,
                        ("pane_not_found"@, "pane closed while the peer was splitting"@),
                    )
                } else {
                    let split = Split {
                        from: finished.target_pane,
                        direction: finished.direction,
                        ratio: finished.ratio,
                    };
                    &&& placed.discarded is None
                    &&& placed.reply == (Reply::Pane {
                        ws_idx: at as usize,
                        tab_idx: tab as usize,
                        pane_id: fresh.id,
                        split,
                    })
                    &&& placed.events@ == seq![
                        Announcement::PaneCreated { ws_idx: at as usize, pane_id: fresh.id },
                        Announcement::LayoutUpdated { ws_idx: at as usize, tab_idx: tab as usize },
                    ]
                    &&& crate::app::layout::attaches_pane(
                        before,
                        after,
                        at as usize,
                        tab as usize,
                        split,
                        TerminalRuntime::Remote(view),
                        finished.focus,
                        fresh,
                    )
                }
            }
        },
    }
}

impl App {
    /// Releases a peer-backed terminal opened without a workspace around it.
    ///
    /// A bare terminal is held by nothing, so without this the only way to
    /// release one is to exit the server. A terminal a pane is attached to is
    /// refused rather than silently left alone — closing the pane is what
    /// releases those.
    pub fn handle_peer_terminal_close(&mut self, target: TerminalTarget) -> (r: Result<
        (Reply, Vec<RuntimeEntry>),
        ErrorBody,
    >)
        ensures
            closes_terminal(*old(self), *final(self), r, target.terminal_id@),
    {
        let name = target.terminal_id.as_str();
        let at = match self.knows_terminal(name) {
            Some(at) => at,
            None => {
                return Err(ErrorBody::new("not_found", cat3("no terminal named '", name, "'")));
            },
        };
        let terminal_id = self.state.terminals[at].clone();
        let peer_backed = match self.runtime(&terminal_id) {
            Some(TerminalRuntime::Remote(_)) => true,
            _ => false,
        };
        if !peer_backed {
            return Err(
                ErrorBody::new(
                    "invalid_request",
                    cat3("terminal '", name, "' is not peer-backed"),
                ),
            );
        }
        if self.pane_location_for_terminal(&terminal_id).is_some() {
            return Err(
                ErrorBody::new(
                    "invalid_request",
                    cat3("terminal '", name, "' is attached to a pane; close the pane instead"),
                ),
            );
        }
        let id = &terminal_id;
        let same = |t: &TerminalId| -> (b: bool)
            ensures
                b == crate::app::layout::is_terminal(id@)(*t),
            { t.is(id) };
        let ended = self.release_terminals(same, Ghost(crate::app::layout::is_terminal(id@)));
        Ok((Reply::TerminalClosed { terminal_id: target.terminal_id }, ended))
    }

    /// Attaches a view onto the pane a peer just created for us as a new local
    /// tab.
    ///
    /// The workspace list can change while the peer round trip is in flight, so
    /// the workspace is found again by id. When it is gone the view has nothing
    /// to render into and is closed rather than left connected.
    pub fn handle_peer_tab_create_finished(&mut self, finished: PeerTabCreateResult, fresh: FreshTab) -> (r:
        Placed)
        ensures
            finishes_tab(*old(self), *final(self), r, finished, fresh),
    {
        let PeerTabCreateResult { workspace_id, label, focus, result, .. } = finished;
        let view = match result {
            Ok(view) => view,
            Err(error) => {
                return Placed::of(Reply::Error(error), None);
            },
        };
        match self.workspace_position(workspace_id.as_str()) {
            Some(ws_idx) => {
                let tab_idx = self.create_tab_attached(
                    ws_idx,
                    label,
                    TerminalRuntime::Remote(view),
                    focus,
                    fresh,
                );
                Placed::of(Reply::Tab { ws_idx, tab_idx }, None)
            },
            None => Placed::of(
                Reply::Error(
                    ErrorBody::of(
                        "workspace_not_found",
                        "workspace closed while the peer was creating the tab",
                    ),
                ),
                Some(self.discard_spawned_peer_view(view)),
            ),
        }
    }

    /// Places a connected peer view into the local layout once the peer has
    /// spawned the pane behind it: beside the pane that was split, in the direction
    /// and with the ratio that were asked for.
    pub fn handle_peer_pane_split_finished(
        &mut self,
        finished: PeerPaneSplitResult,
        fresh: FreshPane,
    ) -> (r: Placed)
        ensures
            finishes_split(*old(self), *final(self), r, finished, fresh),
    {
        let PeerPaneSplitResult {
            workspace_id,
            target_pane,
            direction,
            ratio,
            focus,
            result,
            ..
        } = finished;
        let view = match result {
            Ok(view) => view,
            Err(error) => {
                return Placed::of(Reply::Error(error), None);
            },
        };
        let ws_idx = match self.workspace_position(workspace_id.as_str()) {
            Some(ws_idx) => ws_idx,
            None => {
                return Placed::of(
                    Reply::Error(
                        ErrorBody::of(
                            "workspace_not_found",
                            "workspace closed while the peer was splitting",
                        ),
                    ),
                    Some(self.discard_spawned_peer_view(view)),
                );
            },
        };
        let tab_idx = self.state.workspaces[ws_idx].tab_position(&PaneKey::Id(target_pane));
        if tab_idx >= self.state.workspaces[ws_idx].tabs.len() {
            return Placed::of(
                Reply::Error(
                    ErrorBody::of("pane_not_found", "pane closed while the peer was splitting"),
                ),
                Some(self.discard_spawned_peer_view(view)),
            );
        }
        let pane_id = fresh.id;
        let split = Split { from: target_pane, direction, ratio };
        self.create_pane_attached(
            ws_idx,
            tab_idx,
            split,
            TerminalRuntime::Remote(view),
            focus,
            fresh,
        );
        Placed::of(Reply::Pane { ws_idx, tab_idx, pane_id, split }, None)
    }

    /// Opens the view onto a workspace a peer just created for us.
    ///
    /// The ordinary open path, so this view reconnects, dedupes and reports
    /// exactly like one opened from the picker. The pane exists on the peer, so
    /// it is adopted rather than marked as spawned here: closing this view must
    /// not delete a workspace the peer now lists as its own.
    pub fn handle_peer_workspace_create_finished(&mut self, finished: PeerWorkspaceCreateResult) -> (r:
        Started)
        ensures
            match finished.result {
                Err(error) => r == Started::Answered(Reply::Error(error)) && *final(self) == *old(
                    self,
                ),
                Ok(pane) => super::forward::opens_workspace(
                    *old(self),
                    *final(self),
                    r,
                    pane@,
                    Some(finished.handle@),
                    finished.label,
                    true,
                    finished.focus,
                    false,
                    None,
                ),
            },
    {
        match finished.result {
            Err(error) => Started::Answered(Reply::Error(error)),
            Ok(pane) => self.start_peer_created_open(
                pane,
                finished.handle.as_str(),
                finished.label,
                finished.focus,
                None,
            ),
        }
    }

    /// Closes a pane on the peer that spawned it for a view we are tearing down.
    ///
    /// The local pane is already gone and cannot be restored, so there is nothing
    /// a failure could roll back. Peer state lives on the event loop, so the route
    /// is resolved here; everything that can block happens on a worker.
    pub fn close_spawned_peer_pane(
        &self,
        peer: &str,
        peer_pane_id: &str,
        expected_instance: Option<String>,
    ) -> (r: PaneClose)
        ensures
            closes_pane(
                self.state.peers@,
                r,
                peer@,
                peer_pane_id@,
                crate::text::opt_view(expected_instance),
            ),
    {
        let handle = PeerHandle::new(peer);
        let route = match self.state.peers.get(&handle) {
            None => Err("peer is no longer configured".to_owned()),
            Some(state) => if !state.connection.is_connected() {
                Err(cat2("peer is ", state.connection.label()))
            } else {
                match (state.api_socket(), state.instance_id()) {
                    (Some(api_socket), Some(instance_id)) => Ok(
                        Route {
                            api_socket: api_socket.to_owned(),
                            instance_id: instance_id.to_owned(),
                        },
                    ),
                    (None, _) => Err("peer has no transport".to_owned()),
                    (_, None) => Err("peer has no instance identity".to_owned()),
                }
            },
        };
        PaneClose { handle, peer_pane_id: peer_pane_id.to_owned(), expected_instance, route }
    }

    /// Disposes of a peer-backed view that never reached the layout, closing the
    /// pane on the peer when this server is the one that asked for it.
    ///
    /// Shutting a view down only detaches. A view that is thrown away without
    /// this would leave a live shell on the peer that nothing reaps and nobody
    /// can see.
    pub fn discard_spawned_peer_view(&self, view: RemoteView) -> (r: Discarded)
        ensures
            discards(self.state.peers@, r, view),
    {
        let close = match view.spawned_peer_pane() {
            Some(spawned) => Some(
                self.close_spawned_peer_pane(
                    spawned.peer.as_str(),
                    spawned.peer_pane_id.as_str(),
                    spawned.expected_instance,
                ),
            ),
            None => None,
        };
        Discarded { view, close }
    }
}

/// The entry is a view onto a pane that a peer made for this server.
pub open spec fn is_spawned() -> spec_fn(RuntimeEntry) -> bool {
    |e: RuntimeEntry|
        match e.runtime {
            TerminalRuntime::Remote(view) => view.spawned_on_peer,
            _ => false,
        }
}

impl App {
    /// The panes to close on peers once these stopped running: those that were
    /// made for a view that ended. A pane that existed before its view is left
    /// alone.
    pub fn close_ended_views(&self, ended: &Vec<RuntimeEntry>) -> (r: Vec<PaneClose>)
        ensures
            r@.len() == ended@.filter(is_spawned()).len(),
            forall|i: int|
                0 <= i < r@.len() ==> closes_view(
                    self.state.peers@,
                    #[trigger] r@[i],
                    ended@.filter(is_spawned())[i],
                ),
    {
        let mut out: Vec<PaneClose> = Vec::new();
        let mut i: usize = 0;
        proof {
            reveal(Seq::filter);
            assert(ended@.take(0) =~= Seq::empty());
        }
        while i < ended.len()
            invariant
                i <= ended@.len(),
                out@.len() == ended@.take(i as int).filter(is_spawned()).len(),
                forall|j: int|
                    0 <= j < out@.len() ==> closes_view(
                        self.state.peers@,
                        #[trigger] out@[j],
                        ended@.take(i as int).filter(is_spawned())[j],
                    ),
            decreases ended@.len() - i,
        {
            proof {
                crate::search::lemma_filter_step(ended@, is_spawned(), i as int);
            }
            if let TerminalRuntime::Remote(view) = &ended[i].runtime {
                if let Some(spawned) = view.spawned_peer_pane() {
                    out.push(
                        self.close_spawned_peer_pane(
                            spawned.peer.as_str(),
                            spawned.peer_pane_id.as_str(),
                            spawned.expected_instance,
                        ),
                    );
                }
            }
            i += 1;
        }
        assert(ended@.take(i as int) =~= ended@);
        out
    }
}

/// The close is for the pane behind this view.
pub open spec fn closes_view(
    peers: Seq<crate::app::peers::PeerView>,
    close: PaneClose,
    entry: RuntimeEntry,
) -> bool {
    entry.runtime matches TerminalRuntime::Remote(view) && closes_pane(
        peers,
        close,
        view.peer@,
        view.target@,
        crate::text::opt_view(view.instance),
    )
}

/// What a failed close is reported as; `outcome` is what the peer answered, when
/// it could be asked.
///
/// A failure is retained against the peer with the pane id and the instance that
/// issued it, so the next time that same server is reachable the close can be
/// tried again.
pub fn report_pane_close(close: PaneClose, outcome: Result<(), String>) -> (r: Option<AppEvent>)
    ensures
        match (close.route, outcome) {
            (Ok(_), Ok(())) => r is None,
            (Ok(_), Err(reason)) => r == Some(
                AppEvent::PeerPaneCleanupFailed {
                    handle: close.handle,
                    peer_pane_id: close.peer_pane_id,
                    expected_instance: close.expected_instance,
                    reason,
                },
            ),
            (Err(reason), _) => r == Some(
                AppEvent::PeerPaneCleanupFailed {
                    handle: close.handle,
                    peer_pane_id: close.peer_pane_id,
                    expected_instance: close.expected_instance,
                    reason,
                },
            ),
        },
{
    let PaneClose { handle, peer_pane_id, expected_instance, route } = close;
    let reason = match route {
        Ok(_) => match outcome {
            Ok(()) => {
                return None;
            },
            Err(reason) => reason,
        },
        Err(reason) => reason,
    };
    Some(AppEvent::PeerPaneCleanupFailed { handle, peer_pane_id, expected_instance, reason })
}

/// The cleanups of a peer that can be retried, by the instance it last identified
/// itself as.
pub open spec fn retryable(peer: crate::app::peers::PeerView) -> Seq<
    crate::app::peers::CleanupView,
> {
    match peer.instance_id() {
        Some(id) => peer.pending_pane_cleanups.filter(crate::app::peers::cleanup_expects(id)),
        None => Seq::empty(),
    }
}

/// The peers once the retryable cleanups of this one were taken.
pub open spec fn without_retryable(
    peers: Seq<crate::app::peers::PeerView>,
    handle: Seq<char>,
) -> Seq<crate::app::peers::PeerView> {
    let at = crate::app::peers::position(peers, handle);
    if at < peers.len() && peers[at].instance_id() is Some {
        peers.update(
            at,
            crate::app::peers::PeerView {
                pending_pane_cleanups: peers[at].pending_pane_cleanups.filter(
                    crate::app::peers::cleanup_expects_other(peers[at].instance_id()->0),
                ),
                ..peers[at]
            },
        )
    } else {
        peers
    }
}

/// The closes of a peer that can be tried again were taken from it.
pub open spec fn takes_cleanups(
    before: App,
    after: App,
    closes: Seq<PaneClose>,
    handle: Seq<char>,
) -> bool {
    let peers = before.state.peers@;
    let at = crate::app::peers::position(peers, handle);
    let taken = if at < peers.len() {
        retryable(peers[at])
    } else {
        Seq::empty()
    };
    &&& closes.len() == taken.len()
    &&& forall|i: int|
        0 <= i < taken.len() ==> closes_pane(
            after.state.peers@,
            #[trigger] closes[i],
            handle,
            taken[i].peer_pane_id,
            taken[i].expected_instance,
        )
    &&& after.state.peers@ == without_retryable(peers, handle)
    &&& after == (App {
        state: crate::app::state::AppState { peers: after.state.peers, ..before.state },
        ..before
    })
}

impl App {
    /// Retries the closes that failed while this peer was unreachable.
    ///
    /// Records whose instance no longer matches are left where they are: the ids
    /// were issued by a server that is gone, and sending them to whatever
    /// replaced it could close an unrelated pane. Records are taken out before
    /// retrying and put back by the failure event, so a retry that fails again is
    /// retained exactly once.
    pub fn retry_pending_pane_cleanups(&mut self, handle: &PeerHandle) -> (r: Vec<PaneClose>)
        ensures
            takes_cleanups(*old(self), *final(self), r@, handle@),
            crate::app::peers::consistent(old(self).state.peers@)
                ==> crate::app::peers::consistent(final(self).state.peers@),
    {
        let mut out: Vec<PaneClose> = Vec::new();
        let instance_id = match self.state.peers.get(handle) {
            Some(peer) => match peer.instance_id() {
                Some(id) => id.to_owned(),
                None => {
                    return out;
                },
            },
            None => {
                return out;
            },
        };
        let pending = self.state.peers.take_retryable_pane_cleanups(handle, instance_id.as_str());
        let ghost taken = crate::app::peers::cleanups_view(pending@);
        let mut i: usize = 0;
        while i < pending.len()
            invariant
                i <= pending.len(),
                out@.len() == i,
                taken == crate::app::peers::cleanups_view(pending@),
                forall|j: int|
                    0 <= j < i ==> closes_pane(
                        self.state.peers@,
                        #[trigger] out@[j],
                        handle@,
                        taken[j].peer_pane_id,
                        taken[j].expected_instance,
                    ),
            decreases pending.len() - i,
        {
            let record: &PendingPaneCleanup = &pending[i];
            assert(taken[i as int] == record@);
            out.push(
                self.close_spawned_peer_pane(
                    handle.as_str(),
                    record.peer_pane_id.as_str(),
                    crate::text::opt_clone(&record.expected_instance),
                ),
            );
            i += 1;
        }
        out
    }
}

/// The workspace is a view onto this peer.
pub open spec fn backed_by(peer: Seq<char>) -> spec_fn(Workspace) -> bool {
    |w: Workspace| w.peer is Some && w.peer->0@ == peer
}

/// One of these workspaces shows the terminal.
pub open spec fn shown_by(workspaces: Seq<Workspace>) -> spec_fn(TerminalId) -> bool {
    |t: TerminalId| crate::app::layout::shown(workspaces, t@)
}

/// Where the shown and the selected workspace are once every view onto a peer was
/// selected and closed, one after the other.
pub open spec fn shown_after(
    workspaces: Seq<Workspace>,
    peer: Seq<char>,
    active: Option<usize>,
    selected: usize,
) -> (Option<usize>, usize)
    decreases workspaces.len(),
{
    let at = crate::search::first(workspaces, backed_by(peer), 0);
    if 0 <= at < workspaces.len() {
        let left = (workspaces.len() - 1) as nat;
        shown_after(
            workspaces.remove(at),
            peer,
            crate::app::layout::active_after(active, at as usize, left),
            crate::app::layout::index_after(at as usize, at as usize, left),
        )
    } else {
        (active, selected)
    }
}

/// Views that were closed together, and what stopped running with them.
#[derive(Debug, PartialEq, Eq)]
pub struct ClosedViews {
    /// In the order they were listed.
    pub workspaces: Vec<Workspace>,
    /// What goes out to subscribers: the closing of each.
    pub events: Vec<Announcement>,
    pub ended: Vec<RuntimeEntry>,
    /// The panes that were in them. What plugins recorded of those is to be
    /// dropped.
    pub panes: Vec<PaneId>,
}

/// Every view onto a peer was closed, and the terminals only they showed were
/// released; everything else stayed.
pub open spec fn closes_views(before: App, after: App, closed: ClosedViews, peer: Seq<char>) -> bool {
    let all = before.state.workspaces@;
    &&& after.state.workspaces@ == all.filter(crate::search::lacks(backed_by(peer)))
    &&& closed.workspaces@ == all.filter(backed_by(peer))
    &&& closed.panes@ == crate::app::state::panes_of(closed.workspaces@)
    &&& closed.events@.len() == closed.workspaces@.len()
    &&& forall|i: int|
        0 <= i < closed.events@.len() ==> crate::app::api::announce::announces_close(
            #[trigger] closed.events@[i],
            closed.workspaces@[i],
        )
    &&& crate::app::layout::released(
        before,
        after,
        closed.ended@,
        shown_by(closed.workspaces@),
    )
    &&& after.state == (crate::app::state::AppState {
        workspaces: after.state.workspaces,
        terminals: after.state.terminals,
        active: shown_after(all, peer, before.state.active, before.state.selected).0,
        selected: shown_after(all, peer, before.state.active, before.state.selected).1,
        ..before.state
    })
}

impl App {
    /// The position of the first view onto a peer, or the number of workspaces.
    fn first_backed_by(&self, peer: &str) -> (r: usize)
        ensures
            r == crate::search::first(self.state.workspaces@, backed_by(peer@), 0),
            r <= self.state.workspaces@.len(),
    {
        let mut i: usize = 0;
        while i < self.state.workspaces.len() && !opt_is(&self.state.workspaces[i].peer, peer)
            invariant
                i <= self.state.workspaces.len(),
                crate::search::first(self.state.workspaces@, backed_by(peer@), 0)
                    == crate::search::first(self.state.workspaces@, backed_by(peer@), i as int),
            decreases self.state.workspaces.len() - i,
        {
            i += 1;
        }
        i
    }

    /// Closes every workspace backed by a peer that has just been removed.
    ///
    /// Keyed on removal, never on disconnection: a peer that dropped out is
    /// expected back, and closing its views on a blip would delete the layout out
    /// from under whoever is using it. Removal is permanent, so the views can only
    /// ever render a frozen frame.
    pub fn close_views_backed_by_peer(&mut self, handle: &PeerHandle) -> (r: ClosedViews)
        ensures
            closes_views(*old(self), *final(self), r, handle@),
    {
        let ghost all = self.state.workspaces@;
        let ghost p = backed_by(handle@);
        let ghost ends = shown_after(all, handle@, self.state.active, self.state.selected);
        let mut closed: Vec<Workspace> = Vec::new();
        let mut at: usize = self.first_backed_by(handle.as_str());
        while at < self.state.workspaces.len()
            invariant
                p == backed_by(handle@),
                at == crate::search::first(self.state.workspaces@, p, 0),
                at <= self.state.workspaces@.len(),
                self.state.workspaces@.filter(crate::search::lacks(p)) == all.filter(
                    crate::search::lacks(p),
                ),
                closed@ + self.state.workspaces@.filter(p) == all.filter(p),
                shown_after(
                    self.state.workspaces@,
                    handle@,
                    self.state.active,
                    self.state.selected,
                ) == ends,
                *self == (App {
                    state: crate::app::state::AppState {
                        workspaces: self.state.workspaces,
                        active: self.state.active,
                        selected: self.state.selected,
                        ..old(self).state
                    },
                    ..*old(self)
                }),
            decreases self.state.workspaces@.len(),
        {
            proof {
                crate::search::lemma_filter_first(self.state.workspaces@, p);
            }
            let ghost before = closed@;
            let ghost rest = self.state.workspaces@.remove(at as int);
            let workspace = self.state.workspaces.remove(at);
            closed.push(workspace);
            let left = self.state.workspaces.len();
            self.state.active = match self.state.active {
                Some(active) => if left > 0 {
                    Some(crate::app::layout::position_after(active, at, left))
                } else {
                    None
                },
                None => None,
            };
            self.state.selected = crate::app::layout::position_after(at, at, left);
            assert(before.push(workspace) + rest.filter(p) =~= before + (seq![workspace]
                + rest.filter(p)));
            at = self.first_backed_by(handle.as_str());
        }
        proof {
            crate::search::lemma_first(self.state.workspaces@, p, 0);
            crate::search::lemma_filter_none(self.state.workspaces@, p);
            assert(closed@ =~= all.filter(p));
        }
        let workspaces = &closed;
        let held = |t: &TerminalId| -> (b: bool)
            ensures
                b == shown_by(workspaces@)(*t),
            { crate::app::layout::is_shown(workspaces, t) };
        let ended = self.release_terminals(held, Ghost(shown_by(workspaces@)));
        let events = closing_announcements(&closed);
        let panes = crate::app::state::pane_ids(&closed);
        ClosedViews { workspaces: closed, events, ended, panes }
    }
}

} // verus!
