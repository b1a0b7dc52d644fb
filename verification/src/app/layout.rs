//! Putting panes where they are shown, and taking them away.
//!
//! Ids are handed in by whoever allocates them. What stops running is handed
//! back, for its owner to shut down.

use vstd::prelude::*;

use crate::app::state::{App, Mode, Pane, PaneId, PaneKey, RuntimeEntry, Split, Tab, Workspace};
use crate::pane::state::PaneState;
use crate::search::take_where;
use crate::terminal::{TerminalId, TerminalRuntime};

verus! {

/// The ids of a pane that is about to exist.
#[derive(Debug, PartialEq, Eq)]
pub struct FreshPane {
    pub id: PaneId,
    pub public_id: String,
    pub terminal_id: TerminalId,
}

/// The ids of a tab that is about to exist, and of its pane.
#[derive(Debug, PartialEq, Eq)]
pub struct FreshTab {
    pub public_id: String,
    pub pane: FreshPane,
}

/// The ids of a workspace that is about to exist, and of its tab.
#[derive(Debug, PartialEq, Eq)]
pub struct FreshWorkspace {
    pub id: String,
    pub public_id: String,
    pub tab: FreshTab,
}

/// The pane with these ids, where this split made room for it.
pub open spec fn new_pane(fresh: FreshPane, split: Option<Split>) -> Pane {
    Pane {
        id: fresh.id,
        public_id: fresh.public_id,
        state: PaneState {
            attached_terminal_id: fresh.terminal_id,
            kind: crate::pane::state::PaneKind::Terminal,
            seen: true,
        },
        split,
        label: None,
    }
}

/// The tab has these ids and exactly one new pane.
pub open spec fn is_new_tab(tab: Tab, fresh: FreshTab, name: Option<String>) -> bool {
    &&& tab.public_id == fresh.public_id
    &&& tab.panes@ == seq![new_pane(fresh.pane, None)]
    &&& tab.custom_name == name
}

/// The terminal has this id.
pub open spec fn is_terminal(id: Seq<char>) -> spec_fn(TerminalId) -> bool {
    |t: TerminalId| t@ == id
}

/// The runtimes once this terminal has this one.
pub open spec fn runtime_set(runtimes: Seq<RuntimeEntry>, entry: RuntimeEntry) -> Seq<RuntimeEntry> {
    let at = crate::app::state::runtime_at(runtimes, entry.terminal_id@);
    if at < runtimes.len() {
        runtimes.update(at, entry)
    } else {
        runtimes.push(entry)
    }
}

/// The terminals once this one is among them.
pub open spec fn terminal_set(terminals: Seq<TerminalId>, id: TerminalId) -> Seq<TerminalId> {
    if crate::search::any(terminals, is_terminal(id@)) {
        terminals
    } else {
        terminals.push(id)
    }
}

/// The terminal is registered with this runtime, and nothing else changed.
pub open spec fn registers(before: App, after: App, id: TerminalId, runtime: TerminalRuntime) -> bool {
    &&& after.terminal_runtimes@ == runtime_set(
        before.terminal_runtimes@,
        RuntimeEntry { terminal_id: id, runtime },
    )
    &&& after.state.terminals@ == terminal_set(before.state.terminals@, id)
    &&& after.state == (crate::app::state::AppState {
        terminals: after.state.terminals,
        ..before.state
    })
    &&& after.peer_view_opens_in_flight == before.peer_view_opens_in_flight
}

/// A workspace with one pane that views a peer was put at the end of the list.
pub open spec fn attaches_workspace(
    before: App,
    after: App,
    peer: Seq<char>,
    peer_workspace: Option<String>,
    label: Seq<char>,
    runtime: TerminalRuntime,
    focus: bool,
    fresh: FreshWorkspace,
) -> bool {
    let at = before.state.workspaces@.len() as usize;
    let added = after.state.workspaces@.last();
    &&& after.state.workspaces@ == before.state.workspaces@.push(added)
    &&& added.id == fresh.id
    &&& added.public_id == fresh.public_id
    &&& added.peer is Some && added.peer->0@ == peer
    &&& added.peer_workspace == peer_workspace
    &&& added.label is Some && added.label->0@ == label
    &&& added.tabs@.len() == 1
    &&& is_new_tab(added.tabs@[0], fresh.tab, None)
    &&& added.active_tab == 0
    &&& added.focused_pane == Some(fresh.tab.pane.id)
    &&& after.terminal_runtimes@ == runtime_set(
        before.terminal_runtimes@,
        RuntimeEntry { terminal_id: fresh.tab.pane.terminal_id, runtime },
    )
    &&& after.state.terminals@ == terminal_set(
        before.state.terminals@,
        fresh.tab.pane.terminal_id,
    )
    &&& after.state == (crate::app::state::AppState {
        workspaces: after.state.workspaces,
        terminals: after.state.terminals,
        active: if focus {
            Some(at)
        } else {
            before.state.active
        },
        selected: if focus {
            at
        } else {
            before.state.selected
        },
        ..before.state
    })
    &&& after.peer_view_opens_in_flight == before.peer_view_opens_in_flight
}

/// A tab with one pane was put at the end of this workspace.
pub open spec fn attaches_tab(
    before: App,
    after: App,
    at: usize,
    name: Option<String>,
    runtime: TerminalRuntime,
    focus: bool,
    fresh: FreshTab,
) -> bool {
    let was = before.state.workspaces@[at as int];
    let now = after.state.workspaces@[at as int];
    let tab = was.tabs@.len() as usize;
    &&& after.state.workspaces@ == before.state.workspaces@.update(at as int, now)
    &&& now.tabs@ == was.tabs@.push(now.tabs@.last())
    &&& is_new_tab(now.tabs@.last(), fresh, name)
    &&& now == (Workspace {
        tabs: now.tabs,
        active_tab: if focus {
            tab
        } else {
            was.active_tab
        },
        focused_pane: if focus {
            Some(fresh.pane.id)
        } else {
            was.focused_pane
        },
        ..was
    })
    &&& after.terminal_runtimes@ == runtime_set(
        before.terminal_runtimes@,
        RuntimeEntry { terminal_id: fresh.pane.terminal_id, runtime },
    )
    &&& after.state.terminals@ == terminal_set(before.state.terminals@, fresh.pane.terminal_id)
    &&& after.state == (crate::app::state::AppState {
        workspaces: after.state.workspaces,
        terminals: after.state.terminals,
        active: if focus {
            Some(at)
        } else {
            before.state.active
        },
        selected: if focus {
            at
        } else {
            before.state.selected
        },
        mode: if focus {
            Mode::Terminal
        } else {
            before.state.mode
        },
        ..before.state
    })
    &&& after.peer_view_opens_in_flight == before.peer_view_opens_in_flight
}

/// A pane was put into this tab of this workspace, where this split made room for
/// it.
pub open spec fn attaches_pane(
    before: App,
    after: App,
    at: usize,
    tab: usize,
    split: Split,
    runtime: TerminalRuntime,
    focus: bool,
    fresh: FreshPane,
) -> bool {
    let was = before.state.workspaces@[at as int];
    let now = after.state.workspaces@[at as int];
    &&& after.state.workspaces@ == before.state.workspaces@.update(at as int, now)
    &&& now.tabs@ == was.tabs@.update(tab as int, now.tabs@[tab as int])
    &&& now.tabs@[tab as int] == (Tab { panes: now.tabs@[tab as int].panes, ..was.tabs@[tab as int] })
    &&& now.tabs@[tab as int].panes@ == was.tabs@[tab as int].panes@.push(
        new_pane(fresh, Some(split)),
    )
    &&& now == (Workspace {
        tabs: now.tabs,
        active_tab: if focus {
            tab
        } else {
            was.active_tab
        },
        focused_pane: if focus {
            Some(fresh.id)
        } else {
            was.focused_pane
        },
        ..was
    })
    &&& after.terminal_runtimes@ == runtime_set(
        before.terminal_runtimes@,
        RuntimeEntry { terminal_id: fresh.terminal_id, runtime },
    )
    &&& after.state.terminals@ == terminal_set(before.state.terminals@, fresh.terminal_id)
    &&& after.state == (crate::app::state::AppState {
        workspaces: after.state.workspaces,
        terminals: after.state.terminals,
        active: if focus {
            Some(at)
        } else {
            before.state.active
        },
        selected: if focus {
            at
        } else {
            before.state.selected
        },
        mode: if focus {
            Mode::Terminal
        } else {
            before.state.mode
        },
        ..before.state
    })
    &&& after.peer_view_opens_in_flight == before.peer_view_opens_in_flight
}

fn pane_of(fresh: FreshPane, split: Option<Split>) -> (r: Pane)
    ensures
        r == new_pane(fresh, split),
{
    Pane {
        id: fresh.id,
        public_id: fresh.public_id,
        state: PaneState::new(fresh.terminal_id),
        split,
        label: None,
    }
}

fn tab_of(fresh: FreshTab, name: Option<String>) -> (r: Tab)
    ensures
        is_new_tab(r, fresh, name),
{
    let mut panes: Vec<Pane> = Vec::new();
    panes.push(pane_of(fresh.pane, None));
    assert(panes@ =~= seq![new_pane(fresh.pane, None)]);
    Tab { public_id: fresh.public_id, panes, custom_name: name }
}

impl App {
    /// Whether this terminal is registered.
    pub fn knows_terminal(&self, id: &str) -> (r: Option<usize>)
        ensures
            match r {
                Some(at) => at == crate::search::first(
                    self.state.terminals@,
                    is_terminal(id@),
                    0,
                ) && at < self.state.terminals@.len() && self.state.terminals@[at as int]@ == id@,
                None => !crate::search::any(self.state.terminals@, is_terminal(id@)),
            },
    {
        let mut i: usize = 0;
        while i < self.state.terminals.len()
            invariant
                i <= self.state.terminals.len(),
                crate::search::first(self.state.terminals@, is_terminal(id@), 0)
                    == crate::search::first(self.state.terminals@, is_terminal(id@), i as int),
            decreases self.state.terminals.len() - i,
        {
            if crate::text::str_eq(self.state.terminals[i].as_str(), id) {
                return Some(i);
            }
            i += 1;
        }
        None
    }

    /// Registers a terminal and what runs it.
    ///
    /// In both lists: an id is only usable if a client can find it, and only
    /// reapable if releasing it can find a terminal to remove.
    pub fn register_terminal(&mut self, id: TerminalId, runtime: TerminalRuntime)
        ensures
            registers(*old(self), *final(self), id, runtime),
    {
        let at = self.runtime_position(&id);
        let entry = RuntimeEntry { terminal_id: id.clone(), runtime };
        if at < self.terminal_runtimes.len() {
            self.terminal_runtimes.set(at, entry);
        } else {
            self.terminal_runtimes.push(entry);
        }
        if self.knows_terminal(id.as_str()).is_none() {
            self.state.terminals.push(id);
        }
    }

    /// Puts a workspace with one pane that views a peer at the end of the list.
    /// Returns its position.
    pub fn create_attached_workspace(
        &mut self,
        peer: String,
        peer_workspace: Option<String>,
        label: String,
        runtime: TerminalRuntime,
        focus: bool,
        fresh: FreshWorkspace,
    ) -> (r: usize)
        ensures
            r == old(self).state.workspaces@.len(),
            attaches_workspace(
                *old(self),
                *final(self),
                peer@,
                peer_workspace,
                label@,
                runtime,
                focus,
                fresh,
            ),
    {
        let at = self.state.workspaces.len();
        let terminal_id = fresh.tab.pane.terminal_id.clone();
        let pane_id = fresh.tab.pane.id;
        let mut tabs: Vec<Tab> = Vec::new();
        tabs.push(tab_of(fresh.tab, None));
        self.state.workspaces.push(
            Workspace {
                id: fresh.id,
                public_id: fresh.public_id,
                peer: Some(peer),
                peer_workspace,
                label: Some(label),
                tabs,
                active_tab: 0,
                focused_pane: Some(pane_id),
            },
        );
        self.register_terminal(terminal_id, runtime);
        if focus {
            self.switch_workspace(at);
        }
        at
    }

    /// Puts a tab with one pane at the end of a workspace. Returns its position.
    pub fn create_tab_attached(
        &mut self,
        at: usize,
        name: Option<String>,
        runtime: TerminalRuntime,
        focus: bool,
        fresh: FreshTab,
    ) -> (r: usize)
        requires
            at < old(self).state.workspaces@.len(),
        ensures
            r == old(self).state.workspaces@[at as int].tabs@.len(),
            attaches_tab(*old(self), *final(self), at, name, runtime, focus, fresh),
    {
        let tab = self.state.workspaces[at].tabs.len();
        let terminal_id = fresh.pane.terminal_id.clone();
        let pane_id = fresh.pane.id;
        self.state.workspaces[at].tabs.push(tab_of(fresh, name));
        if focus {
            self.state.workspaces[at].active_tab = tab;
            self.state.workspaces[at].focused_pane = Some(pane_id);
            self.state.active = Some(at);
            self.state.selected = at;
            self.state.mode = Mode::Terminal;
        }
        self.register_terminal(terminal_id, runtime);
        assert(self.state.workspaces@ =~= old(self).state.workspaces@.update(
            at as int,
            self.state.workspaces@[at as int],
        ));
        assert(self.state.workspaces@[at as int].tabs@ =~= old(
            self,
        ).state.workspaces@[at as int].tabs@.push(
            self.state.workspaces@[at as int].tabs@.last(),
        ));
        tab
    }

    /// Puts a pane into a tab, where a split made room for it.
    pub fn create_pane_attached(
        &mut self,
        at: usize,
        tab: usize,
        split: Split,
        runtime: TerminalRuntime,
        focus: bool,
        fresh: FreshPane,
    )
        requires
            at < old(self).state.workspaces@.len(),
            tab < old(self).state.workspaces@[at as int].tabs@.len(),
        ensures
            attaches_pane(*old(self), *final(self), at, tab, split, runtime, focus, fresh),
    {
        let terminal_id = fresh.terminal_id.clone();
        let pane_id = fresh.id;
        self.state.workspaces[at].tabs[tab].panes.push(pane_of(fresh, Some(split)));
        if focus {
            self.state.workspaces[at].active_tab = tab;
            self.state.workspaces[at].focused_pane = Some(pane_id);
            self.state.active = Some(at);
            self.state.selected = at;
            self.state.mode = Mode::Terminal;
        }
        self.register_terminal(terminal_id, runtime);
        assert(self.state.workspaces@ =~= old(self).state.workspaces@.update(
            at as int,
            self.state.workspaces@[at as int],
        ));
        assert(self.state.workspaces@[at as int].tabs@ =~= old(
            self,
        ).state.workspaces@[at as int].tabs@.update(
            tab as int,
            self.state.workspaces@[at as int].tabs@[tab as int],
        ));
    }
}

/// A pane of these workspaces shows this terminal.
pub open spec fn shown(workspaces: Seq<Workspace>, id: Seq<char>) -> bool {
    crate::search::any(
        workspaces,
        crate::app::state::workspace_has(crate::app::state::PaneKeyView::Terminal(id)),
    )
}

/// The terminal has the property, and no pane shows it.
pub open spec fn unattached(
    workspaces: Seq<Workspace>,
    p: spec_fn(TerminalId) -> bool,
) -> spec_fn(TerminalId) -> bool {
    |t: TerminalId| p(t) && !shown(workspaces, t@)
}

/// The runtime is that of a registered terminal with the property that no pane
/// shows.
pub open spec fn runs_unattached(
    workspaces: Seq<Workspace>,
    terminals: Seq<TerminalId>,
    p: spec_fn(TerminalId) -> bool,
) -> spec_fn(RuntimeEntry) -> bool {
    |e: RuntimeEntry|
        unattached(workspaces, p)(e.terminal_id) && crate::search::any(
            terminals,
            is_terminal(e.terminal_id@),
        )
}

/// The registered terminals with the property that no pane shows any more are
/// gone, and their runtimes with them.
pub open spec fn released(
    before: App,
    after: App,
    ended: Seq<RuntimeEntry>,
    p: spec_fn(TerminalId) -> bool,
) -> bool {
    let left = after.state.workspaces@;
    let ends = runs_unattached(left, before.state.terminals@, p);
    &&& after.state.terminals@ == before.state.terminals@.filter(
        crate::search::lacks(unattached(left, p)),
    )
    &&& ended == before.terminal_runtimes@.filter(ends)
    &&& after.terminal_runtimes@ == before.terminal_runtimes@.filter(crate::search::lacks(ends))
    &&& after.peer_view_opens_in_flight == before.peer_view_opens_in_flight
}

/// Only that the terminals were released changed.
pub open spec fn only_releases(
    before: App,
    after: App,
    ended: Seq<RuntimeEntry>,
    p: spec_fn(TerminalId) -> bool,
) -> bool {
    &&& released(before, after, ended, p)
    &&& after.state == (crate::app::state::AppState {
        terminals: after.state.terminals,
        ..before.state
    })
}

/// A pane of this workspace shows the terminal.
pub open spec fn shown_in(workspace: Workspace) -> spec_fn(TerminalId) -> bool {
    |t: TerminalId|
        crate::app::state::workspace_has(crate::app::state::PaneKeyView::Terminal(t@))(workspace)
}

/// Where a position is once another was removed and `left` remain.
pub open spec fn index_after(at: usize, removed: usize, left: nat) -> usize {
    let shifted = if removed < at {
        (at - 1) as usize
    } else {
        at
    };
    if shifted < left {
        shifted
    } else if left > 0 {
        (left - 1) as usize
    } else {
        0
    }
}

/// Where the shown workspace is once another was removed and `left` remain.
pub open spec fn active_after(active: Option<usize>, removed: usize, left: nat) -> Option<usize> {
    match active {
        Some(at) if left > 0 => Some(index_after(at, removed, left)),
        _ => None,
    }
}

/// This workspace was closed while the sidebar's cursor was on `cursor`, and the
/// terminals only it showed were released.
pub open spec fn closes_under(
    before: App,
    after: App,
    at: usize,
    cursor: usize,
    ended: Seq<RuntimeEntry>,
) -> bool {
    let left = (before.state.workspaces@.len() - 1) as nat;
    &&& after.state.workspaces@ == before.state.workspaces@.remove(at as int)
    &&& released(before, after, ended, shown_in(before.state.workspaces@[at as int]))
    &&& after.state == (crate::app::state::AppState {
        workspaces: after.state.workspaces,
        terminals: after.state.terminals,
        active: active_after(before.state.active, at, left),
        selected: index_after(cursor, at, left),
        ..before.state
    })
}

/// This workspace was selected and closed, and the terminals only it showed were
/// released. Where the cursor was before does not matter.
pub open spec fn closes_workspace(before: App, after: App, at: usize, ended: Seq<RuntimeEntry>) -> bool {
    closes_under(before, after, at, at, ended)
}

/// The first pane of the tab that is shown.
pub open spec fn leading_pane(tabs: Seq<Tab>, active_tab: usize) -> Option<PaneId> {
    if active_tab < tabs.len() && tabs[active_tab as int].panes@.len() > 0 {
        Some(tabs[active_tab as int].panes@[0].id)
    } else {
        None
    }
}

/// This pane was taken out: its tab goes with it when it was the tab's last, and
/// the workspace when it was the workspace's last.
pub open spec fn removes_pane(
    before: App,
    after: App,
    at: usize,
    tab: usize,
    pane: usize,
    ended: Seq<RuntimeEntry>,
) -> bool {
    let was = before.state.workspaces@[at as int];
    let panes = was.tabs@[tab as int].panes@;
    if was.tabs@.len() == 1 && panes.len() == 1 {
        closes_under(before, after, at, before.state.selected, ended)
    } else {
        let now = after.state.workspaces@[at as int];
        &&& after.state.workspaces@ == before.state.workspaces@.update(at as int, now)
        &&& if panes.len() == 1 {
            &&& now.tabs@ == was.tabs@.remove(tab as int)
            &&& now.active_tab == index_after(was.active_tab, tab, now.tabs@.len())
        } else {
            &&& now.tabs@ == was.tabs@.update(tab as int, now.tabs@[tab as int])
            &&& now.tabs@[tab as int] == (Tab {
                panes: now.tabs@[tab as int].panes,
                ..was.tabs@[tab as int]
            })
            &&& now.tabs@[tab as int].panes@ == panes.remove(pane as int)
            &&& now.active_tab == was.active_tab
        }
        &&& now == (Workspace {
            tabs: now.tabs,
            active_tab: now.active_tab,
            focused_pane: if was.focused_pane == Some(panes[pane as int].id) {
                leading_pane(now.tabs@, now.active_tab)
            } else {
                was.focused_pane
            },
            ..was
        })
        &&& released(
            before,
            after,
            ended,
            is_terminal(panes[pane as int].state.attached_terminal_id@),
        )
        &&& after.state == (crate::app::state::AppState {
            workspaces: after.state.workspaces,
            terminals: after.state.terminals,
            ..before.state
        })
    }
}

pub(crate) fn has_terminal(terminals: &Vec<TerminalId>, id: &TerminalId) -> (r: bool)
    ensures
        r == crate::search::any(terminals@, is_terminal(id@)),
{
    let mut i: usize = 0;
    while i < terminals.len()
        invariant
            i <= terminals.len(),
            crate::search::first(terminals@, is_terminal(id@), 0) == crate::search::first(
                terminals@,
                is_terminal(id@),
                i as int,
            ),
        decreases terminals.len() - i,
    {
        if terminals[i].is(id) {
            return true;
        }
        i += 1;
    }
    false
}

pub(crate) fn is_shown(workspaces: &Vec<Workspace>, id: &TerminalId) -> (r: bool)
    ensures
        r == shown(workspaces@, id@),
{
    crate::app::state::workspace_with(workspaces, &PaneKey::Terminal(id)) < workspaces.len()
}

pub(crate) fn position_after(at: usize, removed: usize, left: usize) -> (r: usize)
    ensures
        r == index_after(at, removed, left as nat),
{
    let shifted = if removed < at {
        at - 1
    } else {
        at
    };
    if shifted < left {
        shifted
    } else if left > 0 {
        left - 1
    } else {
        0
    }
}

impl App {
    /// Releases the registered terminals with a property that no pane shows, and
    /// hands back what ran them.
    pub(crate) fn release_terminals<F: Fn(&TerminalId) -> bool>(
        &mut self,
        f: F,
        p: Ghost<spec_fn(TerminalId) -> bool>,
    ) -> (r: Vec<RuntimeEntry>)
        requires
            forall|x: &TerminalId| call_requires(f, (x,)),
            forall|x: &TerminalId, b: bool| call_ensures(f, (x,), b) ==> b == p@(*x),
        ensures
            only_releases(*old(self), *final(self), r@, p@),
    {
        let workspaces = &self.state.workspaces;
        let terminals = &self.state.terminals;
        let ghost ends = runs_unattached(workspaces@, terminals@, p@);
        let decides = |e: &RuntimeEntry| -> (b: bool)
            ensures
                b == runs_unattached(workspaces@, terminals@, p@)(*e),
            { f(&e.terminal_id) && !is_shown(workspaces, &e.terminal_id) && has_terminal(
                terminals,
                &e.terminal_id,
            ) };
        let ended = take_where(&mut self.terminal_runtimes, decides, Ghost(ends));
        let ghost gone = unattached(workspaces@, p@);
        let goes = |t: &TerminalId| -> (b: bool)
            ensures
                b == unattached(workspaces@, p@)(*t),
            { f(t) && !is_shown(workspaces, t) };
        take_where(&mut self.state.terminals, goes, Ghost(gone));
        ended
    }

    /// Selects a workspace and closes it, and releases the terminals only it showed.
    pub fn close_workspace(&mut self, at: usize) -> (r: (Workspace, Vec<RuntimeEntry>))
        requires
            at < old(self).state.workspaces@.len(),
        ensures
            r.0 == old(self).state.workspaces@[at as int],
            closes_workspace(*old(self), *final(self), at, r.1@),
    {
        self.close_under(at, at)
    }

    /// Closes a workspace while the cursor is on `cursor`, and releases the
    /// terminals only it showed.
    fn close_under(&mut self, at: usize, cursor: usize) -> (r: (Workspace, Vec<RuntimeEntry>))
        requires
            at < old(self).state.workspaces@.len(),
        ensures
            r.0 == old(self).state.workspaces@[at as int],
            closes_under(*old(self), *final(self), at, cursor, r.1@),
    {
        let closed = self.state.workspaces.remove(at);
        let left = self.state.workspaces.len();
        self.state.active = match self.state.active {
            Some(active) => if left > 0 {
                Some(position_after(active, at, left))
            } else {
                None
            },
            None => None,
        };
        self.state.selected = position_after(cursor, at, left);
        let workspace = &closed;
        let held = |t: &TerminalId| -> (b: bool)
            ensures
                b == shown_in(*workspace)(*t),
            { workspace.holds_terminal(t) };
        let ended = self.release_terminals(held, Ghost(shown_in(*workspace)));
        (closed, ended)
    }

    /// Takes a pane out, as when what it showed has ended.
    pub fn remove_pane(&mut self, at: usize, tab: usize, pane: usize) -> (r: Vec<RuntimeEntry>)
        requires
            at < old(self).state.workspaces@.len(),
            tab < old(self).state.workspaces@[at as int].tabs@.len(),
            pane < old(self).state.workspaces@[at as int].tabs@[tab as int].panes@.len(),
        ensures
            removes_pane(*old(self), *final(self), at, tab, pane, r@),
    {
        if self.state.workspaces[at].tabs.len() == 1
            && self.state.workspaces[at].tabs[tab].panes.len() == 1 {
            let (_, ended) = self.close_under(at, self.state.selected);
            return ended;
        }
        let removed = self.state.workspaces[at].tabs[tab].panes.remove(pane);
        if self.state.workspaces[at].tabs[tab].panes.len() == 0 {
            self.state.workspaces[at].tabs.remove(tab);
            let left = self.state.workspaces[at].tabs.len();
            let active = self.state.workspaces[at].active_tab;
            self.state.workspaces[at].active_tab = position_after(active, tab, left);
        }
        let was_focused = match self.state.workspaces[at].focused_pane {
            Some(focused) => focused == removed.id,
            None => false,
        };
        if was_focused {
            let workspace = &self.state.workspaces[at];
            let next = if workspace.active_tab < workspace.tabs.len()
                && workspace.tabs[workspace.active_tab].panes.len() > 0 {
                Some(workspace.tabs[workspace.active_tab].panes[0].id)
            } else {
                None
            };
            self.state.workspaces[at].focused_pane = next;
        }
        let terminal_id = removed.state.attached_terminal_id;
        let same = |t: &TerminalId| -> (b: bool)
            ensures
                b == is_terminal(terminal_id@)(*t),
            { t.is(&terminal_id) };
        let ghost was = old(self).state.workspaces@[at as int];
        let ghost now = self.state.workspaces@[at as int];
        assert(self.state.workspaces@ =~= old(self).state.workspaces@.update(at as int, now));
        assert(was.tabs@[tab as int].panes@.len() == 1 ==> now.tabs@ =~= was.tabs@.remove(
            tab as int,
        ));
        assert(was.tabs@[tab as int].panes@.len() != 1 ==> now.tabs@ =~= was.tabs@.update(
            tab as int,
            now.tabs@[tab as int],
        ));
        self.release_terminals(same, Ghost(is_terminal(terminal_id@)))
    }
}

} // verus!
