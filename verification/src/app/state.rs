//! Workspaces, tabs and panes, and the terminals behind them.

use vstd::prelude::*;

use crate::api::schema::requests::Direction;
use crate::app::browser_panes::BrowserPanes;
use crate::app::hidden_peer_picker::HiddenPeersState;
use crate::app::peer_picker::PeerWorkspaceOpenState;
use crate::app::peer_setup_dialog::AddPeerState;
use crate::app::peers::PeerRegistryState;
use crate::pane::state::PaneState;
use crate::terminal::{TerminalId, TerminalRuntime, TerminalSize};
use crate::text::str_eq;

verus! {

/// The id of a pane, unique in this server.
#[derive(Debug, Clone, Copy, PartialEq, Eq, Structural)]
pub struct PaneId {
    raw: u32,
}

impl PaneId {
    /// The number behind the id.
    pub closed spec fn number(self) -> u32 {
        self.raw
    }

    pub fn from_raw(raw: u32) -> (r: Self)
        ensures
            r.number() == raw,
    {
        PaneId { raw }
    }

    pub fn raw(&self) -> (r: u32)
        ensures
            r == self.number(),
    {
        self.raw
    }
}

/// Two ids with one number are one id.
pub proof fn lemma_pane_ids_are_numbers()
    ensures
        forall|a: PaneId, b: PaneId| #[trigger] a.number() == #[trigger] b.number() ==> a == b,
{
}

/// The bits of one half, the ratio of a split into two even parts.
pub const EVEN_SPLIT: u32 = 0x3f00_0000;

/// Where a pane was put: the pane that was divided for it, which way, and the
/// share of the room the divided pane keeps when one was asked for. The share is
/// the bits of a single-precision number, which only whoever draws the layout
/// computes with.
#[derive(Debug, Clone, Copy, PartialEq, Eq, Structural)]
pub struct Split {
    pub from: PaneId,
    pub direction: Direction,
    pub ratio: Option<u32>,
}

/// One pane of a tab.
#[derive(Debug, PartialEq, Eq)]
pub struct Pane {
    pub id: PaneId,
    /// The id clients know the pane by.
    pub public_id: String,
    pub state: PaneState,
    /// The split that made room for the pane; the first pane of a tab has none.
    pub split: Option<Split>,
    /// The label that was given to the pane's terminal.
    pub label: Option<String>,
}

/// One tab of a workspace.
#[derive(Debug, PartialEq, Eq)]
pub struct Tab {
    /// The id clients know the tab by.
    pub public_id: String,
    pub panes: Vec<Pane>,
    pub custom_name: Option<String>,
}

/// One workspace. A workspace with a `peer` is a view onto that peer.
#[derive(Debug, PartialEq, Eq)]
pub struct Workspace {
    /// Stays the same while the list is renumbered.
    pub id: String,
    /// The id clients know the workspace by.
    pub public_id: String,
    pub peer: Option<String>,
    /// The peer's own id of the workspace behind the view, when it is known.
    pub peer_workspace: Option<String>,
    pub label: Option<String>,
    pub tabs: Vec<Tab>,
    pub active_tab: usize,
    pub focused_pane: Option<PaneId>,
}

/// The panes of these tabs.
pub open spec fn panes_of_tabs(tabs: Seq<Tab>) -> Seq<PaneId>
    decreases tabs.len(),
{
    if tabs.len() == 0 {
        Seq::empty()
    } else {
        panes_of_tabs(tabs.drop_last()) + tabs.last().panes@.map_values(|p: Pane| p.id)
    }
}

/// The panes of these workspaces, in the order of the layout.
pub open spec fn panes_of(workspaces: Seq<Workspace>) -> Seq<PaneId>
    decreases workspaces.len(),
{
    if workspaces.len() == 0 {
        Seq::empty()
    } else {
        panes_of(workspaces.drop_last()) + panes_of_tabs(workspaces.last().tabs@)
    }
}

fn push_pane_ids(out: &mut Vec<PaneId>, panes: &Vec<Pane>)
    ensures
        final(out)@ == old(out)@ + panes@.map_values(|p: Pane| p.id),
{
    let ghost id = |p: Pane| p.id;
    let mut i: usize = 0;
    assert(out@ =~= old(out)@ + panes@.take(0).map_values(id));
    while i < panes.len()
        invariant
            i <= panes@.len(),
            id == (|p: Pane| p.id),
            out@ == old(out)@ + panes@.take(i as int).map_values(id),
        decreases panes@.len() - i,
    {
        out.push(panes[i].id);
        i += 1;
        assert(out@ =~= old(out)@ + panes@.take(i as int).map_values(id));
    }
    assert(panes@.take(i as int) =~= panes@);
}

/// The panes of these workspaces, in the order of the layout.
pub fn pane_ids(workspaces: &Vec<Workspace>) -> (r: Vec<PaneId>)
    ensures
        r@ == panes_of(workspaces@),
{
    let mut out: Vec<PaneId> = Vec::new();
    let mut w: usize = 0;
    assert(workspaces@.take(0) =~= Seq::empty());
    while w < workspaces.len()
        invariant
            w <= workspaces@.len(),
            out@ == panes_of(workspaces@.take(w as int)),
        decreases workspaces@.len() - w,
    {
        let tabs = &workspaces[w].tabs;
        let ghost before = out@;
        let mut t: usize = 0;
        assert(tabs@.take(0) =~= Seq::empty());
        assert(out@ =~= before + panes_of_tabs(tabs@.take(0)));
        while t < tabs.len()
            invariant
                t <= tabs@.len(),
                out@ == before + panes_of_tabs(tabs@.take(t as int)),
            decreases tabs@.len() - t,
        {
            assert(tabs@.take(t + 1).drop_last() =~= tabs@.take(t as int));
            push_pane_ids(&mut out, &tabs[t].panes);
            t += 1;
            assert(out@ =~= before + panes_of_tabs(tabs@.take(t as int)));
        }
        assert(tabs@.take(t as int) =~= tabs@);
        assert(workspaces@.take(w + 1).drop_last() =~= workspaces@.take(w as int));
        w += 1;
    }
    assert(workspaces@.take(w as int) =~= workspaces@);
    out
}

/// What a pane is looked up by.
pub enum PaneKey<'a> {
    Terminal(&'a TerminalId),
    Id(PaneId),
    Public(&'a str),
}

/// What a [`PaneKey`] says.
pub enum PaneKeyView {
    Terminal(Seq<char>),
    Id(PaneId),
    Public(Seq<char>),
}

impl<'a> View for PaneKey<'a> {
    type V = PaneKeyView;

    open spec fn view(&self) -> PaneKeyView {
        match self {
            PaneKey::Terminal(id) => PaneKeyView::Terminal(id@),
            PaneKey::Id(id) => PaneKeyView::Id(*id),
            PaneKey::Public(id) => PaneKeyView::Public(id@),
        }
    }
}

/// The pane has this key.
pub open spec fn pane_has(key: PaneKeyView) -> spec_fn(Pane) -> bool {
    |p: Pane|
        match key {
            PaneKeyView::Terminal(id) => p.state.attached_terminal_id@ == id,
            PaneKeyView::Id(id) => p.id == id,
            PaneKeyView::Public(id) => p.public_id@ == id,
        }
}

/// A pane of the tab has this key.
pub open spec fn tab_has(key: PaneKeyView) -> spec_fn(Tab) -> bool {
    |t: Tab| crate::search::any(t.panes@, pane_has(key))
}

/// A pane of the workspace has this key.
pub open spec fn workspace_has(key: PaneKeyView) -> spec_fn(Workspace) -> bool {
    |w: Workspace| crate::search::any(w.tabs@, tab_has(key))
}

/// The first pane of a workspace with this key.
pub open spec fn pane_in(workspace: Workspace, key: PaneKeyView) -> Option<Pane> {
    match crate::search::find(workspace.tabs@, tab_has(key)) {
        Some(tab) => crate::search::find(tab.panes@, pane_has(key)),
        None => None,
    }
}

/// Where the first pane with this key is: the position of its workspace, and
/// its id.
pub open spec fn located(workspaces: Seq<Workspace>, key: PaneKeyView) -> Option<(int, PaneId)> {
    let at = crate::search::first(workspaces, workspace_has(key), 0);
    if at < workspaces.len() {
        Some((at, pane_in(workspaces[at], key)->0.id))
    } else {
        None
    }
}

/// The workspace has this public id.
pub open spec fn has_public_id(id: Seq<char>) -> spec_fn(Workspace) -> bool {
    |w: Workspace| w.public_id@ == id
}

/// The workspace has this id.
pub open spec fn has_id(id: Seq<char>) -> spec_fn(Workspace) -> bool {
    |w: Workspace| w.id@ == id
}

fn key_matches(pane: &Pane, key: &PaneKey) -> (r: bool)
    ensures
        r == pane_has(key@)(*pane),
{
    match key {
        PaneKey::Terminal(id) => pane.state.attached_terminal_id.is(id),
        PaneKey::Id(id) => pane.id == *id,
        PaneKey::Public(id) => str_eq(pane.public_id.as_str(), id),
    }
}

impl Tab {
    /// The position of the first pane with this key.
    pub fn position(&self, key: &PaneKey) -> (r: usize)
        ensures
            r == crate::search::first(self.panes@, pane_has(key@), 0),
            r <= self.panes@.len(),
    {
        let mut i: usize = 0;
        while i < self.panes.len() && !key_matches(&self.panes[i], key)
            invariant
                i <= self.panes.len(),
                crate::search::first(self.panes@, pane_has(key@), 0) == crate::search::first(
                    self.panes@,
                    pane_has(key@),
                    i as int,
                ),
            decreases self.panes.len() - i,
        {
            i += 1;
        }
        i
    }
}

impl Workspace {
    /// The position of the first tab that has a pane with this key.
    pub fn tab_position(&self, key: &PaneKey) -> (r: usize)
        ensures
            r == crate::search::first(self.tabs@, tab_has(key@), 0),
            r <= self.tabs@.len(),
    {
        let mut i: usize = 0;
        while i < self.tabs.len() && self.tabs[i].position(key) >= self.tabs[i].panes.len()
            invariant
                i <= self.tabs.len(),
                crate::search::first(self.tabs@, tab_has(key@), 0) == crate::search::first(
                    self.tabs@,
                    tab_has(key@),
                    i as int,
                ),
            decreases self.tabs.len() - i,
        {
            i += 1;
        }
        i
    }

    /// The first pane with this key.
    pub fn find_pane(&self, key: &PaneKey) -> (r: Option<&Pane>)
        ensures
            match r {
                Some(pane) => pane_in(*self, key@) == Some(*pane) && pane_has(key@)(*pane),
                None => pane_in(*self, key@) is None,
            },
            r is Some == workspace_has(key@)(*self),
    {
        let t = self.tab_position(key);
        if t >= self.tabs.len() {
            return None;
        }
        let p = self.tabs[t].position(key);
        proof {
            crate::search::lemma_first(self.tabs@, tab_has(key@), 0);
            crate::search::lemma_first(self.tabs@[t as int].panes@, pane_has(key@), 0);
        }
        Some(&self.tabs[t].panes[p])
    }

    /// Whether a pane of the workspace shows this terminal.
    pub fn holds_terminal(&self, terminal_id: &TerminalId) -> (r: bool)
        ensures
            r == workspace_has(PaneKeyView::Terminal(terminal_id@))(*self),
    {
        self.find_pane(&PaneKey::Terminal(terminal_id)).is_some()
    }
}

/// The position of the first workspace that has a pane with this key.
pub fn workspace_with(workspaces: &Vec<Workspace>, key: &PaneKey) -> (r: usize)
    ensures
        r == crate::search::first(workspaces@, workspace_has(key@), 0),
        r <= workspaces@.len(),
{
    let mut i: usize = 0;
    while i < workspaces.len() && workspaces[i].find_pane(key).is_none()
        invariant
            i <= workspaces.len(),
            crate::search::first(workspaces@, workspace_has(key@), 0) == crate::search::first(
                workspaces@,
                workspace_has(key@),
                i as int,
            ),
        decreases workspaces.len() - i,
    {
        i += 1;
    }
    i
}

/// Where the first pane with this key is.
pub fn locate_pane(workspaces: &Vec<Workspace>, key: &PaneKey) -> (r: Option<(usize, PaneId)>)
    ensures
        match r {
            Some((at, pane)) => located(workspaces@, key@) == Some((at as int, pane)),
            None => located(workspaces@, key@) is None,
        },
{
    let at = workspace_with(workspaces, key);
    if at < workspaces.len() {
        proof {
            crate::search::lemma_first(workspaces@, workspace_has(key@), 0);
        }
        match workspaces[at].find_pane(key) {
            Some(pane) => Some((at, pane.id)),
            None => None,
        }
    } else {
        None
    }
}

/// A terminal and what runs it.
#[derive(Debug, PartialEq, Eq)]
pub struct RuntimeEntry {
    pub terminal_id: TerminalId,
    pub runtime: TerminalRuntime,
}

/// The entry is this terminal's.
pub open spec fn of_terminal(id: Seq<char>) -> spec_fn(RuntimeEntry) -> bool {
    |e: RuntimeEntry| e.terminal_id@ == id
}

/// An agent that can be addressed by name, and the pane it runs in.
#[derive(Debug, PartialEq, Eq)]
pub struct AgentEntry {
    pub name: String,
    pub ws_idx: usize,
    pub pane_id: PaneId,
}

/// The agent has this name.
pub open spec fn agent_named(name: Seq<char>) -> spec_fn(AgentEntry) -> bool {
    |a: AgentEntry| a.name@ == name
}

/// What the user's keys go to.
#[derive(Debug, Clone, Copy, PartialEq, Eq, Structural)]
pub enum Mode {
    Navigate,
    Terminal,
    OpenPeerWorkspace,
    AddPeer,
    UnhidePeers,
    ContextMenu,
    GlobalMenu,
}

/// A peer that was added before, and what it was added as.
#[derive(Debug, PartialEq, Eq)]
pub struct PeerHistoryEntry {
    pub name: String,
    /// The target in the form [`crate::app::api::peers::registry::peer_history_target`]
    /// gives it.
    pub target: String,
}

/// What came of something the user did, shown for a moment.
#[derive(Debug, PartialEq, Eq)]
pub struct Toast {
    pub title: String,
    pub context: String,
}

/// What the server holds.
#[derive(Debug, PartialEq, Eq)]
pub struct AppState {
    pub mode: Mode,
    pub workspaces: Vec<Workspace>,
    /// The workspace that is shown.
    pub active: Option<usize>,
    /// The workspace the sidebar's cursor is on.
    pub selected: usize,
    pub peers: PeerRegistryState,
    pub peer_history: Vec<PeerHistoryEntry>,
    pub terminals: Vec<TerminalId>,
    pub agents: Vec<AgentEntry>,
    /// The size a new pane would get.
    pub pane_size: TerminalSize,
    pub browser: BrowserPanes,
    pub toast: Option<Toast>,
    pub peer_workspace_open: Option<PeerWorkspaceOpenState>,
    pub add_peer: Option<AddPeerState>,
    /// Peers hidden until they are shown again or the session ends.
    pub hidden_peers: Vec<String>,
    /// Peers hidden by the configuration.
    pub hidden_peers_config: Vec<String>,
    pub hidden_peers_picker: Option<HiddenPeersState>,
    /// Something changed that the next saved session has to hold.
    pub session_dirty: bool,
    /// What is wrong with the configuration file. What comes of an action is never
    /// told here.
    pub config_diagnostic: Option<String>,
}

/// The state and what keeps it running.
#[derive(Debug, PartialEq, Eq)]
pub struct App {
    pub state: AppState,
    pub terminal_runtimes: Vec<RuntimeEntry>,
    /// Peer and target of every view that is being opened.
    pub peer_view_opens_in_flight: Vec<(String, String)>,
}

/// The position of this terminal's runtime, or the number of runtimes.
pub open spec fn runtime_at(runtimes: Seq<RuntimeEntry>, id: Seq<char>) -> int {
    crate::search::first(runtimes, of_terminal(id), 0)
}

/// What runs this terminal.
pub open spec fn runtime_of(runtimes: Seq<RuntimeEntry>, id: Seq<char>) -> Option<TerminalRuntime> {
    match crate::search::find(runtimes, of_terminal(id)) {
        Some(entry) => Some(entry.runtime),
        None => None,
    }
}

/// The view that runs this terminal, if it is a peer's.
pub open spec fn remote_of(
    runtimes: Seq<RuntimeEntry>,
    id: Seq<char>,
) -> Option<crate::terminal::RemoteView> {
    match runtime_of(runtimes, id) {
        Some(TerminalRuntime::Remote(view)) => Some(view),
        _ => None,
    }
}

/// The view behind a pane of a workspace, if it is a peer's.
pub open spec fn remote_of_pane(app: App, ws_idx: int, pane: PaneId) -> Option<
    crate::terminal::RemoteView,
> {
    if 0 <= ws_idx < app.state.workspaces@.len() {
        match pane_in(app.state.workspaces@[ws_idx], PaneKeyView::Id(pane)) {
            Some(pane) => remote_of(app.terminal_runtimes@, pane.state.attached_terminal_id@),
            None => None,
        }
    } else {
        None
    }
}

impl Default for AppState {
    fn default() -> (r: Self)
        ensures
            r.mode == Mode::Navigate,
            r.workspaces@.len() == 0,
            r.active is None,
            r.selected == 0,
            r.peers@ == Seq::<crate::app::peers::PeerView>::empty(),
            r.peer_history@.len() == 0,
            r.terminals@.len() == 0,
            r.agents@.len() == 0,
            r.pane_size == (TerminalSize { rows: 24, cols: 80 }),
            r.browser@ == crate::app::browser_panes::no_browsers(),
            r.toast is None,
            r.peer_workspace_open is None,
            r.add_peer is None,
            r.hidden_peers@.len() == 0,
            r.hidden_peers_config@.len() == 0,
            r.hidden_peers_picker is None,
            !r.session_dirty,
            r.config_diagnostic is None,
    {
        AppState {
            mode: Mode::Navigate,
            workspaces: Vec::new(),
            active: None,
            selected: 0,
            peers: PeerRegistryState::default(),
            peer_history: Vec::new(),
            terminals: Vec::new(),
            agents: Vec::new(),
            pane_size: TerminalSize { rows: 24, cols: 80 },
            browser: BrowserPanes::default(),
            toast: None,
            peer_workspace_open: None,
            add_peer: None,
            hidden_peers: Vec::new(),
            hidden_peers_config: Vec::new(),
            hidden_peers_picker: None,
            session_dirty: false,
            config_diagnostic: None,
        }
    }
}

impl Default for App {
    fn default() -> (r: Self)
        ensures
            r.state.workspaces@.len() == 0,
            r.state.active is None,
            r.state.peers@ == Seq::<crate::app::peers::PeerView>::empty(),
            r.state.terminals@.len() == 0,
            r.terminal_runtimes@.len() == 0,
            r.peer_view_opens_in_flight@.len() == 0,
    {
        App {
            state: AppState::default(),
            terminal_runtimes: Vec::new(),
            peer_view_opens_in_flight: Vec::new(),
        }
    }
}

impl App {
    /// The position of this terminal's runtime, or the number of runtimes.
    pub fn runtime_position(&self, id: &TerminalId) -> (r: usize)
        ensures
            r == runtime_at(self.terminal_runtimes@, id@),
            r <= self.terminal_runtimes@.len(),
            r < self.terminal_runtimes@.len() ==> self.terminal_runtimes@[r as int].terminal_id@
                == id@,
    {
        let mut i: usize = 0;
        while i < self.terminal_runtimes.len() && !self.terminal_runtimes[i].terminal_id.is(id)
            invariant
                i <= self.terminal_runtimes.len(),
                runtime_at(self.terminal_runtimes@, id@) == crate::search::first(
                    self.terminal_runtimes@,
                    of_terminal(id@),
                    i as int,
                ),
            decreases self.terminal_runtimes.len() - i,
        {
            i += 1;
        }
        i
    }

    /// What runs this terminal.
    pub fn runtime(&self, id: &TerminalId) -> (r: Option<&TerminalRuntime>)
        ensures
            match r {
                Some(runtime) => runtime_of(self.terminal_runtimes@, id@) == Some(*runtime),
                None => runtime_of(self.terminal_runtimes@, id@) is None,
            },
    {
        let at = self.runtime_position(id);
        if at < self.terminal_runtimes.len() {
            Some(&self.terminal_runtimes[at].runtime)
        } else {
            None
        }
    }

    /// The view behind a pane, if the pane shows a peer's terminal.
    pub fn remote_of_pane(&self, ws_idx: usize, pane_id: PaneId) -> (r: Option<
        &crate::terminal::RemoteView,
    >)
        ensures
            match r {
                Some(view) => remote_of_pane(*self, ws_idx as int, pane_id) == Some(*view),
                None => remote_of_pane(*self, ws_idx as int, pane_id) is None,
            },
    {
        if ws_idx >= self.state.workspaces.len() {
            return None;
        }
        match self.state.workspaces[ws_idx].find_pane(&PaneKey::Id(pane_id)) {
            Some(pane) => match self.runtime(&pane.state.attached_terminal_id) {
                Some(TerminalRuntime::Remote(view)) => Some(view),
                _ => None,
            },
            None => None,
        }
    }

    /// The position of the workspace that clients know by this id.
    pub fn parse_workspace_id(&self, id: &str) -> (r: Option<usize>)
        ensures
            match r {
                Some(at) => at == crate::search::first(
                    self.state.workspaces@,
                    has_public_id(id@),
                    0,
                ) && at < self.state.workspaces@.len(),
                None => !crate::search::any(self.state.workspaces@, has_public_id(id@)),
            },
    {
        let mut i: usize = 0;
        while i < self.state.workspaces.len()
            invariant
                i <= self.state.workspaces.len(),
                crate::search::first(self.state.workspaces@, has_public_id(id@), 0)
                    == crate::search::first(self.state.workspaces@, has_public_id(id@), i as int),
            decreases self.state.workspaces.len() - i,
        {
            if str_eq(self.state.workspaces[i].public_id.as_str(), id) {
                return Some(i);
            }
            i += 1;
        }
        None
    }

    /// The position of the workspace with this id, which stays the same while the
    /// list is renumbered.
    pub fn workspace_position(&self, id: &str) -> (r: Option<usize>)
        ensures
            match r {
                Some(at) => at == crate::search::first(self.state.workspaces@, has_id(id@), 0)
                    && at < self.state.workspaces@.len(),
                None => !crate::search::any(self.state.workspaces@, has_id(id@)),
            },
    {
        let mut i: usize = 0;
        while i < self.state.workspaces.len()
            invariant
                i <= self.state.workspaces.len(),
                crate::search::first(self.state.workspaces@, has_id(id@), 0)
                    == crate::search::first(self.state.workspaces@, has_id(id@), i as int),
            decreases self.state.workspaces.len() - i,
        {
            if str_eq(self.state.workspaces[i].id.as_str(), id) {
                return Some(i);
            }
            i += 1;
        }
        None
    }

    /// Where the pane that clients know by this id is.
    pub fn parse_pane_id(&self, id: &str) -> (r: Option<(usize, PaneId)>)
        ensures
            match r {
                Some((at, pane)) => located(self.state.workspaces@, PaneKeyView::Public(id@))
                    == Some((at as int, pane)),
                None => located(self.state.workspaces@, PaneKeyView::Public(id@)) is None,
            },
    {
        locate_pane(&self.state.workspaces, &PaneKey::Public(id))
    }

    /// The pane an agent runs in, by the agent's name.
    pub fn resolve_agent_target(&self, name: &str) -> (r: Option<(usize, PaneId)>)
        ensures
            match r {
                Some((at, pane)) => crate::search::find(self.state.agents@, agent_named(name@))
                    matches Some(agent) && agent.ws_idx == at && agent.pane_id == pane,
                None => crate::search::find(self.state.agents@, agent_named(name@)) is None,
            },
    {
        let mut i: usize = 0;
        while i < self.state.agents.len()
            invariant
                i <= self.state.agents.len(),
                crate::search::first(self.state.agents@, agent_named(name@), 0)
                    == crate::search::first(self.state.agents@, agent_named(name@), i as int),
            decreases self.state.agents.len() - i,
        {
            if str_eq(self.state.agents[i].name.as_str(), name) {
                return Some((self.state.agents[i].ws_idx, self.state.agents[i].pane_id));
            }
            i += 1;
        }
        None
    }
}

/// The outcome of something the user did is shown, and nothing else changed.
pub open spec fn reports(before: App, after: App, title: Seq<char>, context: Seq<char>) -> bool {
    &&& after.state.toast is Some
    &&& after.state.toast->0.title@ == title
    &&& after.state.toast->0.context@ == context
    &&& after == (App { state: AppState { toast: after.state.toast, ..before.state }, ..before })
}

impl App {
    /// Shows the outcome of something the user did.
    pub fn report_action_outcome(&mut self, title: String, context: &str)
        ensures
            reports(*old(self), *final(self), title@, context@),
    {
        self.state.toast = Some(Toast { title, context: context.to_owned() });
    }

    /// The mode once a dialog was closed.
    pub fn mode_behind_dialog(&self) -> (r: Mode)
        ensures
            r == crate::app::peer_picker::mode_behind(self.state.active),
    {
        if self.state.active.is_some() {
            Mode::Terminal
        } else {
            Mode::Navigate
        }
    }
}

} // verus!
