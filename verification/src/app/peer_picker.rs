//! Picker over the workspaces a peer has enumerated.
//!
//! A peer reports every workspace it holds, whether or not a view onto it is open
//! here. This turns that enumeration into a list to pick from, and a pick into an
//! ordinary request to open a view.

use vstd::prelude::*;

use crate::api::schema::peers::PeerWorkspaceOpenParams;
use crate::app::api::peers::forward::Started;
use crate::app::peers::{split_peer_id, PeerConnectionState, PeerHandle};
use crate::app::state::{App, Mode};
use crate::browser::keys::{KeyCode, KeyEvent};
use crate::text::{cat2, cat3, drop_last_char, is_control_char, to_decimal, to_lower};

verus! {

/// Why a peer in this state cannot be asked to open a workspace.
pub open spec fn unavailable_text(connection: crate::app::peers::ConnectionView) -> Option<
    Seq<char>,
> {
    match connection {
        crate::app::peers::ConnectionView::Connected => None,
        crate::app::peers::ConnectionView::Connecting => Some("peer is still connecting"@),
        crate::app::peers::ConnectionView::Reconnecting { attempt, .. } => Some(
            "peer is reconnecting (attempt "@ + crate::text::decimal(attempt as nat) + ")"@,
        ),
        crate::app::peers::ConnectionView::Error { message } => Some(
            "peer is unreachable: "@ + message,
        ),
    }
}

/// Why a peer cannot be asked to open a workspace right now.
///
/// A view opened against a peer that is not up either fails on a dead socket or
/// has nowhere to dial at all, so the picker says which it is rather than
/// letting the request produce a transport error.
pub fn peer_unavailable_reason(connection: &PeerConnectionState) -> (r: Option<String>)
    ensures
        crate::text::opt_view(r) == unavailable_text(connection@),
{
    match connection {
        PeerConnectionState::Connected => None,
        PeerConnectionState::Connecting => Some("peer is still connecting".to_owned()),
        PeerConnectionState::Reconnecting { attempt, .. } => Some(
            cat3("peer is reconnecting (attempt ", to_decimal(*attempt as u64).as_str(), ")"),
        ),
        PeerConnectionState::Error { message } => Some(
            cat2("peer is unreachable: ", message.as_str()),
        ),
    }
}

/// A workspace that can be picked.
#[derive(Debug, PartialEq, Eq)]
pub struct PeerWorkspaceOpenEntry {
    /// The workspace's id, with the peer's namespace.
    pub target: String,
    pub label: String,
    pub number: usize,
    pub pane_count: usize,
    pub tab_count: usize,
    /// Where a view onto it is already open here.
    pub already_open_ws_idx: Option<usize>,
}

/// The picker while it is open.
#[derive(Debug, PartialEq, Eq)]
pub struct PeerWorkspaceOpenState {
    pub peer: String,
    /// As the peer reported them when the picker was opened.
    pub entries: Vec<PeerWorkspaceOpenEntry>,
    pub selected: usize,
    pub query: String,
    pub search_focused: bool,
    pub error: Option<String>,
}

/// The contents of a [`PeerWorkspaceOpenState`].
pub struct PickerView {
    pub peer: Seq<char>,
    pub entries: Seq<PeerWorkspaceOpenEntry>,
    pub selected: usize,
    pub query: Seq<char>,
    pub search_focused: bool,
    pub error: Option<Seq<char>>,
}

impl View for PeerWorkspaceOpenState {
    type V = PickerView;

    open spec fn view(&self) -> PickerView {
        PickerView {
            peer: self.peer@,
            entries: self.entries@,
            selected: self.selected,
            query: self.query@,
            search_focused: self.search_focused,
            error: crate::text::opt_view(self.error),
        }
    }
}

/// The contents of the picker, if it is open.
pub open spec fn picker_view(open: Option<PeerWorkspaceOpenState>) -> Option<PickerView> {
    match open {
        Some(open) => Some(open@),
        None => None,
    }
}

/// The entry's label has the query in it, in whatever case.
pub open spec fn is_found(query: Seq<char>) -> spec_fn(PeerWorkspaceOpenEntry) -> bool {
    |e: PeerWorkspaceOpenEntry|
        crate::text::contains_text(crate::text::lowered(e.label@), crate::text::lowered(query))
}

/// The positions before `n` of the entries the query finds.
pub open spec fn found(entries: Seq<PeerWorkspaceOpenEntry>, query: Seq<char>, n: int) -> Seq<usize>
    decreases n,
{
    if n <= 0 {
        Seq::empty()
    } else if is_found(query)(entries[n - 1]) {
        found(entries, query, n - 1).push((n - 1) as usize)
    } else {
        found(entries, query, n - 1)
    }
}

/// The position of the last entry before `to` that the query finds, or -1.
pub open spec fn last_found(entries: Seq<PeerWorkspaceOpenEntry>, query: Seq<char>, to: int) -> int
    decreases to,
{
    if to <= 0 {
        -1
    } else if to <= entries.len() && is_found(query)(entries[to - 1]) {
        to - 1
    } else {
        last_found(entries, query, to - 1)
    }
}

impl PickerView {
    /// The entry that would be opened.
    pub open spec fn picked(self) -> Option<usize> {
        if self.selected < self.entries.len() && is_found(self.query)(
            self.entries[self.selected as int],
        ) {
            Some(self.selected)
        } else {
            None
        }
    }

    /// The selection is on an entry the query finds, if there is one.
    pub open spec fn normalized(self) -> PickerView {
        if self.picked() is Some {
            self
        } else {
            let at = crate::search::first(self.entries, is_found(self.query), 0);
            PickerView {
                selected: if at < self.entries.len() {
                    at as usize
                } else {
                    0
                },
                ..self
            }
        }
    }

    /// The selection is on the next entry the query finds, if there is one.
    pub open spec fn next(self) -> PickerView {
        let at = crate::search::first(self.entries, is_found(self.query), self.selected + 1);
        if at < self.entries.len() {
            PickerView { selected: at as usize, ..self }
        } else {
            self
        }
    }

    /// The selection is on the entry before it that the query finds, if there is
    /// one.
    pub open spec fn previous(self) -> PickerView {
        let at = last_found(self.entries, self.query, self.selected as int);
        if at >= 0 {
            PickerView { selected: at as usize, ..self }
        } else {
            self
        }
    }

    /// More was typed into the search.
    pub open spec fn searching(self, text: Seq<char>) -> PickerView {
        PickerView { query: self.query + text, ..self }.normalized()
    }

    /// What a key other than those that close or submit does.
    pub open spec fn after_key(self, key: KeyEvent) -> PickerView {
        match key.code {
            KeyCode::Up => self.previous(),
            KeyCode::Down => self.next(),
            KeyCode::Char(c) => if c == '/' {
                if self.search_focused {
                    self.searching(seq!['/'])
                } else {
                    PickerView { search_focused: true, ..self }
                }
            } else if self.search_focused && key.modifiers.plain() && !crate::text::is_control(c) {
                self.searching(seq![c])
            } else {
                self
            },
            KeyCode::Backspace => if self.search_focused {
                PickerView { query: crate::text::without_last(self.query), ..self }.normalized()
            } else {
                self
            },
            _ => self,
        }
    }
}

impl PeerWorkspaceOpenEntry {
    /// Whether the query finds this entry.
    pub fn matches_query(&self, query: &str) -> (r: bool)
        ensures
            r == is_found(query@)(*self),
    {
        crate::text::contains(to_lower(self.label.as_str()).as_str(), to_lower(query).as_str())
    }
}

impl PeerWorkspaceOpenState {
    /// The positions of the entries the query finds.
    pub fn filtered_indices(&self) -> (r: Vec<usize>)
        ensures
            r@ == found(self.entries@, self.query@, self.entries@.len() as int),
    {
        let mut out: Vec<usize> = Vec::new();
        let mut i: usize = 0;
        while i < self.entries.len()
            invariant
                i <= self.entries@.len(),
                out@ == found(self.entries@, self.query@, i as int),
            decreases self.entries@.len() - i,
        {
            if self.entries[i].matches_query(self.query.as_str()) {
                out.push(i);
            }
            i += 1;
        }
        out
    }

    fn first_found(&self, from: usize) -> (r: usize)
        requires
            from <= self.entries@.len(),
        ensures
            r == crate::search::first(self.entries@, is_found(self.query@), from as int),
            r <= self.entries@.len(),
    {
        let mut i: usize = from;
        while i < self.entries.len() && !self.entries[i].matches_query(self.query.as_str())
            invariant
                i <= self.entries@.len(),
                crate::search::first(self.entries@, is_found(self.query@), from as int)
                    == crate::search::first(self.entries@, is_found(self.query@), i as int),
            decreases self.entries@.len() - i,
        {
            i += 1;
        }
        i
    }

    /// The entry that would be opened.
    pub fn selected_entry_index(&self) -> (r: Option<usize>)
        ensures
            r == self@.picked(),
    {
        if self.selected < self.entries.len() && self.entries[self.selected].matches_query(
            self.query.as_str(),
        ) {
            Some(self.selected)
        } else {
            None
        }
    }

    /// Puts the selection on an entry the query finds.
    pub fn normalize_selection(&mut self)
        ensures
            final(self)@ == old(self)@.normalized(),
    {
        if self.selected_entry_index().is_none() {
            let at = self.first_found(0);
            self.selected = if at < self.entries.len() {
                at
            } else {
                0
            };
        }
    }

    /// Puts the selection on the next entry the query finds.
    pub fn select_next_filtered(&mut self)
        ensures
            final(self)@ == old(self)@.next(),
    {
        if self.selected < self.entries.len() {
            let at = self.first_found(self.selected + 1);
            if at < self.entries.len() {
                self.selected = at;
            }
        }
    }

    /// Puts the selection on the entry before it that the query finds.
    pub fn select_previous_filtered(&mut self)
        ensures
            final(self)@ == old(self)@.previous(),
    {
        let mut i: usize = self.selected;
        while i > 0
            invariant
                *self == *old(self),
                last_found(self.entries@, self.query@, self.selected as int) == last_found(
                    self.entries@,
                    self.query@,
                    i as int,
                ),
            decreases i,
        {
            i -= 1;
            if i < self.entries.len() && self.entries[i].matches_query(self.query.as_str()) {
                self.selected = i;
                return;
            }
        }
    }
}

/// Where a workspace of a peer is already open here.
pub open spec fn open_at(app: App, peer: Seq<char>, target: Seq<char>) -> Option<usize> {
    match crate::app::peers::split_id(target) {
        Some((_, local)) => match crate::app::api::peers::resolve::already_open(
            app,
            peer,
            local,
            true,
        ) {
            Some(
                crate::app::api::peers::resolve::ExistingPeerView::InWorkspace { ws_idx, .. },
            ) => Some(ws_idx),
            _ => None,
        },
        None => None,
    }
}

/// The entry stands for this workspace of the peer.
pub open spec fn is_entry(
    app: App,
    peer: Seq<char>,
    entry: PeerWorkspaceOpenEntry,
    workspace: crate::api::schema::workspaces::WorkspaceInfoView,
) -> bool {
    &&& entry.target@ == workspace.workspace_id
    &&& entry.label@ == workspace.label
    &&& entry.number == workspace.number
    &&& entry.pane_count == workspace.pane_count
    &&& entry.tab_count == workspace.tab_count
    &&& entry.already_open_ws_idx == open_at(app, peer, workspace.workspace_id)
}

/// There is one entry for each workspace of the peer, in the peer's order.
pub open spec fn are_entries(
    app: App,
    peer: Seq<char>,
    entries: Seq<PeerWorkspaceOpenEntry>,
    workspaces: Seq<crate::api::schema::workspaces::WorkspaceInfoView>,
) -> bool {
    &&& entries.len() == workspaces.len()
    &&& forall|i: int|
        0 <= i < entries.len() ==> is_entry(app, peer, #[trigger] entries[i], workspaces[i])
}

/// The mode once a dialog was closed.
pub open spec fn mode_behind(active: Option<usize>) -> Mode {
    match active {
        Some(_) => Mode::Terminal,
        None => Mode::Navigate,
    }
}

/// Only the picker and the mode changed.
pub open spec fn changes_picker(before: App, after: App) -> bool {
    after == (App {
        state: crate::app::state::AppState {
            peer_workspace_open: after.state.peer_workspace_open,
            mode: after.state.mode,
            ..before.state
        },
        ..before
    })
}

/// The picker is closed.
pub open spec fn closes_picker(before: App, after: App) -> bool {
    &&& changes_picker(before, after)
    &&& after.state.peer_workspace_open is None
    &&& after.state.mode == mode_behind(before.state.active)
}

/// What opening the picker for a peer comes to.
pub open spec fn opens_picker(before: App, after: App, peer: Seq<char>) -> bool {
    match crate::search::find(before.state.peers@, crate::app::peers::has_handle(peer)) {
        None => after == before,
        Some(known) => if known.workspaces.len() == 0 {
            &&& crate::app::state::reports(
                before,
                after,
                "'"@ + peer + "' has no workspaces"@,
                "the peer has not reported any"@,
            )
        } else {
            &&& changes_picker(before, after)
            &&& after.state.mode == Mode::OpenPeerWorkspace
            &&& after.state.peer_workspace_open is Some
            &&& are_entries(
                before,
                peer,
                after.state.peer_workspace_open->0.entries@,
                known.workspaces,
            )
            &&& after.state.peer_workspace_open->0@ == (PickerView {
                peer,
                entries: after.state.peer_workspace_open->0.entries@,
                selected: 0,
                query: Seq::empty(),
                search_focused: false,
                error: None,
            })
        },
    }
}

/// Why the picked entry cannot be opened. One that is already open needs nothing
/// from the peer, so nothing keeps it from being shown.
pub open spec fn pick_refused(
    peers: Seq<crate::app::peers::PeerView>,
    peer: Seq<char>,
    entry: PeerWorkspaceOpenEntry,
) -> Option<Seq<char>> {
    if entry.already_open_ws_idx is Some {
        None
    } else {
        match crate::search::find(peers, crate::app::peers::has_handle(peer)) {
            None => Some("peer '"@ + peer + "' is no longer configured"@),
            Some(known) => unavailable_text(known.connection),
        }
    }
}

/// What submitting the pick comes to.
pub open spec fn submits_pick(before: App, after: App, started: Option<Started>) -> bool {
    match picker_view(before.state.peer_workspace_open) {
        None => after == before && started is None,
        Some(open) => match open.picked() {
            None => after == before && started is None,
            Some(at) => {
                let entry = open.entries[at as int];
                match pick_refused(before.state.peers@, open.peer, entry) {
                    Some(reason) => {
                        &&& started is None
                        &&& changes_picker(before, after)
                        &&& after.state.mode == before.state.mode
                        &&& picker_view(after.state.peer_workspace_open) == Some(
                            PickerView { error: Some(reason), ..open },
                        )
                    },
                    None => {
                        &&& started is Some
                        &&& crate::app::api::peers::forward::opens_workspace(
                            before,
                            after,
                            started->0,
                            entry.target@,
                            Some(open.peer),
                            None,
                            false,
                            true,
                            false,
                            None,
                        )
                    },
                }
            },
        },
    }
}

impl App {
    /// Builds the picker for a peer from the peer's last enumeration.
    ///
    /// The entries are a snapshot; the peer's connection is read when it is
    /// needed, so a peer that comes back while the picker is open is picked from
    /// without the list being rebuilt.
    pub fn open_peer_workspace_picker(&mut self, peer: &str)
        ensures
            opens_picker(*old(self), *final(self), peer@),
    {
        let handle = PeerHandle::new(peer);
        let known = match self.state.peers.get(&handle) {
            Some(known) => known,
            None => {
                return;
            },
        };
        let workspaces = &known.workspaces;
        let mut entries: Vec<PeerWorkspaceOpenEntry> = Vec::new();
        let mut i: usize = 0;
        while i < workspaces.len()
            invariant
                i <= workspaces@.len(),
                entries@.len() == i,
                forall|j: int|
                    0 <= j < i ==> is_entry(
                        *self,
                        peer@,
                        #[trigger] entries@[j],
                        workspaces@[j]@,
                    ),
            decreases workspaces@.len() - i,
        {
            let workspace = &workspaces[i];
            // The reported ids are namespaced, and a view records the peer's own
            // id of what it connected to.
            let already_open_ws_idx = match split_peer_id(workspace.workspace_id.as_str()) {
                Some((_, local)) => self.workspace_viewing_peer_workspace(peer, local),
                None => None,
            };
            entries.push(
                PeerWorkspaceOpenEntry {
                    target: workspace.workspace_id.clone(),
                    label: workspace.label.clone(),
                    number: workspace.number,
                    pane_count: workspace.pane_count,
                    tab_count: workspace.tab_count,
                    already_open_ws_idx,
                },
            );
            i += 1;
        }
        if entries.len() == 0 {
            self.report_action_outcome(
                cat3("'", peer, "' has no workspaces"),
                "the peer has not reported any",
            );
            return;
        }
        self.state.peer_workspace_open = Some(
            PeerWorkspaceOpenState {
                peer: peer.to_owned(),
                entries,
                selected: 0,
                query: String::new(),
                search_focused: false,
                error: None,
            },
        );
        self.state.mode = Mode::OpenPeerWorkspace;
    }

    /// Closes the picker.
    pub fn close_peer_workspace_picker(&mut self)
        ensures
            closes_picker(*old(self), *final(self)),
    {
        self.state.peer_workspace_open = None;
        self.state.mode = self.mode_behind_dialog();
    }

    /// Takes a key for the picker.
    pub fn handle_peer_workspace_open_key(&mut self, key: KeyEvent) -> (r: Option<Started>)
        ensures
            match key.code {
                KeyCode::Esc => r is None && closes_picker(*old(self), *final(self)),
                KeyCode::Enter => submits_pick(*old(self), *final(self), r),
                _ => r is None && changes_picker(*old(self), *final(self))
                    && final(self).state.mode == old(self).state.mode && picker_view(
                    final(self).state.peer_workspace_open,
                ) == match picker_view(old(self).state.peer_workspace_open) {
                    Some(open) => Some(open.after_key(key)),
                    None => None,
                },
            },
    {
        match key.code {
            KeyCode::Esc => {
                self.close_peer_workspace_picker();
                return None;
            },
            KeyCode::Enter => {
                return self.submit_peer_workspace_open_via_api();
            },
            _ => {},
        }
        if let Some(open) = &mut self.state.peer_workspace_open {
            match key.code {
                KeyCode::Up => open.select_previous_filtered(),
                KeyCode::Down => open.select_next_filtered(),
                KeyCode::Char(c) => {
                    if c == '/' {
                        if open.search_focused {
                            open.query.push('/');
                            assert(open.query@ =~= old(
                                self,
                            ).state.peer_workspace_open->0.query@ + seq!['/']);
                            open.normalize_selection();
                        } else {
                            open.search_focused = true;
                        }
                    } else if open.search_focused && key.modifiers.is_plain() && !is_control_char(
                        c,
                    ) {
                        open.query.push(c);
                        assert(open.query@ =~= old(self).state.peer_workspace_open->0.query@
                            + seq![c]);
                        open.normalize_selection();
                    }
                },
                KeyCode::Backspace => {
                    if open.search_focused {
                        open.query = drop_last_char(open.query.as_str());
                        open.normalize_selection();
                    }
                },
                _ => {},
            }
        }
        None
    }

    /// Adds to the search, while it is focused.
    pub fn insert_peer_workspace_open_search_text(&mut self, text: &str)
        ensures
            changes_picker(*old(self), *final(self)),
            final(self).state.mode == old(self).state.mode,
            picker_view(final(self).state.peer_workspace_open) == match picker_view(
                old(self).state.peer_workspace_open,
            ) {
                Some(open) => Some(
                    if open.search_focused {
                        open.searching(text@)
                    } else {
                        open
                    },
                ),
                None => None,
            },
    {
        if let Some(open) = &mut self.state.peer_workspace_open {
            if open.search_focused {
                open.query.append(text);
                open.normalize_selection();
            }
        }
    }

    /// Opens the picked workspace, or explains why the peer cannot answer.
    ///
    /// Opening is done once per target, so picking an entry that is already open
    /// switches to the view there is. The picker is left alone while the request
    /// is on its way.
    pub fn submit_peer_workspace_open_via_api(&mut self) -> (r: Option<Started>)
        ensures
            submits_pick(*old(self), *final(self), r),
    {
        let open = match &self.state.peer_workspace_open {
            Some(open) => open,
            None => {
                return None;
            },
        };
        let at = match open.selected_entry_index() {
            Some(at) => at,
            None => {
                return None;
            },
        };
        let peer = open.peer.clone();
        let target = open.entries[at].target.clone();
        let unavailable = if open.entries[at].already_open_ws_idx.is_some() {
            None
        } else {
            match self.state.peers.get(&PeerHandle::new(peer.as_str())) {
                None => Some(cat3("peer '", peer.as_str(), "' is no longer configured")),
                Some(known) => peer_unavailable_reason(&known.connection),
            }
        };
        if let Some(reason) = unavailable {
            if let Some(open) = &mut self.state.peer_workspace_open {
                open.error = Some(reason);
            }
            return None;
        }
        Some(
            self.handle_deferred_peer_workspace_open(
                PeerWorkspaceOpenParams {
                    target,
                    name: Some(peer),
                    label: None,
                    focus: true,
                    takeover: false,
                },
            ),
        )
    }
}

/// Whatever is typed into the search, the selection is on an entry it finds, as
/// long as it finds one; otherwise nothing would be opened.
pub proof fn law_the_selection_is_on_what_is_found(open: PickerView, text: Seq<char>)
    requires
        open.entries.len() <= usize::MAX,
    ensures
        open.searching(text).picked() is Some <==> crate::search::any(
            open.entries,
            is_found(open.query + text),
        ),
        open.searching(text).entries == open.entries,
{
    let typed = PickerView { query: open.query + text, ..open };
    crate::search::lemma_first(open.entries, is_found(typed.query), 0);
    if typed.picked() is Some {
        crate::search::lemma_any(open.entries, is_found(typed.query));
        assert(is_found(typed.query)(open.entries[typed.selected as int]));
    }
}

/// Moving through the list stays on entries the search finds.
pub proof fn law_moving_stays_on_what_is_found(open: PickerView)
    requires
        open.picked() is Some,
        open.entries.len() <= usize::MAX,
    ensures
        open.next().picked() is Some,
        open.previous().picked() is Some,
        open.next().selected >= open.selected >= open.previous().selected,
{
    let p = is_found(open.query);
    crate::search::lemma_first(open.entries, p, open.selected + 1);
    lemma_last_found(open.entries, open.query, open.selected as int);
}

proof fn lemma_last_found(entries: Seq<PeerWorkspaceOpenEntry>, query: Seq<char>, to: int)
    requires
        0 <= to <= entries.len(),
    ensures
        -1 <= last_found(entries, query, to) < to || to == 0,
        last_found(entries, query, to) >= 0 ==> is_found(query)(
            entries[last_found(entries, query, to)],
        ),
    decreases to,
{
    if to > 0 && !is_found(query)(entries[to - 1]) {
        lemma_last_found(entries, query, to - 1);
    }
}

} // verus!
