//! Opening, driving and closing browser panes.
//!
//! A pane's actor is started and fed by its owner. Everything here decides what is
//! kept about a pane, and says which commands go to which actor.

use vstd::prelude::*;

use crate::api::schema::browser::{BrowserNavigateParams, BrowserOpenParams};
use crate::api::schema::requests::Direction;
use crate::api::schema::responses::ErrorBody;
use crate::app::api::announce::Announcement;
use crate::app::api::peers::forward::Reply;
use crate::app::browser_panes::BrowserPanes;
use crate::app::layout::FreshPane;
use crate::app::state::{
    App, AppState, EVEN_SPLIT, Mode, Pane, PaneId, PaneKey, RuntimeEntry, Split, Tab, Workspace,
};
use crate::browser::client::Call;
use crate::browser::command::BrowserCommand;
use crate::browser::daemon::Stopping;
use crate::browser::url::normalize;
use crate::pane::state::{PaneKind, PaneState};
use crate::search::take_where;
use crate::text::{cat2, cat3};

verus! {

/// Who draws into a browser pane, so that nobody else can draw over it.
pub const BROWSER_STREAM_OWNER: &'static str = "herdr-browser";

/// The label of a browser pane's terminal.
pub const BROWSER_PANE_LABEL: &'static str = "browser";

/// How many browser panes can be open at once. Each one is a browser and a
/// polling thread, so without a bound opening them in a loop takes the machine
/// down.
pub const MAX_BROWSER_PANES: usize = 4;

/// A counter after one more change.
pub open spec fn bumped(revision: u64) -> u64 {
    if revision == u64::MAX {
        0
    } else {
        (revision + 1) as u64
    }
}

fn bump(revision: u64) -> (r: u64)
    ensures
        r == bumped(revision),
{
    if revision == u64::MAX {
        0
    } else {
        revision + 1
    }
}

/// It is this pane.
pub open spec fn is_pane(id: PaneId) -> spec_fn(PaneId) -> bool {
    |p: PaneId| p == id
}

/// A pane's actor is gone: what was queued for it goes too, because nothing would
/// ever take it.
pub open spec fn detached(b: crate::app::browser_panes::BrowserView, pane: PaneId) -> crate::app::browser_panes::BrowserView {
    crate::app::browser_panes::BrowserView {
        actors: b.actors.remove(pane),
        viewports: b.viewports.remove(pane),
        shutdowns: b.shutdowns.filter(crate::search::lacks(is_pane(pane))),
        input_events: b.input_events.filter(
            crate::search::lacks(crate::app::pane_map::of_pane(pane)),
        ),
        ..b
    }
}

/// Nothing is kept of the pane any more.
pub open spec fn forgotten(b: crate::app::browser_panes::BrowserView, pane: PaneId) -> crate::app::browser_panes::BrowserView {
    let d = detached(b, pane);
    crate::app::browser_panes::BrowserView {
        urls: d.urls.remove(pane),
        errors: d.errors.remove(pane),
        streams: d.streams.remove(pane),
        layers: d.layers.remove(pane),
        revision: bumped(d.revision),
        ..d
    }
}

/// Nothing is kept of these panes any more.
pub open spec fn all_forgotten(
    b: crate::app::browser_panes::BrowserView,
    panes: Seq<PaneId>,
) -> crate::app::browser_panes::BrowserView
    decreases panes.len(),
{
    if panes.len() == 0 {
        b
    } else {
        forgotten(all_forgotten(b, panes.drop_last()), panes.last())
    }
}

/// The pane's session is gone, and the pane waits for a retry: the picture goes,
/// and nobody else may draw.
pub open spec fn exited(
    b: crate::app::browser_panes::BrowserView,
    pane: PaneId,
    reason: String,
) -> crate::app::browser_panes::BrowserView {
    let d = detached(b, pane);
    crate::app::browser_panes::BrowserView {
        layers: d.layers.remove(pane),
        revision: bumped(d.revision),
        errors: d.errors.insert(pane, reason),
        ..d
    }
}

/// The pane's actor runs, and its page is the one it was sent to. The size its
/// session was told is that of an earlier session, so it is told again.
pub open spec fn started(
    b: crate::app::browser_panes::BrowserView,
    pane: PaneId,
    page: Option<Seq<char>>,
) -> crate::app::browser_panes::BrowserView {
    crate::app::browser_panes::BrowserView {
        actors: b.actors.insert(pane, ()),
        viewports: b.viewports.remove(pane),
        urls: match page {
            Some(page) => b.urls.insert(pane, page),
            None => b.urls,
        },
        ..b
    }
}

/// The page a URL leads to, when one was given, or why it is refused. No other
/// page is ever sent to an actor or kept for a pane.
pub open spec fn page_of(url: Option<Seq<char>>) -> Result<Option<Seq<char>>, Seq<char>> {
    match url {
        Some(url) => match crate::browser::url::normalized(url) {
            Ok(page) => Ok(Some(page)),
            Err(reason) => Err(reason),
        },
        None => Ok(None),
    }
}

/// The command leads to this page, and there is none where there is no page.
pub open spec fn leads_to(command: Option<BrowserCommand>, page: Option<Seq<char>>) -> bool {
    match command {
        Some(command) => page is Some && command@
            == crate::browser::command::CommandView::Navigate(page->0),
        None => page is None,
    }
}

/// Every page that is kept is one that may be navigated to as it is.
pub open spec fn keeps_pages(b: crate::app::browser_panes::BrowserView) -> bool {
    forall|pane: PaneId| #[trigger]
        b.urls.contains_key(pane) ==> crate::browser::url::normalized(b.urls[pane]) == Ok::<
            Seq<char>,
            Seq<char>,
        >(b.urls[pane])
}

/// The pane hosts a browser.
pub open spec fn is_browser() -> spec_fn(Pane) -> bool {
    |p: Pane| p.state.kind == PaneKind::Browser
}

/// The browser panes among these.
pub open spec fn browsers_in(panes: Seq<Pane>) -> Seq<PaneId> {
    panes.filter(is_browser()).map_values(|p: Pane| p.id)
}

/// The browser panes of these tabs.
pub open spec fn browsers_in_tabs(tabs: Seq<Tab>) -> Seq<PaneId>
    decreases tabs.len(),
{
    if tabs.len() == 0 {
        Seq::empty()
    } else {
        browsers_in_tabs(tabs.drop_last()) + browsers_in(tabs.last().panes@)
    }
}

/// The browser panes of these workspaces, in order.
pub open spec fn browsers(workspaces: Seq<Workspace>) -> Seq<PaneId>
    decreases workspaces.len(),
{
    if workspaces.len() == 0 {
        Seq::empty()
    } else {
        browsers(workspaces.drop_last()) + browsers_in_tabs(workspaces.last().tabs@)
    }
}

/// This pane is a browser pane.
pub open spec fn hosts_browser(workspaces: Seq<Workspace>, pane: PaneId) -> bool {
    let key = crate::app::state::PaneKeyView::Id(pane);
    let at = crate::search::first(workspaces, crate::app::state::workspace_has(key), 0);
    at < workspaces.len() && (crate::app::state::pane_in(workspaces[at], key)->0).state.kind
        == PaneKind::Browser
}

/// The pane as it is once those of `gone` host a terminal.
pub open spec fn demoted(pane: Pane, gone: Set<PaneId>) -> Pane {
    if gone.contains(pane.id) {
        Pane { state: PaneState { kind: PaneKind::Terminal, ..pane.state }, ..pane }
    } else {
        pane
    }
}

/// The panes of `gone` host a terminal, and the tab is otherwise the same.
pub open spec fn demotes_in(before: Tab, after: Tab, gone: Set<PaneId>) -> bool {
    &&& after == (Tab { panes: after.panes, ..before })
    &&& after.panes@ == before.panes@.map_values(|p: Pane| demoted(p, gone))
}

/// The panes of `gone` host a terminal, and the workspace is otherwise the same.
pub open spec fn demotes_under(before: Workspace, after: Workspace, gone: Set<PaneId>) -> bool {
    &&& after == (Workspace { tabs: after.tabs, ..before })
    &&& after.tabs@.len() == before.tabs@.len()
    &&& forall|t: int|
        0 <= t < before.tabs@.len() ==> demotes_in(before.tabs@[t], #[trigger] after.tabs@[t], gone)
}

/// The panes of `gone` host a terminal, and everything else is the same.
pub open spec fn demotes(before: Seq<Workspace>, after: Seq<Workspace>, gone: Set<PaneId>) -> bool {
    &&& after.len() == before.len()
    &&& forall|w: int|
        0 <= w < before.len() ==> demotes_under(before[w], #[trigger] after[w], gone)
}

/// Only what is kept of the browser panes changed.
pub open spec fn keeps_all_but_browser(before: App, after: App) -> bool {
    after == (App {
        state: crate::app::state::AppState { browser: after.state.browser, ..before.state },
        ..before
    })
}

/// Nothing is kept of the pane, and it hosts a terminal.
pub open spec fn retires(before: App, after: App, pane: PaneId) -> bool {
    &&& after.state.browser@ == forgotten(before.state.browser@, pane)
    &&& demotes(before.state.workspaces@, after.state.workspaces@, set![pane])
    &&& after == (App {
        state: crate::app::state::AppState {
            browser: after.state.browser,
            workspaces: after.state.workspaces,
            ..before.state
        },
        ..before
    })
}

proof fn lemma_demotes_nothing(workspaces: Seq<Workspace>)
    ensures
        demotes(workspaces, workspaces, Set::empty()),
{
    assert forall|w: int| 0 <= w < workspaces.len() implies demotes_under(
        workspaces[w],
        #[trigger] workspaces[w],
        Set::empty(),
    ) by {
        let ws = workspaces[w];
        assert forall|t: int| 0 <= t < ws.tabs@.len() implies demotes_in(
            ws.tabs@[t],
            #[trigger] ws.tabs@[t],
            Set::empty(),
        ) by {
            assert(ws.tabs@[t].panes@ =~= ws.tabs@[t].panes@.map_values(
                |p: Pane| demoted(p, Set::empty()),
            ));
        }
    }
}

proof fn lemma_demotes_twice(
    a: Seq<Workspace>,
    b: Seq<Workspace>,
    c: Seq<Workspace>,
    x: Set<PaneId>,
    y: Set<PaneId>,
)
    requires
        demotes(a, b, x),
        demotes(b, c, y),
    ensures
        demotes(a, c, x.union(y)),
{
    assert forall|w: int| 0 <= w < a.len() implies demotes_under(
        a[w],
        #[trigger] c[w],
        x.union(y),
    ) by {
        assert(demotes_under(a[w], b[w], x));
        assert(demotes_under(b[w], c[w], y));
        assert forall|t: int| 0 <= t < a[w].tabs@.len() implies demotes_in(
            a[w].tabs@[t],
            #[trigger] c[w].tabs@[t],
            x.union(y),
        ) by {
            assert(demotes_in(a[w].tabs@[t], b[w].tabs@[t], x));
            assert(demotes_in(b[w].tabs@[t], c[w].tabs@[t], y));
            assert(c[w].tabs@[t].panes@ =~= a[w].tabs@[t].panes@.map_values(
                |p: Pane| demoted(p, x.union(y)),
            ));
        }
    }
}

fn demote_in(tab: &mut Tab, pane: PaneId)
    ensures
        demotes_in(*old(tab), *final(tab), set![pane]),
{
    let ghost was = tab.panes@;
    let mut i: usize = 0;
    while i < tab.panes.len()
        invariant
            i <= tab.panes@.len(),
            tab.panes@.len() == was.len(),
            was == old(tab).panes@,
            *tab == (Tab { panes: tab.panes, ..*old(tab) }),
            forall|j: int| 0 <= j < i ==> #[trigger] tab.panes@[j] == demoted(was[j], set![pane]),
            forall|j: int| i <= j < was.len() ==> #[trigger] tab.panes@[j] == was[j],
        decreases was.len() - i,
    {
        if tab.panes[i].id == pane {
            tab.panes[i].state.kind = PaneKind::Terminal;
        }
        i += 1;
    }
    assert(tab.panes@ =~= was.map_values(|p: Pane| demoted(p, set![pane])));
}

fn demote_under(workspace: &mut Workspace, pane: PaneId)
    ensures
        demotes_under(*old(workspace), *final(workspace), set![pane]),
{
    let ghost was = workspace.tabs@;
    let mut i: usize = 0;
    while i < workspace.tabs.len()
        invariant
            i <= workspace.tabs@.len(),
            workspace.tabs@.len() == was.len(),
            was == old(workspace).tabs@,
            *workspace == (Workspace { tabs: workspace.tabs, ..*old(workspace) }),
            forall|j: int|
                0 <= j < i ==> demotes_in(was[j], #[trigger] workspace.tabs@[j], set![pane]),
            forall|j: int| i <= j < was.len() ==> #[trigger] workspace.tabs@[j] == was[j],
        decreases was.len() - i,
    {
        demote_in(&mut workspace.tabs[i], pane);
        i += 1;
    }
}

fn push_browsers(out: &mut Vec<PaneId>, panes: &Vec<Pane>)
    ensures
        final(out)@ == old(out)@ + browsers_in(panes@),
{
    let ghost was = out@;
    let mut i: usize = 0;
    proof {
        reveal(Seq::filter);
        assert(panes@.take(0) =~= Seq::empty());
        assert(out@ =~= was + browsers_in(panes@.take(0)));
    }
    while i < panes.len()
        invariant
            i <= panes@.len(),
            out@ == was + browsers_in(panes@.take(i as int)),
        decreases panes@.len() - i,
    {
        proof {
            crate::search::lemma_filter_step(panes@, is_browser(), i as int);
        }
        let ghost seen = panes@.take(i as int).filter(is_browser());
        if panes[i].state.is_browser() {
            out.push(panes[i].id);
            assert(out@ =~= was + seen.push(panes@[i as int]).map_values(|p: Pane| p.id));
        }
        i += 1;
    }
    assert(panes@.take(i as int) =~= panes@);
}

impl BrowserPanes {
    /// Stops feeding a pane's actor without changing what the pane is.
    pub fn detach(&mut self, pane_id: PaneId)
        ensures
            final(self)@ == detached(old(self)@, pane_id),
    {
        self.actors.remove(pane_id);
        self.viewports.remove(pane_id);
        let same = |p: &PaneId| -> (b: bool)
            ensures
                b == is_pane(pane_id)(*p),
            { *p == pane_id };
        take_where(&mut self.shutdowns, same, Ghost(is_pane(pane_id)));
        let queued = |e: &(PaneId, BrowserCommand)| -> (b: bool)
            ensures
                b == crate::app::pane_map::of_pane::<BrowserCommand>(pane_id)(*e),
            { e.0 == pane_id };
        take_where(
            &mut self.input_events,
            queued,
            Ghost(crate::app::pane_map::of_pane::<BrowserCommand>(pane_id)),
        );
    }

    /// Keeps nothing of a pane.
    pub fn forget(&mut self, pane_id: PaneId)
        ensures
            final(self)@ == forgotten(old(self)@, pane_id),
    {
        self.detach(pane_id);
        self.urls.remove(pane_id);
        self.errors.remove(pane_id);
        self.streams.remove(pane_id);
        self.layers.remove(pane_id);
        self.revision = bump(self.revision);
    }
}

impl AppState {
    /// The browser panes, in the order of the layout.
    pub fn browser_pane_ids(&self) -> (r: Vec<PaneId>)
        ensures
            r@ == browsers(self.workspaces@),
    {
        let mut out: Vec<PaneId> = Vec::new();
        let workspaces = &self.workspaces;
        let mut w: usize = 0;
        assert(workspaces@.take(0) =~= Seq::empty());
        while w < workspaces.len()
            invariant
                w <= workspaces@.len(),
                out@ == browsers(workspaces@.take(w as int)),
            decreases workspaces@.len() - w,
        {
            let tabs = &workspaces[w].tabs;
            let ghost before = out@;
            let mut t: usize = 0;
            assert(tabs@.take(0) =~= Seq::empty());
            assert(out@ =~= before + browsers_in_tabs(tabs@.take(0)));
            while t < tabs.len()
                invariant
                    t <= tabs@.len(),
                    out@ == before + browsers_in_tabs(tabs@.take(t as int)),
                decreases tabs@.len() - t,
            {
                assert(tabs@.take(t + 1).drop_last() =~= tabs@.take(t as int));
                push_browsers(&mut out, &tabs[t].panes);
                t += 1;
                assert(out@ =~= before + browsers_in_tabs(tabs@.take(t as int)));
            }
            assert(tabs@.take(t as int) =~= tabs@);
            assert(workspaces@.take(w + 1).drop_last() =~= workspaces@.take(w as int));
            w += 1;
        }
        assert(workspaces@.take(w as int) =~= workspaces@);
        out
    }

    /// Whether a pane is a browser pane.
    pub fn is_browser_pane(&self, pane_id: PaneId) -> (r: bool)
        ensures
            r == hosts_browser(self.workspaces@, pane_id),
    {
        let key = PaneKey::Id(pane_id);
        let at = crate::app::state::workspace_with(&self.workspaces, &key);
        if at >= self.workspaces.len() {
            return false;
        }
        proof {
            crate::search::lemma_first(
                self.workspaces@,
                crate::app::state::workspace_has(key@),
                0,
            );
        }
        match self.workspaces[at].find_pane(&key) {
            Some(pane) => pane.state.is_browser(),
            None => false,
        }
    }
}

impl App {
    /// Draws a new frame into its pane, unless the pane is no longer a browser
    /// pane. Returns whether there is something to draw.
    pub fn handle_browser_frame(&mut self, pane_id: PaneId, data: Vec<u8>) -> (r: bool)
        ensures
            r == hosts_browser(old(self).state.workspaces@, pane_id),
            keeps_all_but_browser(*old(self), *final(self)),
            final(self).state.browser@ == if r {
                crate::app::browser_panes::BrowserView {
                    layers: old(self).state.browser@.layers.insert(pane_id, data),
                    revision: bumped(old(self).state.browser@.revision),
                    ..old(self).state.browser@
                }
            } else {
                old(self).state.browser@
            },
    {
        if !self.state.is_browser_pane(pane_id) {
            return false;
        }
        self.state.browser.layers.insert(pane_id, data);
        self.state.browser.revision = bump(self.state.browser.revision);
        true
    }

    /// The session of a pane is gone for good.
    ///
    /// The pane stays a browser pane and keeps its place. That is what makes
    /// recovery possible: a retry can put the same page back in the same place.
    pub fn handle_browser_daemon_exited(&mut self, pane_id: PaneId, reason: String)
        ensures
            keeps_all_but_browser(*old(self), *final(self)),
            final(self).state.browser@ == exited(old(self).state.browser@, pane_id, reason),
    {
        self.state.browser.detach(pane_id);
        self.state.browser.layers.remove(pane_id);
        self.state.browser.revision = bump(self.state.browser.revision);
        self.state.browser.errors.insert(pane_id, reason);
    }

    /// Begins a retry of a failed pane, and says which page it goes back to. Does
    /// nothing for a pane that did not fail.
    ///
    /// Once the actor runs, [`App::spawn_browser_actor`] follows; when it could
    /// not be started, [`App::browser_retry_failed`].
    pub fn retry_browser_pane(&mut self, pane_id: PaneId) -> (r: Option<Option<String>>)
        ensures
            r is Some == old(self).state.browser@.errors.contains_key(pane_id),
            match r {
                Some(url) => crate::text::opt_view(url) == (if old(
                    self,
                ).state.browser@.urls.contains_key(pane_id) {
                    Some(old(self).state.browser@.urls[pane_id])
                } else {
                    None
                }) && keeps_all_but_browser(*old(self), *final(self))
                    && final(self).state.browser@ == (crate::app::browser_panes::BrowserView {
                    errors: old(self).state.browser@.errors.remove(pane_id),
                    ..old(self).state.browser@
                }),
                None => *final(self) == *old(self),
            },
    {
        if !self.state.browser.errors.has(pane_id) {
            return None;
        }
        self.state.browser.errors.remove(pane_id);
        let url = match self.state.browser.urls.get(pane_id) {
            Some(url) => Some(url.clone()),
            None => None,
        };
        Some(url)
    }

    /// The actor of a retried pane could not be started, so the pane has failed
    /// again.
    pub fn browser_retry_failed(&mut self, pane_id: PaneId, error: &str)
        ensures
            keeps_all_but_browser(*old(self), *final(self)),
            final(self).state.browser@.errors.contains_key(pane_id),
            final(self).state.browser@.errors[pane_id]@ == "failed to start browser pane actor: "@
                + error@,
            final(self).state.browser@ == (crate::app::browser_panes::BrowserView {
                errors: old(self).state.browser@.errors.insert(
                    pane_id,
                    final(self).state.browser@.errors[pane_id],
                ),
                ..old(self).state.browser@
            }),
    {
        let text = cat2("failed to start browser pane actor: ", error);
        self.state.browser.errors.insert(pane_id, text);
    }

    /// Notes that a pane's actor runs, and says what it is to be sent first. A URL
    /// that must not be navigated to is refused, and nothing is noted.
    ///
    /// This is the shared half of first open and retry.
    pub fn spawn_browser_actor(&mut self, pane_id: PaneId, url: Option<String>) -> (r: Result<
        Option<BrowserCommand>,
        String,
    >)
        ensures
            match page_of(crate::text::opt_view(url)) {
                Ok(page) => {
                    &&& r is Ok
                    &&& leads_to(r->Ok_0, page)
                    &&& keeps_all_but_browser(*old(self), *final(self))
                    &&& final(self).state.browser@ == started(
                        old(self).state.browser@,
                        pane_id,
                        page,
                    )
                },
                Err(reason) => r is Err && r->Err_0@ == reason && *final(self) == *old(self),
            },
            keeps_pages(old(self).state.browser@) ==> keeps_pages(final(self).state.browser@),
    {
        let first = match url {
            Some(url) => match normalize(url.as_str()) {
                Ok(page) => {
                    proof {
                        crate::browser::url::law_normalized_urls_are_final(url@);
                    }
                    self.state.browser.urls.insert(pane_id, page.clone());
                    Some(BrowserCommand::Navigate(page))
                },
                Err(reason) => {
                    return Err(reason);
                },
            },
            None => None,
        };
        self.state.browser.viewports.remove(pane_id);
        self.state.browser.actors.insert(pane_id, ());
        Ok(first)
    }

    /// Keeps nothing of a browser pane, leaving an ordinary pane behind. For a
    /// pane that goes away or whose opening is undone, not for one whose session
    /// merely died.
    pub fn retire_browser_pane(&mut self, pane_id: PaneId)
        ensures
            retires(*old(self), *final(self), pane_id),
    {
        self.state.browser.forget(pane_id);
        let ghost was = self.state.workspaces@;
        let mut i: usize = 0;
        while i < self.state.workspaces.len()
            invariant
                i <= self.state.workspaces@.len(),
                self.state.workspaces@.len() == was.len(),
                was == old(self).state.workspaces@,
                self.state.browser@ == forgotten(old(self).state.browser@, pane_id),
                *self == (App {
                    state: crate::app::state::AppState {
                        browser: self.state.browser,
                        workspaces: self.state.workspaces,
                        ..old(self).state
                    },
                    ..*old(self)
                }),
                forall|j: int|
                    0 <= j < i ==> demotes_under(
                        was[j],
                        #[trigger] self.state.workspaces@[j],
                        set![pane_id],
                    ),
                forall|j: int|
                    i <= j < was.len() ==> #[trigger] self.state.workspaces@[j] == was[j],
            decreases was.len() - i,
        {
            demote_under(&mut self.state.workspaces[i], pane_id);
            i += 1;
        }
    }
}

/// Where a pane is drawn, in cells.
#[derive(Debug, Clone, Copy, PartialEq, Eq, Structural)]
pub struct PaneArea {
    pub id: PaneId,
    pub width: u16,
    pub height: u16,
}

/// A size in pixels a session is to be told.
#[derive(Debug, Clone, Copy, PartialEq, Eq, Structural)]
pub struct Resize {
    pub pane_id: PaneId,
    pub width: u32,
    pub height: u32,
}

/// The size of an area in pixels.
pub open spec fn pixels(area: PaneArea, cell: crate::app::browser_panes::HostCellSize) -> (int, int) {
    (area.width * cell.width_px, area.height * cell.height_px)
}

/// The pane has an actor, takes up some room, and its session was told another
/// size, or none.
pub open spec fn needs_resize(b: crate::app::browser_panes::BrowserView) -> spec_fn(PaneArea) -> bool {
    |area: PaneArea|
        {
            let (width, height) = pixels(area, b.cell_size);
            &&& b.actors.contains_key(area.id)
            &&& b.cell_size.known()
            &&& width > 0
            &&& height > 0
            &&& !(b.viewports.contains_key(area.id) && b.viewports[area.id].0 == width
                && b.viewports[area.id].1 == height)
        }
}

/// The pixels of an area can be counted, when they are needed: where the pane has
/// an actor and the size of a cell is known.
pub open spec fn countable(b: crate::app::browser_panes::BrowserView, area: PaneArea) -> bool {
    b.actors.contains_key(area.id) && b.cell_size.known() ==> {
        &&& pixels(area, b.cell_size).0 <= u32::MAX
        &&& pixels(area, b.cell_size).1 <= u32::MAX
    }
}

/// What the session of an area is to be told.
pub open spec fn resize_of(cell: crate::app::browser_panes::HostCellSize) -> spec_fn(PaneArea) -> Resize {
    |area: PaneArea|
        Resize {
            pane_id: area.id,
            width: pixels(area, cell).0 as u32,
            height: pixels(area, cell).1 as u32,
        }
}

/// How a browser pane that is being opened goes on: where it is, and the page it
/// is to show.
#[derive(Debug, PartialEq, Eq)]
pub struct BrowserOpening {
    pub ws_idx: usize,
    pub tab_idx: usize,
    pub pane_id: PaneId,
    /// The split that makes room for the pane.
    pub split: Split,
    pub url: Option<String>,
}

/// What came of opening a browser pane.
#[derive(Debug, PartialEq, Eq)]
pub struct BrowserOpened {
    pub reply: Reply,
    /// What goes out to subscribers.
    pub events: Vec<Announcement>,
    /// What the actor is to be sent first.
    pub first: Option<BrowserCommand>,
    /// What stopped running when the opening was undone.
    pub ended: Vec<RuntimeEntry>,
    /// The pane that was taken out when the opening was undone. What plugins
    /// recorded of it is to be dropped.
    pub undone: Option<PaneId>,
}

/// The focused pane of the shown workspace, as clients know it.
pub open spec fn current_target(app: App) -> Option<Seq<char>> {
    match app.state.active {
        Some(at) if at < app.state.workspaces@.len() => {
            let workspace = app.state.workspaces@[at as int];
            match workspace.focused_pane {
                Some(pane) => match crate::app::state::pane_in(
                    workspace,
                    crate::app::state::PaneKeyView::Id(pane),
                ) {
                    Some(pane) => Some(pane.public_id@),
                    None => None,
                },
                None => None,
            }
        },
        _ => None,
    }
}

/// The pane a request names, or the focused one.
pub open spec fn open_target(app: App, pane_id: Option<String>) -> Option<Seq<char>> {
    match pane_id {
        Some(id) => Some(id@),
        None => current_target(app),
    }
}

/// Why a browser pane cannot be opened.
pub open spec fn open_refused(app: App, params: BrowserOpenParams) -> Option<(Seq<char>, Seq<char>)> {
    if !app.state.browser.graphics_enabled {
        Some(("feature_disabled"@, "pane graphics are not enabled"@))
    } else if browsers(app.state.workspaces@).len() >= MAX_BROWSER_PANES {
        Some(("browser_pane_limit"@, "at most 4 browser panes can be open at once"@))
    } else {
        match open_target(app, params.pane_id) {
            None => Some(("no_active_pane"@, "no active pane"@)),
            Some(target) => match crate::app::state::located(
                app.state.workspaces@,
                crate::app::state::PaneKeyView::Public(target),
            ) {
                None => Some(("pane_not_found"@, "pane "@ + target + " not found"@)),
                Some(_) => match page_of(crate::text::opt_view(params.url)) {
                    Err(reason) => Some(("invalid_request"@, reason)),
                    Ok(_) => None,
                },
            },
        }
    }
}

/// The pane is a browser pane with these ids and the label of one, where this
/// split made room for it.
pub open spec fn is_new_browser_pane(pane: Pane, fresh: FreshPane, split: Split) -> bool {
    &&& pane.label is Some
    &&& pane.label->0@ == BROWSER_PANE_LABEL@
    &&& pane == (Pane {
        id: fresh.id,
        public_id: fresh.public_id,
        state: PaneState {
            attached_terminal_id: fresh.terminal_id,
            kind: PaneKind::Browser,
            seen: true,
        },
        split: Some(split),
        label: pane.label,
    })
}

/// A browser pane was put into this tab, where this split made room for it, and
/// is its workspace's focused pane. It has a terminal, which nothing runs.
pub open spec fn splits_browser(
    before: App,
    after: App,
    at: int,
    tab: int,
    split: Split,
    fresh: FreshPane,
) -> bool {
    let was = before.state.workspaces@[at];
    let now = after.state.workspaces@[at];
    &&& after.state.workspaces@ == before.state.workspaces@.update(at, now)
    &&& now == (Workspace { tabs: now.tabs, focused_pane: Some(fresh.id), ..was })
    &&& now.tabs@ == was.tabs@.update(tab, now.tabs@[tab])
    &&& now.tabs@[tab] == (Tab { panes: now.tabs@[tab].panes, ..was.tabs@[tab] })
    &&& now.tabs@[tab].panes@ == was.tabs@[tab].panes@.push(now.tabs@[tab].panes@.last())
    &&& is_new_browser_pane(now.tabs@[tab].panes@.last(), fresh, split)
    &&& after.state.terminals@ == crate::app::layout::terminal_set(
        before.state.terminals@,
        fresh.terminal_id,
    )
    &&& after == (App {
        state: crate::app::state::AppState {
            workspaces: after.state.workspaces,
            terminals: after.state.terminals,
            ..before.state
        },
        ..before
    })
}

/// The opening goes on where the target is: beside it, dividing it horizontally
/// into even halves.
pub open spec fn begins_open(
    before: App,
    after: App,
    params: BrowserOpenParams,
    fresh: FreshPane,
    opening: BrowserOpening,
) -> bool {
    let key = crate::app::state::PaneKeyView::Public(open_target(before, params.pane_id)->0);
    let (at, target) = crate::app::state::located(before.state.workspaces@, key)->0;
    let split = Split {
        from: target,
        direction: Direction::Horizontal,
        ratio: Some(EVEN_SPLIT),
    };
    let tab = crate::search::first(
        before.state.workspaces@[at].tabs@,
        crate::app::state::tab_has(key),
        0,
    );
    &&& opening.ws_idx == at < before.state.workspaces@.len()
    &&& opening.tab_idx == tab < before.state.workspaces@[at].tabs@.len()
    &&& opening.pane_id == fresh.id
    &&& opening.split == split
    &&& page_of(crate::text::opt_view(params.url)) == Ok::<Option<Seq<char>>, Seq<char>>(
        crate::text::opt_view(opening.url),
    )
    &&& splits_browser(before, after, at, tab, split, fresh)
}

/// The pane is taken out of this workspace, when it is there.
pub open spec fn takes_out(before: App, after: App, ws_idx: usize, pane: PaneId, ended: Seq<RuntimeEntry>) -> bool {
    let key = crate::app::state::PaneKeyView::Id(pane);
    if ws_idx < before.state.workspaces@.len() && crate::app::state::workspace_has(key)(
        before.state.workspaces@[ws_idx as int],
    ) {
        let was = before.state.workspaces@[ws_idx as int];
        let tab = crate::search::first(was.tabs@, crate::app::state::tab_has(key), 0);
        let at = crate::search::first(was.tabs@[tab].panes@, crate::app::state::pane_has(key), 0);
        crate::app::layout::removes_pane(before, after, ws_idx, tab as usize, at as usize, ended)
    } else {
        after == before && ended.len() == 0
    }
}

/// Nothing is kept of the pane, and it is taken out.
pub open spec fn rolls_back(before: App, after: App, ws_idx: usize, pane: PaneId, ended: Seq<RuntimeEntry>) -> bool {
    exists|mid: App| #[trigger]
        retires(before, mid, pane) && takes_out(mid, after, ws_idx, pane, ended)
}

/// Why a browser pane that was begun cannot be had: its actor was not started, or
/// its page is refused.
pub open spec fn open_failure(
    started_actor: Result<(), String>,
    url: Option<String>,
) -> Option<Seq<char>> {
    match started_actor {
        Err(error) => Some(error@),
        Ok(_) => match page_of(crate::text::opt_view(url)) {
            Err(reason) => Some(reason),
            Ok(_) => None,
        },
    }
}

/// The opening came to nothing, for this reason.
pub open spec fn opens_nothing(opened: BrowserOpened, message: Seq<char>) -> bool {
    &&& opened.reply is Error
    &&& opened.reply->Error_0@ == ("browser_pane_open_failed"@, message)
    &&& opened.events@.len() == 0
    &&& opened.first is None
}

/// The pane is drawn by its session and shown, and the session is to be saved.
pub open spec fn shows_browser(before: App, after: App, opening: BrowserOpening) -> bool {
    let page = page_of(crate::text::opt_view(opening.url))->Ok_0;
    let b = started(before.state.browser@, opening.pane_id, page);
    let at = opening.ws_idx as int;
    let was = before.state.workspaces@[at];
    let now = after.state.workspaces@[at];
    &&& after.state.browser@.streams.contains_key(opening.pane_id)
    &&& after.state.browser@.streams[opening.pane_id]@ == BROWSER_STREAM_OWNER@
    &&& after.state.browser@ == (crate::app::browser_panes::BrowserView {
        streams: b.streams.insert(
            opening.pane_id,
            after.state.browser@.streams[opening.pane_id],
        ),
        ..b
    })
    &&& after.state.workspaces@ == before.state.workspaces@.update(at, now)
    &&& now == (Workspace { active_tab: opening.tab_idx, ..was })
    &&& after == (App {
        state: crate::app::state::AppState {
            browser: after.state.browser,
            workspaces: after.state.workspaces,
            active: Some(opening.ws_idx),
            selected: opening.ws_idx,
            mode: Mode::Terminal,
            session_dirty: true,
            ..before.state
        },
        ..before
    })
}

/// The pane that is being opened is where it was put.
pub open spec fn still_there(app: App, opening: BrowserOpening) -> bool {
    opening.ws_idx < app.state.workspaces@.len() && crate::app::state::workspace_has(
        crate::app::state::PaneKeyView::Id(opening.pane_id),
    )(app.state.workspaces@[opening.ws_idx as int])
}

/// The commands for a pane with an actor.
pub open spec fn has_actor(b: crate::app::browser_panes::BrowserView) -> spec_fn((PaneId, BrowserCommand)) -> bool {
    |e: (PaneId, BrowserCommand)| b.actors.contains_key(e.0)
}

/// Why a pane cannot be sent to this page.
pub open spec fn navigate_refused(
    app: App,
    pane_id: Seq<char>,
    url: Seq<char>,
) -> Option<(Seq<char>, Seq<char>)> {
    match crate::app::state::located(
        app.state.workspaces@,
        crate::app::state::PaneKeyView::Public(pane_id),
    ) {
        None => Some(("pane_not_found"@, "pane "@ + pane_id + " not found"@)),
        Some((_, pane)) => if !app.state.browser@.actors.contains_key(pane) {
            Some(("not_browser_pane"@, "pane is not a Browser pane"@))
        } else {
            match crate::browser::url::normalized(url) {
                Err(reason) => Some(("invalid_request"@, reason)),
                Ok(_) => None,
            }
        },
    }
}

fn pane_not_found(id: &str) -> (r: ErrorBody)
    ensures
        r@ == ("pane_not_found"@, "pane "@ + id@ + " not found"@),
{
    ErrorBody::new("pane_not_found", cat3("pane ", id, " not found"))
}

impl App {
    /// The sizes that sessions are to be told, so that a page is laid out at its
    /// pane's aspect ratio. A size that was told is noted with
    /// [`App::browser_viewport_sent`], and not told again until it changes.
    pub fn sync_browser_viewports(&self, areas: &Vec<PaneArea>) -> (r: Vec<Resize>)
        requires
            forall|i: int|
                0 <= i < areas@.len() ==> countable(self.state.browser@, #[trigger] areas@[i]),
        ensures
            r@ == areas@.filter(needs_resize(self.state.browser@)).map_values(
                resize_of(self.state.browser.cell_size),
            ),
    {
        let b = &self.state.browser;
        let cell = b.cell_size;
        let mut out: Vec<Resize> = Vec::new();
        let mut i: usize = 0;
        proof {
            reveal(Seq::filter);
            assert(areas@.take(0) =~= Seq::empty());
            assert(out@ =~= areas@.take(0).filter(needs_resize(b@)).map_values(resize_of(cell)));
        }
        while i < areas.len()
            invariant
                b == &self.state.browser,
                cell == b.cell_size,
                i <= areas@.len(),
                forall|j: int| 0 <= j < areas@.len() ==> countable(b@, #[trigger] areas@[j]),
                out@ == areas@.take(i as int).filter(needs_resize(b@)).map_values(resize_of(cell)),
            decreases areas@.len() - i,
        {
            proof {
                crate::search::lemma_filter_step(areas@, needs_resize(b@), i as int);
            }
            let ghost seen = areas@.take(i as int).filter(needs_resize(b@));
            let area = areas[i];
            assert(countable(b@, areas@[i as int]));
            if b.actors.has(area.id) && cell.is_known() {
                let width: u32 = area.width as u32 * cell.width_px;
                let height: u32 = area.height as u32 * cell.height_px;
                let told = match b.viewports.get(area.id) {
                    Some(size) => size.0 == width && size.1 == height,
                    None => false,
                };
                if width > 0 && height > 0 && !told {
                    out.push(Resize { pane_id: area.id, width, height });
                    assert(out@ =~= seen.push(areas@[i as int]).map_values(resize_of(cell)));
                }
            }
            i += 1;
        }
        assert(areas@.take(i as int) =~= areas@);
        out
    }

    /// Notes that a session was told its size.
    pub fn browser_viewport_sent(&mut self, resize: Resize)
        ensures
            keeps_all_but_browser(*old(self), *final(self)),
            final(self).state.browser@ == (crate::app::browser_panes::BrowserView {
                viewports: old(self).state.browser@.viewports.insert(
                    resize.pane_id,
                    (resize.width, resize.height),
                ),
                ..old(self).state.browser@
            }),
    {
        self.state.browser.viewports.insert(resize.pane_id, (resize.width, resize.height));
    }

    /// Gives up every browser pane, and says how to stop each session. For when
    /// the server shuts down: the actors would stop their sessions themselves, but
    /// the process ends before they get to.
    pub fn stop_all_browser_sessions(&mut self, token: &str) -> (r: Vec<Stopping>)
        ensures
            r@.len() == browsers(old(self).state.workspaces@).len(),
            forall|i: int|
                0 <= i < r@.len() ==> (#[trigger] r@[i]).stops(
                    crate::browser::daemon::session(
                        token@,
                        browsers(old(self).state.workspaces@)[i].number(),
                    ),
                ),
            final(self).state.browser@ == all_forgotten(
                old(self).state.browser@,
                browsers(old(self).state.workspaces@),
            ),
            demotes(
                old(self).state.workspaces@,
                final(self).state.workspaces@,
                browsers(old(self).state.workspaces@).to_set(),
            ),
            *final(self) == (App {
                state: crate::app::state::AppState {
                    browser: final(self).state.browser,
                    workspaces: final(self).state.workspaces,
                    ..old(self).state
                },
                ..*old(self)
            }),
    {
        let panes = self.state.browser_pane_ids();
        let mut calls: Vec<Stopping> = Vec::new();
        let mut i: usize = 0;
        proof {
            lemma_demotes_nothing(self.state.workspaces@);
            assert(panes@.take(0) =~= Seq::empty());
            assert(panes@.take(0).to_set() =~= Set::empty());
        }
        while i < panes.len()
            invariant
                panes@ == browsers(old(self).state.workspaces@),
                i <= panes@.len(),
                calls@.len() == i,
                forall|j: int|
                    0 <= j < i ==> (#[trigger] calls@[j]).stops(
                        crate::browser::daemon::session(token@, panes@[j].number()),
                    ),
                self.state.browser@ == all_forgotten(
                    old(self).state.browser@,
                    panes@.take(i as int),
                ),
                demotes(
                    old(self).state.workspaces@,
                    self.state.workspaces@,
                    panes@.take(i as int).to_set(),
                ),
                *self == (App {
                    state: crate::app::state::AppState {
                        browser: self.state.browser,
                        workspaces: self.state.workspaces,
                        ..old(self).state
                    },
                    ..*old(self)
                }),
            decreases panes@.len() - i,
        {
            let pane_id = panes[i];
            let ghost mid = self.state.workspaces@;
            self.retire_browser_pane(pane_id);
            let session = crate::browser::daemon::session_name(token, pane_id);
            calls.push(crate::browser::daemon::stop(session.as_str()));
            proof {
                let done = panes@.take(i as int);
                let more = panes@.take(i + 1);
                assert(more.drop_last() =~= done);
                assert(more =~= done.push(pane_id));
                lemma_demotes_twice(
                    old(self).state.workspaces@,
                    mid,
                    self.state.workspaces@,
                    done.to_set(),
                    set![pane_id],
                );
                assert(more.to_set() =~= done.to_set().union(set![pane_id])) by {
                    assert forall|p: PaneId| more.to_set().contains(p) implies done.to_set().union(
                        set![pane_id],
                    ).contains(p) by {
                        let k = choose|k: int| 0 <= k < more.len() && more[k] == p;
                        if k < done.len() {
                            assert(done[k] == p);
                        }
                    }
                    assert forall|p: PaneId| done.to_set().union(set![pane_id]).contains(
                        p,
                    ) implies more.to_set().contains(p) by {
                        if p == pane_id {
                            assert(more[i as int] == p);
                        } else {
                            let k = choose|k: int| 0 <= k < done.len() && done[k] == p;
                            assert(more[k] == p);
                        }
                    }
                }
            }
            i += 1;
        }
        assert(panes@.take(i as int) =~= panes@);
        calls
    }

    /// Undoes a partly opened browser pane, so that a failed open never leaves a
    /// pane whose records are missing.
    pub fn rollback_browser_pane(&mut self, ws_idx: usize, pane_id: PaneId) -> (r: Vec<
        RuntimeEntry,
    >)
        ensures
            rolls_back(*old(self), *final(self), ws_idx, pane_id, r@),
    {
        self.retire_browser_pane(pane_id);
        let ghost mid = *self;
        assert(retires(*old(self), mid, pane_id));
        let key = PaneKey::Id(pane_id);
        if ws_idx < self.state.workspaces.len() {
            let tab = self.state.workspaces[ws_idx].tab_position(&key);
            if tab < self.state.workspaces[ws_idx].tabs.len() {
                proof {
                    crate::search::lemma_first(
                        self.state.workspaces@[ws_idx as int].tabs@,
                        crate::app::state::tab_has(key@),
                        0,
                    );
                }
                let at = self.state.workspaces[ws_idx].tabs[tab].position(&key);
                let ended = self.remove_pane(ws_idx, tab, at);
                assert(takes_out(mid, *self, ws_idx, pane_id, ended@));
                return ended;
            }
        }
        let ended: Vec<RuntimeEntry> = Vec::new();
        assert(takes_out(mid, *self, ws_idx, pane_id, ended@));
        ended
    }

    fn current_public_browser_target_pane_id(&self) -> (r: Option<&str>)
        ensures
            match r {
                Some(id) => current_target(*self) == Some(id@),
                None => current_target(*self) is None,
            },
    {
        let at = match self.state.active {
            Some(at) => at,
            None => {
                return None;
            },
        };
        if at >= self.state.workspaces.len() {
            return None;
        }
        match self.state.workspaces[at].focused_pane {
            Some(pane) => match self.state.workspaces[at].find_pane(&PaneKey::Id(pane)) {
                Some(pane) => Some(pane.public_id.as_str()),
                None => None,
            },
            None => None,
        }
    }

    /// Begins opening a browser pane: puts the pane where it goes. Its owner then
    /// starts the actor, and [`App::finish_browser_open`] follows.
    pub fn handle_browser_open(&mut self, params: BrowserOpenParams, fresh: FreshPane) -> (r: Result<
        BrowserOpening,
        ErrorBody,
    >)
        ensures
            match open_refused(*old(self), params) {
                Some(error) => r is Err && r->Err_0@ == error && *final(self) == *old(self),
                None => r is Ok && begins_open(
                    *old(self),
                    *final(self),
                    params,
                    fresh,
                    r->Ok_0,
                ),
            },
    {
        if !self.state.browser.graphics_enabled {
            return Err(ErrorBody::of("feature_disabled", "pane graphics are not enabled"));
        }
        if self.state.browser_pane_ids().len() >= MAX_BROWSER_PANES {
            return Err(
                ErrorBody::of("browser_pane_limit", "at most 4 browser panes can be open at once"),
            );
        }
        let target = match &params.pane_id {
            Some(id) => id.as_str(),
            None => match self.current_public_browser_target_pane_id() {
                Some(id) => id,
                None => {
                    return Err(ErrorBody::of("no_active_pane", "no active pane"));
                },
            },
        };
        let key = PaneKey::Public(target);
        let (at, from) = match self.parse_pane_id(target) {
            Some(place) => place,
            None => {
                return Err(pane_not_found(target));
            },
        };
        let url = match &params.url {
            Some(url) => match normalize(url.as_str()) {
                Ok(page) => Some(page),
                Err(reason) => {
                    return Err(ErrorBody::new("invalid_request", reason));
                },
            },
            None => None,
        };
        let split = Split { from, direction: Direction::Horizontal, ratio: Some(EVEN_SPLIT) };
        proof {
            crate::search::lemma_first(
                self.state.workspaces@,
                crate::app::state::workspace_has(key@),
                0,
            );
        }
        let tab = self.state.workspaces[at].tab_position(&key);
        let pane_id = fresh.id;
        let terminal_id = fresh.terminal_id.clone();
        let pane = Pane {
            id: fresh.id,
            public_id: fresh.public_id,
            state: PaneState::new_browser(fresh.terminal_id),
            split: Some(split),
            label: Some(BROWSER_PANE_LABEL.to_owned()),
        };
        self.state.workspaces[at].tabs[tab].panes.push(pane);
        self.state.workspaces[at].focused_pane = Some(pane_id);
        if self.knows_terminal(terminal_id.as_str()).is_none() {
            self.state.terminals.push(terminal_id);
        }
        assert(self.state.workspaces@ =~= old(self).state.workspaces@.update(
            at as int,
            self.state.workspaces@[at as int],
        ));
        assert(self.state.workspaces@[at as int].tabs@ =~= old(
            self,
        ).state.workspaces@[at as int].tabs@.update(
            tab as int,
            self.state.workspaces@[at as int].tabs@[tab as int],
        ));
        Ok(BrowserOpening { ws_idx: at, tab_idx: tab, pane_id, split, url })
    }

    /// Finishes opening a browser pane, once its actor was started or could not
    /// be.
    pub fn finish_browser_open(
        &mut self,
        opening: BrowserOpening,
        started_actor: Result<(), String>,
    ) -> (r: BrowserOpened)
        ensures
            match open_failure(started_actor, opening.url) {
                Some(error) => {
                    &&& opens_nothing(r, "failed to start browser pane actor: "@ + error)
                    &&& r.undone == Some(opening.pane_id)
                    &&& rolls_back(
                        *old(self),
                        *final(self),
                        opening.ws_idx,
                        opening.pane_id,
                        r.ended@,
                    )
                },
                None => if still_there(*old(self), opening) {
                    &&& r.reply == (Reply::Pane {
                        ws_idx: opening.ws_idx,
                        tab_idx: opening.tab_idx,
                        pane_id: opening.pane_id,
                        split: opening.split,
                    })
                    &&& r.events@ == seq![
                        Announcement::PaneCreated {
                            ws_idx: opening.ws_idx,
                            pane_id: opening.pane_id,
                        },
                        Announcement::LayoutUpdated {
                            ws_idx: opening.ws_idx,
                            tab_idx: opening.tab_idx,
                        },
                    ]
                    &&& leads_to(
                        r.first,
                        page_of(crate::text::opt_view(opening.url))->Ok_0,
                    )
                    &&& r.ended@.len() == 0
                    &&& r.undone is None
                    &&& shows_browser(*old(self), *final(self), opening)
                } else {
                    &&& opens_nothing(r, "browser pane disappeared"@)
                    &&& r.undone == Some(opening.pane_id)
                    &&& rolls_back(
                        *old(self),
                        *final(self),
                        opening.ws_idx,
                        opening.pane_id,
                        r.ended@,
                    )
                },
            },
            keeps_pages(old(self).state.browser@) ==> keeps_pages(final(self).state.browser@),
    {
        let failure = match started_actor {
            Err(error) => Some(error),
            Ok(_) => match &opening.url {
                Some(url) => match normalize(url.as_str()) {
                    Ok(_) => None,
                    Err(reason) => Some(reason),
                },
                None => None,
            },
        };
        match failure {
            None => {},
            Some(error) => {
                let ended = self.rollback_browser_pane(opening.ws_idx, opening.pane_id);
                return BrowserOpened {
                    reply: Reply::Error(
                        ErrorBody::new(
                            "browser_pane_open_failed",
                            cat2("failed to start browser pane actor: ", error.as_str()),
                        ),
                    ),
                    events: Vec::new(),
                    first: None,
                    ended,
                    undone: Some(opening.pane_id),
                };
            },
        }
        let there = opening.ws_idx < self.state.workspaces.len()
            && self.state.workspaces[opening.ws_idx].find_pane(
            &PaneKey::Id(opening.pane_id),
        ).is_some();
        if !there {
            let ended = self.rollback_browser_pane(opening.ws_idx, opening.pane_id);
            return BrowserOpened {
                reply: Reply::Error(
                    ErrorBody::of("browser_pane_open_failed", "browser pane disappeared"),
                ),
                events: Vec::new(),
                first: None,
                ended,
                undone: Some(opening.pane_id),
            };
        }
        let first = match self.spawn_browser_actor(opening.pane_id, opening.url) {
            Ok(first) => first,
            Err(_) => None,
        };
        self.state.browser.streams.insert(opening.pane_id, BROWSER_STREAM_OWNER.to_owned());
        self.state.workspaces[opening.ws_idx].active_tab = opening.tab_idx;
        self.state.active = Some(opening.ws_idx);
        self.state.selected = opening.ws_idx;
        self.state.mode = Mode::Terminal;
        self.state.session_dirty = true;
        assert(self.state.workspaces@ =~= old(self).state.workspaces@.update(
            opening.ws_idx as int,
            self.state.workspaces@[opening.ws_idx as int],
        ));
        let reply = Reply::Pane {
            ws_idx: opening.ws_idx,
            tab_idx: opening.tab_idx,
            pane_id: opening.pane_id,
            split: opening.split,
        };
        let events = reply.announcements();
        BrowserOpened { reply, events, first, ended: Vec::new(), undone: None }
    }

    /// Takes the queued input, and says what goes to which actor. What is queued
    /// for a pane without an actor is dropped.
    pub fn dispatch_browser_input_events(&mut self) -> (r: Vec<(PaneId, BrowserCommand)>)
        ensures
            r@ == old(self).state.browser@.input_events.filter(
                has_actor(old(self).state.browser@),
            ),
            keeps_all_but_browser(*old(self), *final(self)),
            final(self).state.browser@ == (crate::app::browser_panes::BrowserView {
                input_events: Seq::empty(),
                ..old(self).state.browser@
            }),
    {
        let mut queued: Vec<(PaneId, BrowserCommand)> = Vec::new();
        std::mem::swap(&mut queued, &mut self.state.browser.input_events);
        let b = &self.state.browser;
        let ghost p = has_actor(old(self).state.browser@);
        let taken = |e: &(PaneId, BrowserCommand)| -> (r: bool)
            ensures
                r == b.actors@.contains_key(e.0),
            { b.actors.has(e.0) };
        take_where(&mut queued, taken, Ghost(p))
    }

    /// Which actor is to be told to go to which page. A URL that must not be
    /// navigated to is refused. Whether the actor took the command is handed to
    /// [`App::browser_navigated`].
    pub fn handle_browser_navigate(&self, params: &BrowserNavigateParams) -> (r: Result<
        (PaneId, BrowserCommand),
        ErrorBody,
    >)
        ensures
            match navigate_refused(*self, params.pane_id@, params.url@) {
                Some(error) => r is Err && r->Err_0@ == error,
                None => r is Ok && (crate::app::state::located(
                    self.state.workspaces@,
                    crate::app::state::PaneKeyView::Public(params.pane_id@),
                )->0).1 == (r->Ok_0).0 && (r->Ok_0).1@
                    == crate::browser::command::CommandView::Navigate(
                    crate::browser::url::normalized(params.url@)->Ok_0,
                ),
            },
    {
        let pane_id = match self.parse_pane_id(params.pane_id.as_str()) {
            Some((_, pane_id)) => pane_id,
            None => {
                return Err(pane_not_found(params.pane_id.as_str()));
            },
        };
        if !self.state.browser.actors.has(pane_id) {
            return Err(ErrorBody::of("not_browser_pane", "pane is not a Browser pane"));
        }
        match normalize(params.url.as_str()) {
            Ok(page) => Ok((pane_id, BrowserCommand::Navigate(page))),
            Err(reason) => Err(ErrorBody::new("invalid_request", reason)),
        }
    }

    /// Remembers the page a pane was sent to, so that a later retry lands on it,
    /// or says that its actor is gone. A URL that must not be navigated to is
    /// refused here too, and not remembered.
    pub fn browser_navigated(&mut self, pane_id: PaneId, url: &str, delivered: bool) -> (r: Result<
        (),
        ErrorBody,
    >)
        ensures
            match (crate::browser::url::normalized(url@), delivered) {
                (Err(reason), _) => r is Err && r->Err_0@ == ("invalid_request"@, reason)
                    && *final(self) == *old(self),
                (Ok(_), false) => r is Err && r->Err_0@ == (
                    "browser_pane_gone"@,
                    "browser pane actor is no longer running"@,
                ) && *final(self) == *old(self),
                (Ok(page), true) => r is Ok && keeps_all_but_browser(*old(self), *final(self))
                    && final(self).state.browser@ == (crate::app::browser_panes::BrowserView {
                    urls: old(self).state.browser@.urls.insert(pane_id, page),
                    ..old(self).state.browser@
                }),
            },
            keeps_pages(old(self).state.browser@) ==> keeps_pages(final(self).state.browser@),
    {
        let page = match normalize(url) {
            Ok(page) => page,
            Err(reason) => {
                return Err(ErrorBody::new("invalid_request", reason));
            },
        };
        if !delivered {
            return Err(
                ErrorBody::of("browser_pane_gone", "browser pane actor is no longer running"),
            );
        }
        proof {
            crate::browser::url::law_normalized_urls_are_final(url@);
        }
        let ghost was = self.state.browser@.urls;
        let ghost text = page@;
        self.state.browser.urls.insert(pane_id, page);
        assert(self.state.browser@.urls =~= was.insert(pane_id, text));
        Ok(())
    }
}

pub proof fn lemma_no_browsers_in(panes: Seq<Pane>)
    requires
        forall|i: int|
            0 <= i < panes.len() ==> (#[trigger] panes[i]).state.kind == PaneKind::Terminal,
    ensures
        browsers_in(panes) == Seq::<PaneId>::empty(),
{
    crate::search::lemma_filter_none(panes, is_browser());
    assert(browsers_in(panes) =~= Seq::empty());
}

pub proof fn lemma_browser_listed(panes: Seq<Pane>, i: int)
    requires
        0 <= i < panes.len(),
        panes[i].state.kind == PaneKind::Browser,
    ensures
        browsers_in(panes).contains(panes[i].id),
    decreases panes.len(),
{
    reveal(Seq::filter);
    let shorter = panes.drop_last();
    let kept = panes.filter(is_browser());
    if i == panes.len() - 1 {
        assert(kept == shorter.filter(is_browser()).push(panes.last()));
        assert(browsers_in(panes)[kept.len() - 1] == panes[i].id);
    } else {
        lemma_browser_listed(shorter, i);
        assert(shorter[i] == panes[i]);
        let k = choose|k: int|
            0 <= k < browsers_in(shorter).len() && browsers_in(shorter)[k] == panes[i].id;
        assert(browsers_in(panes)[k] == browsers_in(shorter)[k]);
    }
}

pub proof fn lemma_tab_listed(tabs: Seq<Tab>, t: int, id: PaneId)
    requires
        0 <= t < tabs.len(),
        browsers_in(tabs[t].panes@).contains(id),
    ensures
        browsers_in_tabs(tabs).contains(id),
    decreases tabs.len(),
{
    let head = browsers_in_tabs(tabs.drop_last());
    let all = browsers_in_tabs(tabs);
    if t == tabs.len() - 1 {
        let own = browsers_in(tabs[t].panes@);
        let k = choose|k: int| 0 <= k < own.len() && own[k] == id;
        assert(all[head.len() + k] == id);
    } else {
        lemma_tab_listed(tabs.drop_last(), t, id);
        let k = choose|k: int| 0 <= k < head.len() && head[k] == id;
        assert(all[k] == id);
    }
}

pub proof fn lemma_workspace_listed(workspaces: Seq<Workspace>, w: int, id: PaneId)
    requires
        0 <= w < workspaces.len(),
        browsers_in_tabs(workspaces[w].tabs@).contains(id),
    ensures
        browsers(workspaces).contains(id),
    decreases workspaces.len(),
{
    let head = browsers(workspaces.drop_last());
    let all = browsers(workspaces);
    if w == workspaces.len() - 1 {
        let own = browsers_in_tabs(workspaces[w].tabs@);
        let k = choose|k: int| 0 <= k < own.len() && own[k] == id;
        assert(all[head.len() + k] == id);
    } else {
        lemma_workspace_listed(workspaces.drop_last(), w, id);
        let k = choose|k: int| 0 <= k < head.len() && head[k] == id;
        assert(all[k] == id);
    }
}

pub proof fn lemma_tabs_without_browsers(tabs: Seq<Tab>)
    requires
        forall|t: int|
            0 <= t < tabs.len() ==> browsers_in((#[trigger] tabs[t]).panes@) == Seq::<
                PaneId,
            >::empty(),
    ensures
        browsers_in_tabs(tabs) == Seq::<PaneId>::empty(),
    decreases tabs.len(),
{
    if tabs.len() > 0 {
        lemma_tabs_without_browsers(tabs.drop_last());
        assert(browsers_in(tabs[tabs.len() - 1].panes@) == Seq::<PaneId>::empty());
        assert(browsers_in_tabs(tabs) =~= Seq::empty());
    }
}

pub proof fn lemma_workspaces_without_browsers(workspaces: Seq<Workspace>)
    requires
        forall|w: int|
            0 <= w < workspaces.len() ==> browsers_in_tabs((#[trigger] workspaces[w]).tabs@)
                == Seq::<PaneId>::empty(),
    ensures
        browsers(workspaces) == Seq::<PaneId>::empty(),
    decreases workspaces.len(),
{
    if workspaces.len() > 0 {
        lemma_workspaces_without_browsers(workspaces.drop_last());
        assert(browsers_in_tabs(workspaces[workspaces.len() - 1].tabs@) == Seq::<PaneId>::empty());
        assert(browsers(workspaces) =~= Seq::empty());
    }
}

/// Once every browser pane was given up, none is left.
pub proof fn law_stopping_leaves_no_browser_pane(before: Seq<Workspace>, after: Seq<Workspace>)
    requires
        demotes(before, after, browsers(before).to_set()),
    ensures
        browsers(after) == Seq::<PaneId>::empty(),
{
    let gone = browsers(before).to_set();
    assert forall|w: int| 0 <= w < after.len() implies browsers_in_tabs(
        (#[trigger] after[w]).tabs@,
    ) == Seq::<PaneId>::empty() by {
        assert(demotes_under(before[w], after[w], gone));
        assert forall|t: int| 0 <= t < after[w].tabs@.len() implies browsers_in(
            (#[trigger] after[w].tabs@[t]).panes@,
        ) == Seq::<PaneId>::empty() by {
            assert(demotes_in(before[w].tabs@[t], after[w].tabs@[t], gone));
            let was = before[w].tabs@[t].panes@;
            let now = after[w].tabs@[t].panes@;
            assert forall|i: int| 0 <= i < now.len() implies (#[trigger] now[i]).state.kind
                == PaneKind::Terminal by {
                assert(now[i] == demoted(was[i], gone));
                if was[i].state.kind == PaneKind::Browser {
                    lemma_browser_listed(was, i);
                    lemma_tab_listed(before[w].tabs@, t, was[i].id);
                    lemma_workspace_listed(before, w, was[i].id);
                }
            }
            lemma_no_browsers_in(now);
        }
        lemma_tabs_without_browsers(after[w].tabs@);
    }
    lemma_workspaces_without_browsers(after);
}

proof fn lemma_one_more_in(panes: Seq<Pane>, pane: Pane)
    requires
        pane.state.kind == PaneKind::Browser,
    ensures
        browsers_in(panes.push(pane)).len() == browsers_in(panes).len() + 1,
{
    reveal(Seq::filter);
    assert(panes.push(pane).drop_last() =~= panes);
}

proof fn lemma_one_more_in_tabs(tabs: Seq<Tab>, t: int, tab: Tab)
    requires
        0 <= t < tabs.len(),
        browsers_in(tab.panes@).len() == browsers_in(tabs[t].panes@).len() + 1,
    ensures
        browsers_in_tabs(tabs.update(t, tab)).len() == browsers_in_tabs(tabs).len() + 1,
    decreases tabs.len(),
{
    let more = tabs.update(t, tab);
    if t == tabs.len() - 1 {
        assert(more.drop_last() =~= tabs.drop_last());
    } else {
        lemma_one_more_in_tabs(tabs.drop_last(), t, tab);
        assert(more.drop_last() =~= tabs.drop_last().update(t, tab));
    }
}

proof fn lemma_one_more(workspaces: Seq<Workspace>, w: int, workspace: Workspace)
    requires
        0 <= w < workspaces.len(),
        browsers_in_tabs(workspace.tabs@).len() == browsers_in_tabs(workspaces[w].tabs@).len() + 1,
    ensures
        browsers(workspaces.update(w, workspace)).len() == browsers(workspaces).len() + 1,
    decreases workspaces.len(),
{
    let more = workspaces.update(w, workspace);
    if w == workspaces.len() - 1 {
        assert(more.drop_last() =~= workspaces.drop_last());
    } else {
        lemma_one_more(workspaces.drop_last(), w, workspace);
        assert(more.drop_last() =~= workspaces.drop_last().update(w, workspace));
    }
}

/// Opening adds exactly one browser pane, and never one too many.
pub proof fn law_browser_panes_stay_capped(
    before: App,
    after: App,
    params: BrowserOpenParams,
    fresh: FreshPane,
    opening: BrowserOpening,
)
    requires
        open_refused(before, params) is None,
        begins_open(before, after, params, fresh, opening),
    ensures
        browsers(after.state.workspaces@).len() == browsers(before.state.workspaces@).len() + 1,
        browsers(after.state.workspaces@).len() <= MAX_BROWSER_PANES,
{
    let at = opening.ws_idx as int;
    let tab = opening.tab_idx as int;
    let was = before.state.workspaces@[at];
    let now = after.state.workspaces@[at];
    let key = crate::app::state::PaneKeyView::Public(open_target(before, params.pane_id)->0);
    crate::search::lemma_first(
        before.state.workspaces@,
        crate::app::state::workspace_has(key),
        0,
    );
    crate::search::lemma_first(was.tabs@, crate::app::state::tab_has(key), 0);
    lemma_one_more_in(was.tabs@[tab].panes@, now.tabs@[tab].panes@.last());
    lemma_one_more_in_tabs(was.tabs@, tab, now.tabs@[tab]);
    lemma_one_more(before.state.workspaces@, at, now);
}

/// A pane whose session died and was started again is on the page it was last
/// on, takes commands, is no longer marked as failed, and nobody else drew into
/// it in between.
pub proof fn law_a_failed_pane_comes_back_where_it_was(
    b: crate::app::browser_panes::BrowserView,
    pane: PaneId,
    reason: String,
)
    requires
        keeps_pages(b),
    ensures
        ({
            let failed = exited(b, pane, reason);
            let cleared = crate::app::browser_panes::BrowserView {
                errors: failed.errors.remove(pane),
                ..failed
            };
            let url = if failed.urls.contains_key(pane) {
                Some(failed.urls[pane])
            } else {
                None
            };
            let back = started(cleared, pane, page_of(url)->Ok_0);
            &&& page_of(url) is Ok
            &&& failed.errors.contains_key(pane)
            &&& !failed.actors.contains_key(pane)
            &&& !failed.layers.contains_key(pane)
            &&& back.urls == b.urls
            &&& back.streams == b.streams
            &&& back.actors.contains_key(pane)
            &&& !back.errors.contains_key(pane)
            &&& !back.viewports.contains_key(pane)
        }),
{
    let failed = exited(b, pane, reason);
    if failed.urls.contains_key(pane) {
        assert(b.urls.insert(pane, b.urls[pane]) =~= b.urls);
    }
}

/// A size that was told is not told again until the pane or its session changes.
pub proof fn law_a_told_size_is_told_once(
    b: crate::app::browser_panes::BrowserView,
    area: PaneArea,
)
    requires
        needs_resize(b)(area),
        pixels(area, b.cell_size).0 <= u32::MAX,
        pixels(area, b.cell_size).1 <= u32::MAX,
    ensures
        ({
            let told = resize_of(b.cell_size)(area);
            let after = crate::app::browser_panes::BrowserView {
                viewports: b.viewports.insert(area.id, (told.width, told.height)),
                ..b
            };
            &&& !needs_resize(after)(area)
            &&& needs_resize(started(after, area.id, None))(area)
        }),
{
}

} // verus!
