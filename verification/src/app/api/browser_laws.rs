//! What holds of opening, driving and closing browser panes.

use vstd::prelude::*;

use crate::api::schema::browser::{BrowserNavigateParams, BrowserOpenParams};
use crate::api::schema::requests::Direction;
use crate::api::schema::responses::ErrorBody;
use crate::app::api::announce::Announcement;
use crate::app::api::browser::{BrowserOpened, BrowserOpening, PaneArea, Resize};
use crate::app::api::peers::forward::Reply;
use crate::app::browser_panes::{BrowserPanes, BrowserView};
use crate::app::layout::FreshPane;
use crate::app::state::{App, AppState, Mode, PaneId, Workspace};
use crate::browser::command::{BrowserCommand, CommandView};
use crate::browser::daemon::Stopping;
use crate::pane::state::PaneKind;

verus! {

/// What is kept of the pane `other` stayed.
pub open spec fn keeps_pane(before: BrowserView, after: BrowserView, other: PaneId) -> bool {
    &&& after.actors.contains_key(other) == before.actors.contains_key(other)
    &&& after.viewports.contains_key(other) == before.viewports.contains_key(other)
    &&& after.viewports[other] == before.viewports[other]
    &&& after.urls.contains_key(other) == before.urls.contains_key(other)
    &&& after.urls[other] == before.urls[other]
    &&& after.errors.contains_key(other) == before.errors.contains_key(other)
    &&& after.errors[other] == before.errors[other]
    &&& after.streams.contains_key(other) == before.streams.contains_key(other)
    &&& after.streams[other] == before.streams[other]
    &&& after.layers.contains_key(other) == before.layers.contains_key(other)
    &&& after.layers[other] == before.layers[other]
}

/// What is shown, and the layout, stayed.
pub open spec fn keeps_layout(before: App, after: App) -> bool {
    &&& after.state.workspaces == before.state.workspaces
    &&& after.state.active == before.state.active
    &&& after.state.selected == before.state.selected
    &&& after.state.mode == before.state.mode
    &&& after.state.peers == before.state.peers
    &&& after.terminal_runtimes == before.terminal_runtimes
}

/// The revision moved on by one, and starts over when it can go no further.
pub open spec fn moved_on(before: u64, after: u64) -> bool {
    &&& before < 0xffff_ffff_ffff_ffff ==> after == before + 1
    &&& before == 0xffff_ffff_ffff_ffff ==> after == 0
}

/// A frame is what a browser pane shows from then on; a pane that is none takes none.
pub proof fn law_a_frame_is_shown(pane: PaneId, data: Vec<u8>, other: PaneId)
    ensures
        forall|app: &mut App, r: bool| #[trigger]
            call_ensures(App::handle_browser_frame, (app, pane, data), r) ==> {
                let before = (*app).state.browser@;
                let after = (*final(app)).state.browser@;
                &&& keeps_layout(*app, *final(app))
                &&& r ==> after.layers.contains_key(pane) && after.layers[pane] == data && moved_on(
                    before.revision,
                    after.revision,
                )
                &&& !r ==> after == before
                &&& after.urls == before.urls && after.errors == before.errors && after.actors
                    == before.actors
                &&& other != pane ==> keeps_pane(before, after, other)
            },
{
}

/// A pane whose browser ended keeps its page and says why; nothing drives it, and
/// nothing is drawn in it.
pub proof fn law_an_ended_browser_says_why(pane: PaneId, reason: String, other: PaneId)
    ensures
        forall|app: &mut App| #[trigger]
            call_ensures(App::handle_browser_daemon_exited, (app, pane, reason), ()) ==> {
                let before = (*app).state.browser@;
                let after = (*final(app)).state.browser@;
                &&& keeps_layout(*app, *final(app))
                &&& after.errors.contains_key(pane) && after.errors[pane] == reason
                &&& !after.actors.contains_key(pane)
                &&& !after.layers.contains_key(pane)
                &&& !after.viewports.contains_key(pane)
                &&& after.urls == before.urls
                &&& after.streams == before.streams
                &&& moved_on(before.revision, after.revision)
                &&& other != pane ==> keeps_pane(before, after, other)
            },
{
}

/// A pane that failed is tried again at its page, and its error is gone; a pane that
/// did not fail is left alone.
pub proof fn law_only_a_failed_pane_is_retried(pane: PaneId, other: PaneId)
    ensures
        forall|app: &mut App, r: Option<Option<String>>| #[trigger]
            call_ensures(App::retry_browser_pane, (app, pane), r) ==> {
                let before = (*app).state.browser@;
                let after = (*final(app)).state.browser@;
                &&& r is Some == before.errors.contains_key(pane)
                &&& r is None ==> *final(app) == *app
                &&& r is Some ==> !after.errors.contains_key(pane)
                &&& r matches Some(url) ==> {
                    &&& url is Some == before.urls.contains_key(pane)
                    &&& url is Some ==> url->0@ == before.urls[pane]
                }
                &&& after.urls == before.urls && after.actors == before.actors && after.streams
                    == before.streams
                &&& keeps_layout(*app, *final(app))
                &&& other != pane ==> keeps_pane(before, after, other)
            },
{
}

/// A pane that could not be started again says why.
pub proof fn law_a_failed_retry_says_why(pane: PaneId, error: &str, other: PaneId)
    ensures
        forall|app: &mut App| #[trigger]
            call_ensures(App::browser_retry_failed, (app, pane, error), ()) ==> {
                let before = (*app).state.browser@;
                let after = (*final(app)).state.browser@;
                &&& keeps_layout(*app, *final(app))
                &&& after.errors.contains_key(pane)
                &&& after.errors[pane]@ == "failed to start browser pane actor: "@ + error@
                &&& after.urls == before.urls && after.actors == before.actors
                &&& other != pane ==> keeps_pane(before, after, other)
            },
{
}

/// A browser that starts is driven, has not been told a size, and goes to the page it
/// was given; a page that it may not go to starts nothing.
pub proof fn law_a_started_browser_goes_to_its_page(
    pane: PaneId,
    url: Option<String>,
    other: PaneId,
)
    ensures
        forall|app: &mut App, r: Result<Option<BrowserCommand>, String>| #[trigger]
            call_ensures(App::spawn_browser_actor, (app, pane, url), r) ==> {
                let before = (*app).state.browser@;
                let after = (*final(app)).state.browser@;
                &&& keeps_layout(*app, *final(app))
                &&& url is None ==> r is Ok && r->Ok_0 is None && after.urls == before.urls
                &&& r is Err ==> *final(app) == *app
                &&& r matches Ok(first) ==> {
                    &&& after.actors.contains_key(pane)
                    &&& !after.viewports.contains_key(pane)
                    &&& first is Some == url is Some
                    &&& first is Some ==> after.urls.contains_key(pane) && first->0@
                        == CommandView::Navigate(after.urls[pane])
                    &&& url is Some ==> crate::browser::url::normalized(url->0@) == Ok::<
                        Seq<char>,
                        Seq<char>,
                    >(after.urls[pane])
                }
                &&& other != pane ==> keeps_pane(before, after, other)
            },
{
}

/// Everything that was kept of the pane is gone.
pub open spec fn nothing_kept(after: BrowserView, pane: PaneId) -> bool {
    &&& !after.actors.contains_key(pane)
    &&& !after.viewports.contains_key(pane)
    &&& !after.urls.contains_key(pane)
    &&& !after.errors.contains_key(pane)
    &&& !after.streams.contains_key(pane)
    &&& !after.layers.contains_key(pane)
    &&& forall|i: int| 0 <= i < after.shutdowns.len() ==> #[trigger] after.shutdowns[i] != pane
    &&& forall|i: int|
        0 <= i < after.input_events.len() ==> (#[trigger] after.input_events[i]).0 != pane
}

/// A browser pane that is retired leaves a terminal pane, and nothing is kept of it;
/// every other pane stays.
pub proof fn law_a_retired_pane_leaves_nothing(
    pane: PaneId,
    other: PaneId,
    w: int,
    t: int,
    p: int,
)
    ensures
        forall|app: &mut App| #[trigger]
            call_ensures(App::retire_browser_pane, (app, pane), ()) ==> {
                &&& nothing_kept((*final(app)).state.browser@, pane)
                &&& moved_on((*app).state.browser@.revision, (*final(app)).state.browser@.revision)
                &&& other != pane ==> keeps_pane(
                    (*app).state.browser@,
                    (*final(app)).state.browser@,
                    other,
                )
                &&& (*final(app)).state.workspaces@.len() == (*app).state.workspaces@.len()
                &&& has_place((*app).state.workspaces@, w, t, p) ==> kind_after(
                    (*app).state.workspaces@,
                    (*final(app)).state.workspaces@,
                    w,
                    t,
                    p,
                    pane,
                )
                &&& (*final(app)).state.active == (*app).state.active
                &&& (*final(app)).state.selected == (*app).state.selected
            },
{
    assert forall|app: &mut App| #[trigger]
        call_ensures(App::retire_browser_pane, (app, pane), ()) implies nothing_kept(
        (*final(app)).state.browser@,
        pane,
    ) && (has_place((*app).state.workspaces@, w, t, p) ==> kind_after(
        (*app).state.workspaces@,
        (*final(app)).state.workspaces@,
        w,
        t,
        p,
        pane,
    )) by {
        let b = (*app).state.browser@;
        let kept = crate::search::lacks(crate::app::api::browser::is_pane(pane));
        let events = crate::search::lacks(
            crate::app::pane_map::of_pane::<BrowserCommand>(pane),
        );
        assert forall|i: int| 0 <= i < b.shutdowns.filter(kept).len() implies (
        #[trigger] b.shutdowns.filter(kept)[i]) != pane by {
            b.shutdowns.lemma_filter_pred(kept, i);
        }
        assert forall|i: int| 0 <= i < b.input_events.filter(events).len() implies (
        #[trigger] b.input_events.filter(events)[i]).0 != pane by {
            b.input_events.lemma_filter_pred(events, i);
        }
        if has_place((*app).state.workspaces@, w, t, p) {
            let was = (*app).state.workspaces@[w];
            let now = (*final(app)).state.workspaces@[w];
            assert(crate::app::api::browser::demotes_under(was, now, set![pane]));
            assert(crate::app::api::browser::demotes_in(was.tabs@[t], now.tabs@[t], set![pane]));
        }
    }
}

/// There is a pane at these places.
pub open spec fn has_place(workspaces: Seq<Workspace>, w: int, t: int, p: int) -> bool {
    &&& 0 <= w < workspaces.len()
    &&& 0 <= t < workspaces[w].tabs@.len()
    &&& 0 <= p < workspaces[w].tabs@[t].panes@.len()
}

/// The pane at these places is the same one, and is no browser when it is this one.
pub open spec fn kind_after(
    before: Seq<Workspace>,
    after: Seq<Workspace>,
    w: int,
    t: int,
    p: int,
    pane: PaneId,
) -> bool {
    let was = before[w].tabs@[t].panes@[p];
    let now = after[w].tabs@[t].panes@[p];
    &&& has_place(after, w, t, p)
    &&& now.id == was.id
    &&& now.public_id == was.public_id
    &&& now.state.attached_terminal_id == was.state.attached_terminal_id
    &&& was.id == pane ==> now.state.kind == PaneKind::Terminal
    &&& was.id != pane ==> now == was
}

/// A browser may be opened only where graphics are on, beside at most three others,
/// and next to a pane that exists.
pub proof fn law_a_browser_opens_only_where_it_may(params: BrowserOpenParams, fresh: FreshPane)
    ensures
        forall|app: &mut App, r: Result<BrowserOpening, ErrorBody>| #[trigger]
            call_ensures(App::handle_browser_open, (app, params, fresh), r) ==> {
                &&& r is Err ==> *final(app) == *app
                &&& !(*app).state.browser.graphics_enabled ==> r is Err && r->Err_0@ == (
                    "feature_disabled"@,
                    "pane graphics are not enabled"@,
                )
                &&& (*app).state.browser.graphics_enabled && crate::app::api::browser::browsers(
                    (*app).state.workspaces@,
                ).len() >= 4 ==> r is Err && r->Err_0@ == (
                    "browser_pane_limit"@,
                    "at most 4 browser panes can be open at once"@,
                )
                &&& r is Ok ==> (*app).state.browser.graphics_enabled
                    && crate::app::api::browser::browsers((*app).state.workspaces@).len() < 4
                &&& r is Err ==> r->Err_0@.0 == "feature_disabled"@ || r->Err_0@.0
                    == "browser_pane_limit"@ || r->Err_0@.0 == "no_active_pane"@ || r->Err_0@.0
                    == "pane_not_found"@ || r->Err_0@.0 == "invalid_request"@
                &&& r is Ok ==> params.pane_id is Some || (*app).state.active is Some
                &&& params.pane_id is None && (*app).state.active is None && (
                *app).state.browser.graphics_enabled && crate::app::api::browser::browsers(
                    (*app).state.workspaces@,
                ).len() < 4 ==> r is Err && r->Err_0@ == ("no_active_pane"@, "no active pane"@)
            },
{
}

/// The browser's pane is the last of its tab: beside the pane it was split from, half
/// as wide, focused, and labelled as a browser.
pub open spec fn browser_lands(
    before: App,
    after: App,
    opening: BrowserOpening,
    params: BrowserOpenParams,
    fresh: FreshPane,
) -> bool {
    let at = opening.ws_idx as int;
    let tab = opening.tab_idx as int;
    let was = before.state.workspaces@[at];
    let now = after.state.workspaces@[at];
    let pane = now.tabs@[tab].panes@.last();
    &&& at < before.state.workspaces@.len()
    &&& tab < was.tabs@.len()
    &&& after.state.workspaces@.len() == before.state.workspaces@.len()
    &&& now.tabs@[tab].panes@.len() == was.tabs@[tab].panes@.len() + 1
    &&& now.tabs@[tab].panes@.drop_last() == was.tabs@[tab].panes@
    &&& opening.pane_id == fresh.id
    &&& opening.split.direction == Direction::Horizontal
    &&& opening.split.ratio == Some(0x3f00_0000u32)
    &&& pane.id == fresh.id
    &&& pane.public_id == fresh.public_id
    &&& pane.state.kind == PaneKind::Browser
    &&& pane.state.attached_terminal_id == fresh.terminal_id
    &&& pane.split == Some(opening.split)
    &&& pane.label is Some && pane.label->0@ == "browser"@
    &&& now.focused_pane == Some(fresh.id)
    &&& opening.url is Some == params.url is Some
    &&& params.url is Some ==> crate::browser::url::normalized(params.url->0@) == Ok::<
        Seq<char>,
        Seq<char>,
    >(opening.url->0@)
    &&& after.state.active == before.state.active
    &&& after.state.mode == before.state.mode
}

/// A browser that may be opened lands as [`browser_lands`] says.
pub proof fn law_a_browser_opens_beside_its_pane(params: BrowserOpenParams, fresh: FreshPane)
    ensures
        forall|app: &mut App, r: Result<BrowserOpening, ErrorBody>| #[trigger]
            call_ensures(App::handle_browser_open, (app, params, fresh), r) && r is Ok
                ==> browser_lands(*app, *final(app), r->Ok_0, params, fresh),
{
    assert forall|app: &mut App, r: Result<BrowserOpening, ErrorBody>| #[trigger]
        call_ensures(App::handle_browser_open, (app, params, fresh), r)
            && r is Ok implies browser_lands(*app, *final(app), r->Ok_0, params, fresh) by {
        let opening = r->Ok_0;
        let was = (*app).state.workspaces@[opening.ws_idx as int];
        let now = (*final(app)).state.workspaces@[opening.ws_idx as int];
        assert(now.tabs@[opening.tab_idx as int].panes@.drop_last()
            =~= was.tabs@[opening.tab_idx as int].panes@);
    }
}

/// A browser that came up is shown: its workspace and its tab, in terminal mode, and
/// the session is to be saved. One that did not come up is undone.
pub open spec fn browser_is_shown(
    before: App,
    after: App,
    r: BrowserOpened,
    opening: BrowserOpening,
) -> bool {
    let b = after.state.browser@;
    &&& r.reply is Pane ==> {
        &&& r.reply == (Reply::Pane {
            ws_idx: opening.ws_idx,
            tab_idx: opening.tab_idx,
            pane_id: opening.pane_id,
            split: opening.split,
        })
        &&& r.events@.len() == 2
        &&& r.events@[0] == (Announcement::PaneCreated {
            ws_idx: opening.ws_idx,
            pane_id: opening.pane_id,
        })
        &&& r.events@[1] == (Announcement::LayoutUpdated {
            ws_idx: opening.ws_idx,
            tab_idx: opening.tab_idx,
        })
        &&& r.undone is None
        &&& r.ended@.len() == 0
        &&& after.state.active == Some(opening.ws_idx)
        &&& after.state.selected == opening.ws_idx
        &&& after.state.mode == Mode::Terminal
        &&& after.state.session_dirty
        &&& after.state.workspaces@[opening.ws_idx as int].active_tab == opening.tab_idx
        &&& b.actors.contains_key(opening.pane_id)
        &&& !b.viewports.contains_key(opening.pane_id)
        &&& b.streams.contains_key(opening.pane_id) && b.streams[opening.pane_id]@
            == "herdr-browser"@
        &&& r.first is Some == opening.url is Some
        &&& r.first is Some ==> r.first->0@ == CommandView::Navigate(b.urls[opening.pane_id])
    }
    &&& r.reply !is Pane ==> {
        &&& r.reply is Error
        &&& r.reply->Error_0@.0 == "browser_pane_open_failed"@
        &&& r.events@.len() == 0
        &&& r.first is None
        &&& r.undone == Some(opening.pane_id)
    }
}

/// What comes of opening a browser is shown as [`browser_is_shown`] says; an actor
/// that did not start is told of.
pub proof fn law_an_opened_browser_is_shown(
    opening: BrowserOpening,
    started: Result<(), String>,
    t: int,
    p: int,
)
    ensures
        forall|app: &mut App, r: BrowserOpened| #[trigger]
            call_ensures(App::finish_browser_open, (app, opening, started), r) ==> {
                &&& browser_is_shown(*app, *final(app), r, opening)
                &&& started matches Err(error) ==> r.reply is Error && r.reply->Error_0@.1
                    == "failed to start browser pane actor: "@ + error@
                &&& started is Ok && opening.url is None && has_place(
                    (*app).state.workspaces@,
                    opening.ws_idx as int,
                    t,
                    p,
                ) && (*app).state.workspaces@[opening.ws_idx as int].tabs@[t].panes@[p].id
                    == opening.pane_id ==> r.reply is Pane
            },
{
    assert forall|app: &mut App, r: BrowserOpened| #[trigger]
        call_ensures(App::finish_browser_open, (app, opening, started), r) && has_place(
            (*app).state.workspaces@,
            opening.ws_idx as int,
            t,
            p,
        ) && (*app).state.workspaces@[opening.ws_idx as int].tabs@[t].panes@[p].id
            == opening.pane_id implies crate::app::api::browser::still_there(*app, opening) by {
        let key = crate::app::state::PaneKeyView::Id(opening.pane_id);
        let tabs = (*app).state.workspaces@[opening.ws_idx as int].tabs@;
        crate::search::lemma_any(tabs[t].panes@, crate::app::state::pane_has(key));
        assert(crate::app::state::pane_has(key)(tabs[t].panes@[p]));
        crate::search::lemma_any(tabs, crate::app::state::tab_has(key));
        assert(crate::app::state::tab_has(key)(tabs[t]));
    }
}

/// A pane is told its size in pixels: its cells times the size of a cell, once it has
/// both, and only where it differs from what it was last told.
pub proof fn law_sizes_are_told_in_pixels(app: App, areas: &Vec<PaneArea>, r: Vec<Resize>)
    requires
        call_ensures(App::sync_browser_viewports, (&app, areas), r),
        forall|i: int|
            0 <= i < areas@.len() ==> crate::app::api::browser::countable(
                app.state.browser@,
                #[trigger] areas@[i],
            ),
    ensures
        forall|k: int| 0 <= k < r@.len() ==> told_size(app, areas@, #[trigger] r@[k]),
        forall|i: int|
            0 <= i < areas@.len() && app.state.browser@.actors.contains_key(areas@[i].id)
                && app.state.browser.cell_size.width_px > 0 && app.state.browser.cell_size.height_px
                > 0 && areas@[i].width > 0 && areas@[i].height > 0
                && !app.state.browser@.viewports.contains_key((#[trigger] areas@[i]).id)
                ==> told_to(r@, areas@[i].id),
{
    let b = app.state.browser@;
    let needs = crate::app::api::browser::needs_resize(b);
    let sized = crate::app::api::browser::resize_of(app.state.browser.cell_size);
    let asked = areas@.filter(needs);
    assert forall|k: int| 0 <= k < r@.len() implies told_size(app, areas@, #[trigger] r@[k]) by {
        areas@.lemma_filter_pred(needs, k);
        areas@.lemma_filter_contains_rev(needs, asked[k]);
        let i = choose|i: int| 0 <= i < areas@.len() && areas@[i] == asked[k];
        assert(r@[k] == sized(asked[k]));
        assert(is_size_of(app, areas@[i], r@[k]));
    }
    assert forall|i: int|
        0 <= i < areas@.len() && b.actors.contains_key(areas@[i].id) && b.cell_size.width_px > 0
            && b.cell_size.height_px > 0 && areas@[i].width > 0 && areas@[i].height > 0
            && !b.viewports.contains_key((#[trigger] areas@[i]).id) implies told_to(
        r@,
        areas@[i].id,
    ) by {
        let area = areas@[i];
        assert(area.width * b.cell_size.width_px > 0 && area.height * b.cell_size.height_px > 0)
            by (nonlinear_arith)
            requires
                area.width > 0,
                area.height > 0,
                b.cell_size.width_px > 0,
                b.cell_size.height_px > 0,
        ;
        assert(needs(area));
        areas@.lemma_filter_contains(needs, i);
        let k = choose|k: int| 0 <= k < asked.len() && asked[k] == area;
        assert(r@[k] == sized(asked[k]));
        assert(r@[k].pane_id == area.id);
    }
}

/// The size is this area's, in pixels, and is not what its pane was last told.
pub open spec fn is_size_of(app: App, area: PaneArea, told: Resize) -> bool {
    &&& told.pane_id == area.id
    &&& told.width == area.width * app.state.browser.cell_size.width_px
    &&& told.height == area.height * app.state.browser.cell_size.height_px
    &&& told.width > 0
    &&& told.height > 0
    &&& app.state.browser@.actors.contains_key(area.id)
    &&& app.state.browser@.viewports.contains_key(area.id) ==> app.state.browser@.viewports[area.id]
        != (told.width, told.height)
}

/// The size is that of one of these areas.
pub open spec fn told_size(app: App, areas: Seq<PaneArea>, told: Resize) -> bool {
    exists|i: int| 0 <= i < areas.len() && is_size_of(app, #[trigger] areas[i], told)
}

/// The pane is told a size.
pub open spec fn told_to(told: Seq<Resize>, pane: PaneId) -> bool {
    exists|k: int| 0 <= k < told.len() && (#[trigger] told[k]).pane_id == pane
}

/// A size that was sent is remembered as it was sent.
pub proof fn law_a_sent_size_is_remembered(resize: Resize, other: PaneId)
    ensures
        forall|app: &mut App| #[trigger]
            call_ensures(App::browser_viewport_sent, (app, resize), ()) ==> {
                let before = (*app).state.browser@;
                let after = (*final(app)).state.browser@;
                &&& keeps_layout(*app, *final(app))
                &&& after.viewports.contains_key(resize.pane_id)
                &&& after.viewports[resize.pane_id] == (resize.width, resize.height)
                &&& after.actors == before.actors && after.urls == before.urls
                &&& other != resize.pane_id ==> keeps_pane(before, after, other)
            },
{
}

/// What was typed and clicked goes to the panes that are driven, in order, and only
/// once.
pub proof fn law_input_goes_to_driven_panes_once()
    ensures
        forall|app: &mut App, r: Vec<(PaneId, BrowserCommand)>| #[trigger]
            call_ensures(App::dispatch_browser_input_events, (app,), r) ==> {
                let before = (*app).state.browser@;
                let after = (*final(app)).state.browser@;
                &&& keeps_layout(*app, *final(app))
                &&& after.input_events.len() == 0
                &&& after.actors == before.actors && after.urls == before.urls
                &&& forall|i: int|
                    0 <= i < r@.len() ==> before.actors.contains_key((#[trigger] r@[i]).0)
                        && before.input_events.contains(r@[i])
                &&& forall|i: int|
                    0 <= i < before.input_events.len() && before.actors.contains_key(
                        (#[trigger] before.input_events[i]).0,
                    ) ==> r@.contains(before.input_events[i])
            },
{
    assert forall|app: &mut App, r: Vec<(PaneId, BrowserCommand)>| #[trigger]
        call_ensures(App::dispatch_browser_input_events, (app,), r) implies {
        let before = (*app).state.browser@;
        &&& forall|i: int|
            0 <= i < r@.len() ==> before.actors.contains_key((#[trigger] r@[i]).0)
                && before.input_events.contains(r@[i])
        &&& forall|i: int|
            0 <= i < before.input_events.len() && before.actors.contains_key(
                (#[trigger] before.input_events[i]).0,
            ) ==> r@.contains(before.input_events[i])
    } by {
        let before = (*app).state.browser@;
        let p = crate::app::api::browser::has_actor(before);
        let events = before.input_events;
        assert forall|i: int| 0 <= i < r@.len() implies before.actors.contains_key(
            (#[trigger] r@[i]).0,
        ) && events.contains(r@[i]) by {
            events.lemma_filter_pred(p, i);
            events.lemma_filter_contains_rev(p, events.filter(p)[i]);
        }
        assert forall|i: int|
            0 <= i < events.len() && before.actors.contains_key(
                (#[trigger] events[i]).0,
            ) implies r@.contains(events[i]) by {
            events.lemma_filter_contains(p, i);
        }
    }
}

/// A browser pane is sent to the page it is asked to go to, and no other pane is.
pub proof fn law_a_driven_pane_is_navigated(
    app: App,
    params: BrowserNavigateParams,
    r: Result<(PaneId, BrowserCommand), ErrorBody>,
)
    requires
        call_ensures(App::handle_browser_navigate, (&app, &params), r),
    ensures
        r matches Ok((pane, command)) ==> {
            &&& app.state.browser@.actors.contains_key(pane)
            &&& command@ matches CommandView::Navigate(page)
            &&& crate::browser::url::normalized(params.url@) == Ok::<Seq<char>, Seq<char>>(page)
        },
        r matches Err(error) ==> error@.0 == "pane_not_found"@ || error@.0 == "not_browser_pane"@
            || error@.0 == "invalid_request"@,
        crate::browser::url::normalized(params.url@) is Err ==> r is Err,
{
}

/// A page that was delivered is kept; one that was not, or may not be gone to, is
/// refused and changes nothing.
pub proof fn law_a_delivered_page_is_kept(
    pane: PaneId,
    url: &str,
    delivered: bool,
    other: PaneId,
)
    ensures
        forall|app: &mut App, r: Result<(), ErrorBody>| #[trigger]
            call_ensures(App::browser_navigated, (app, pane, url, delivered), r) ==> {
                let before = (*app).state.browser@;
                let after = (*final(app)).state.browser@;
                &&& r is Ok == (delivered && crate::browser::url::normalized(url@) is Ok)
                &&& r is Err ==> *final(app) == *app
                &&& crate::browser::url::normalized(url@) is Err ==> r is Err && r->Err_0@.0
                    == "invalid_request"@
                &&& crate::browser::url::normalized(url@) is Ok && !delivered ==> r is Err
                    && r->Err_0@ == (
                    "browser_pane_gone"@,
                    "browser pane actor is no longer running"@,
                )
                &&& r is Ok ==> after.urls.contains_key(pane) && Ok::<Seq<char>, Seq<char>>(
                    after.urls[pane],
                ) == crate::browser::url::normalized(url@)
                &&& keeps_layout(*app, *final(app))
                &&& other != pane ==> keeps_pane(before, after, other)
            },
{
}

/// Stopping every browser stops each by its own session and leaves no browser pane.
pub proof fn law_every_browser_is_stopped(token: &str)
    ensures
        forall|app: &mut App, r: Vec<Stopping>| #[trigger]
            call_ensures(App::stop_all_browser_sessions, (app, token), r) ==> {
                &&& r@.len() == crate::app::api::browser::browsers((*app).state.workspaces@).len()
                &&& crate::app::api::browser::browsers((*final(app)).state.workspaces@).len() == 0
                &&& (*final(app)).state.workspaces@.len() == (*app).state.workspaces@.len()
                &&& (*final(app)).state.active == (*app).state.active
            },
{
    assert forall|app: &mut App, r: Vec<Stopping>| #[trigger]
        call_ensures(
            App::stop_all_browser_sessions,
            (app, token),
            r,
        ) implies crate::app::api::browser::browsers((*final(app)).state.workspaces@).len() == 0 by {
        crate::app::api::browser::law_stopping_leaves_no_browser_pane(
            (*app).state.workspaces@,
            (*final(app)).state.workspaces@,
        );
    }
}

/// A browser that is detached is not driven, and keeps its page, its error and what
/// it showed; one that is forgotten keeps nothing.
pub proof fn law_detaching_keeps_the_page(pane: PaneId, other: PaneId)
    ensures
        forall|panes: &mut BrowserPanes| #[trigger]
            call_ensures(BrowserPanes::detach, (panes, pane), ()) ==> {
                let before = (*panes)@;
                let after = (*final(panes))@;
                &&& !after.actors.contains_key(pane)
                &&& !after.viewports.contains_key(pane)
                &&& after.urls == before.urls && after.errors == before.errors && after.layers
                    == before.layers && after.streams == before.streams
                &&& after.revision == before.revision
                &&& other != pane ==> keeps_pane(before, after, other)
            },
        forall|panes: &mut BrowserPanes| #[trigger]
            call_ensures(BrowserPanes::forget, (panes, pane), ()) ==> {
                let before = (*panes)@;
                let after = (*final(panes))@;
                &&& !after.actors.contains_key(pane) && !after.viewports.contains_key(pane)
                &&& !after.urls.contains_key(pane) && !after.errors.contains_key(pane)
                &&& !after.layers.contains_key(pane) && !after.streams.contains_key(pane)
                &&& moved_on(before.revision, after.revision)
                &&& other != pane ==> keeps_pane(before, after, other)
            },
{
}

/// Every browser pane is listed, and nothing else is.
pub proof fn law_browser_panes_are_listed(
    state: AppState,
    r: Vec<PaneId>,
    w: int,
    t: int,
    p: int,
)
    requires
        call_ensures(AppState::browser_pane_ids, (&state,), r),
    ensures
        has_place(state.workspaces@, w, t, p)
            && state.workspaces@[w].tabs@[t].panes@[p].state.kind == PaneKind::Browser
            ==> r@.contains(state.workspaces@[w].tabs@[t].panes@[p].id),
        (forall|a: int, b: int, c: int|
            has_place(state.workspaces@, a, b, c)
                ==> (#[trigger] state.workspaces@[a].tabs@[b].panes@[c]).state.kind
                == PaneKind::Terminal) ==> r@.len() == 0,
{
    if has_place(state.workspaces@, w, t, p)
        && state.workspaces@[w].tabs@[t].panes@[p].state.kind == PaneKind::Browser {
        let workspace = state.workspaces@[w];
        crate::app::api::browser::lemma_browser_listed(workspace.tabs@[t].panes@, p);
        let id = workspace.tabs@[t].panes@[p].id;
        crate::app::api::browser::lemma_tab_listed(workspace.tabs@, t, id);
        crate::app::api::browser::lemma_workspace_listed(state.workspaces@, w, id);
    }
    if forall|a: int, b: int, c: int|
        has_place(state.workspaces@, a, b, c)
            ==> (#[trigger] state.workspaces@[a].tabs@[b].panes@[c]).state.kind
            == PaneKind::Terminal {
        assert forall|a: int|
            0 <= a < state.workspaces@.len() implies crate::app::api::browser::browsers_in_tabs(
            (#[trigger] state.workspaces@[a]).tabs@,
        ) == Seq::<PaneId>::empty() by {
            let tabs = state.workspaces@[a].tabs@;
            assert forall|b: int|
                0 <= b < tabs.len() implies crate::app::api::browser::browsers_in(
                (#[trigger] tabs[b]).panes@,
            ) == Seq::<PaneId>::empty() by {
                assert forall|c: int| 0 <= c < tabs[b].panes@.len() implies (
                #[trigger] tabs[b].panes@[c]).state.kind == PaneKind::Terminal by {
                    assert(has_place(state.workspaces@, a, b, c));
                }
                crate::app::api::browser::lemma_no_browsers_in(tabs[b].panes@);
            }
            crate::app::api::browser::lemma_tabs_without_browsers(tabs);
        }
        crate::app::api::browser::lemma_workspaces_without_browsers(state.workspaces@);
    }
}

} // verus!
