//! What holds of the dialogs, of what can be clicked, and of what the user asks for at
//! the screen.

use vstd::prelude::*;

use crate::api::schema::peers::PeerWorkspaceOpenParams;
use crate::api::schema::requests::{
    Method, PaneSplitParams, PaneTarget, Request, TabCreateParams, TabRenameParams, TabTarget,
    WorkspaceCreateParams, WorkspaceRenameParams, WorkspaceTarget, WorktreeCreateParams,
    WorktreeOpenParams, WorktreeRemoveParams,
};
use crate::api::schema::responses::ErrorBody;
use crate::app::api::peers::forward::{PeerWork, Reply, Started};
use crate::app::api::peers::open_laws::is_peer;
use crate::app::hidden_peer_picker::{HiddenPeerEntry, HiddenWrite};
use crate::app::hitbox::{
    ControlView, DumpFailure, HitboxDump, HitboxPoint, HitboxRect, HitboxSnapshot, ViewAreas,
    ViewLayout,
};
use crate::app::peer_laws::is_no_peer;
use crate::app::peer_picker::{PeerWorkspaceOpenEntry, PeerWorkspaceOpenState};
use crate::app::peer_setup_dialog::{AddPeerField, AddPeerState, PeerConnect};
use crate::app::peers::PeerConnectionState;
use crate::app::runtime_mutations::{Dispatched, RuntimeMutation};
use crate::app::session::{SessionSaveJob, SessionSaver};
use crate::app::state::{App, AppState, Mode, PeerHistoryEntry};
use crate::browser::keys::{KeyCode, KeyEvent};
use crate::json::json;

verus! {

/// What a dialog leaves behind: a terminal where a workspace is shown, else the list.
pub open spec fn behind(active: Option<usize>) -> Mode {
    if active is Some {
        Mode::Terminal
    } else {
        Mode::Navigate
    }
}

/// Nothing that is shown behind a dialog changed.
pub open spec fn keeps_behind(before: App, after: App) -> bool {
    &&& after.state.workspaces == before.state.workspaces
    &&& after.state.active == before.state.active
    &&& after.state.selected == before.state.selected
    &&& after.state.peers == before.state.peers
    &&& after.terminal_runtimes == before.terminal_runtimes
    &&& after.peer_view_opens_in_flight == before.peer_view_opens_in_flight
}

/// Why a peer's workspaces cannot be opened: a connected peer's can, and each other
/// state says what it is.
pub proof fn law_only_a_connected_peer_is_available(
    connection: PeerConnectionState,
    r: Option<String>,
)
    requires
        call_ensures(crate::app::peer_picker::peer_unavailable_reason, (&connection,), r),
    ensures
        r is None == connection is Connected,
        connection is Connecting ==> r->0@ == "peer is still connecting"@,
        connection matches PeerConnectionState::Reconnecting { attempt, .. } ==> r->0@
            == "peer is reconnecting (attempt "@ + crate::text::decimal(attempt as nat) + ")"@,
        connection matches PeerConnectionState::Error { message } ==> r->0@
            == "peer is unreachable: "@ + message@,
{
}

/// The label holds the query, whatever the case of either.
pub open spec fn finds(entry: PeerWorkspaceOpenEntry, query: Seq<char>) -> bool {
    crate::text::contains_text(crate::text::lowered(entry.label@), crate::text::lowered(query))
}

/// An entry is found by any part of its label.
pub proof fn law_entries_are_found_by_their_label(
    entry: PeerWorkspaceOpenEntry,
    query: &str,
    r: bool,
)
    requires
        call_ensures(PeerWorkspaceOpenEntry::matches_query, (&entry, query), r),
    ensures
        r == finds(entry, query@),
        query@.len() == 0 ==> r,
        query@ == entry.label@ ==> r,
{
    let low = crate::text::lowered(entry.label@);
    if query@.len() == 0 {
        assert(low.subrange(0, 0) =~= crate::text::lowered(query@));
        assert(crate::text::stands_at(low, crate::text::lowered(query@), 0));
    }
    if query@ == entry.label@ {
        assert(low.subrange(0, low.len() as int) =~= low);
        assert(crate::text::stands_at(low, low, 0));
    }
}

/// The selection went down: to the next entry that is found, where there is one.
pub open spec fn went_down(before: PeerWorkspaceOpenState, after: PeerWorkspaceOpenState) -> bool {
    let entries = before.entries@;
    ||| {
        &&& before.selected < after.selected < entries.len()
        &&& finds(entries[after.selected as int], before.query@)
        &&& forall|i: int|
            before.selected < i < after.selected ==> !finds(#[trigger] entries[i], before.query@)
    }
    ||| {
        &&& after.selected == before.selected
        &&& forall|i: int|
            before.selected < i < entries.len() ==> !finds(#[trigger] entries[i], before.query@)
    }
}

/// The selection went up: to the entry before that is found, where there is one.
pub open spec fn went_up(before: PeerWorkspaceOpenState, after: PeerWorkspaceOpenState) -> bool {
    let entries = before.entries@;
    ||| {
        &&& after.selected < before.selected
        &&& after.selected < entries.len()
        &&& finds(entries[after.selected as int], before.query@)
        &&& forall|i: int|
            after.selected < i < before.selected && i < entries.len() ==> !finds(
                #[trigger] entries[i],
                before.query@,
            )
    }
    ||| {
        &&& after.selected == before.selected
        &&& forall|i: int|
            0 <= i < before.selected && i < entries.len() ==> !finds(
                #[trigger] entries[i],
                before.query@,
            )
    }
}

/// All but the selection stayed.
pub open spec fn same_search(before: PeerWorkspaceOpenState, after: PeerWorkspaceOpenState) -> bool {
    &&& after.peer@ == before.peer@
    &&& after.entries@ == before.entries@
    &&& after.query@ == before.query@
    &&& after.search_focused == before.search_focused
}

proof fn lemma_up(entries: Seq<PeerWorkspaceOpenEntry>, query: Seq<char>, to: int)
    requires
        0 <= to,
    ensures
        ({
            let at = crate::app::peer_picker::last_found(entries, query, to);
            &&& at >= 0 ==> at < to && at < entries.len() && finds(entries[at], query)
            &&& forall|i: int|
                (if at >= 0 {
                    at
                } else {
                    -1
                }) < i < to && 0 <= i < entries.len() ==> !finds(#[trigger] entries[i], query)
        }),
    decreases to,
{
    if to > 0 {
        lemma_up(entries, query, to - 1);
    }
}

/// Moving through the picker goes over what is found, one at a time.
pub proof fn law_moving_goes_over_what_is_found()
    ensures
        forall|open: &mut PeerWorkspaceOpenState| #[trigger]
            call_ensures(PeerWorkspaceOpenState::select_next_filtered, (open,), ()) ==> went_down(
                *open,
                *final(open),
            ) && same_search(*open, *final(open)),
        forall|open: &mut PeerWorkspaceOpenState| #[trigger]
            call_ensures(PeerWorkspaceOpenState::select_previous_filtered, (open,), ()) ==> went_up(
                *open,
                *final(open),
            ) && same_search(*open, *final(open)),
{
    assert forall|open: &mut PeerWorkspaceOpenState| #[trigger]
        call_ensures(PeerWorkspaceOpenState::select_next_filtered, (open,), ()) implies went_down(
        *open,
        *final(open),
    ) && same_search(*open, *final(open)) by {
        lemma_down(*open, *final(open));
    }
    assert forall|open: &mut PeerWorkspaceOpenState| #[trigger]
        call_ensures(PeerWorkspaceOpenState::select_previous_filtered, (open,), ()) implies went_up(
        *open,
        *final(open),
    ) && same_search(*open, *final(open)) by {
        lemma_up((*open).entries@, (*open).query@, (*open).selected as int);
    }
}

proof fn lemma_down(before: PeerWorkspaceOpenState, after: PeerWorkspaceOpenState)
    requires
        after@ == before@.next(),
    ensures
        went_down(before, after),
        same_search(before, after),
{
    let p = crate::app::peer_picker::is_found(before.query@);
    let from = before.selected + 1;
    assert(before.entries.len() == before.entries@.len());
    if from <= before.entries@.len() {
        crate::search::lemma_first(before.entries@, p, from);
        assert forall|i: int|
            from <= i < crate::search::first(before.entries@, p, from) implies !finds(
            #[trigger] before.entries@[i],
            before.query@,
        ) by {
            assert(!p(before.entries@[i]));
        }
    }
}

/// The picker's keys: escape leaves it, the arrows move, a slash begins a search, and
/// what is typed is searched for.
pub open spec fn picker_key_lands(before: App, after: App, key: KeyEvent) -> bool {
    &&& keeps_behind(before, after) || key.code is Enter
    &&& key.code is Esc ==> after.state.peer_workspace_open is None && after.state.mode == behind(
        before.state.active,
    )
    &&& before.state.peer_workspace_open matches Some(was) ==> {
        &&& !(key.code is Esc) && !(key.code is Enter) ==> {
            &&& after.state.mode == before.state.mode
            &&& after.state.peer_workspace_open is Some
            &&& after.state.peer_workspace_open->0.peer@ == was.peer@
            &&& after.state.peer_workspace_open->0.entries@ == was.entries@
        }
        &&& key.code is Up ==> went_up(was, after.state.peer_workspace_open->0) && same_search(
            was,
            after.state.peer_workspace_open->0,
        )
        &&& key.code is Down ==> went_down(was, after.state.peer_workspace_open->0) && same_search(
            was,
            after.state.peer_workspace_open->0,
        )
        &&& key.code == KeyCode::Char('/') && !was.search_focused ==> {
            &&& after.state.peer_workspace_open->0.search_focused
            &&& after.state.peer_workspace_open->0.query@ == was.query@
            &&& after.state.peer_workspace_open->0.selected == was.selected
        }
        &&& key.code == KeyCode::Char('/') && was.search_focused
            ==> after.state.peer_workspace_open->0.query@ == was.query@ + seq!['/']
        &&& key.code matches KeyCode::Char(c) ==> (c != '/' ==> {
            &&& was.search_focused && key.modifiers.plain() && !crate::text::is_control(c)
                ==> after.state.peer_workspace_open->0.query@ == was.query@ + seq![c]
            &&& !was.search_focused ==> after.state.peer_workspace_open->0@ == was@
        })
        &&& key.code is Backspace && was.search_focused && was.query@.len() > 0
            ==> after.state.peer_workspace_open->0.query@ == was.query@.drop_last()
        &&& key.code is Backspace && !was.search_focused ==> after.state.peer_workspace_open->0@
            == was@
        &&& key.code is Tab ==> after.state.peer_workspace_open->0@ == was@
    }
}

/// The picker takes its keys as [`picker_key_lands`] says.
pub proof fn law_the_picker_takes_its_keys(key: KeyEvent)
    ensures
        forall|app: &mut App, r: Option<Started>| #[trigger]
            call_ensures(App::handle_peer_workspace_open_key, (app, key), r) ==> picker_key_lands(
                *app,
                *final(app),
                key,
            ) && (!(key.code is Enter) ==> r is None),
{
    assert forall|app: &mut App, r: Option<Started>| #[trigger]
        call_ensures(App::handle_peer_workspace_open_key, (app, key), r) implies picker_key_lands(
        *app,
        *final(app),
        key,
    ) && (!(key.code is Enter) ==> r is None) by {
        if (*app).state.peer_workspace_open is Some {
            let was = (*app).state.peer_workspace_open->0;
            if key.code is Down {
                lemma_down(was, (*final(app)).state.peer_workspace_open->0);
            }
            if key.code is Up {
                lemma_up(was.entries@, was.query@, was.selected as int);
            }
        }
    }
}

/// What is pasted into the picker is searched for, where a search was begun.
pub proof fn law_pasted_text_is_searched_for(text: &str)
    ensures
        forall|app: &mut App| #[trigger]
            call_ensures(App::insert_peer_workspace_open_search_text, (app, text), ()) ==> {
                &&& keeps_behind(*app, *final(app))
                &&& (*app).state.peer_workspace_open matches Some(was) ==> {
                    &&& (*final(app)).state.peer_workspace_open is Some
                    &&& was.search_focused ==> (*final(app)).state.peer_workspace_open->0.query@
                        == was.query@ + text@
                    &&& !was.search_focused ==> (*final(app)).state.peer_workspace_open->0@ == was@
                }
                &&& (*app).state.peer_workspace_open is None ==> (*final(app)).state.peer_workspace_open is None
            },
{
}

/// A pick opens what was picked on its peer and shows it; a peer that is gone or not
/// connected is refused in the picker.
pub proof fn law_a_pick_is_opened_and_shown(q: int)
    ensures
        forall|app: &mut App, r: Option<Started>| #[trigger]
            call_ensures(App::submit_peer_workspace_open_via_api, (app,), r) ==> pick_lands(
                *app,
                *final(app),
                r,
                q,
            ),
{
    assert forall|app: &mut App, r: Option<Started>| #[trigger]
        call_ensures(App::submit_peer_workspace_open_via_api, (app,), r) implies pick_lands(
        *app,
        *final(app),
        r,
        q,
    ) by {
        if (*app).state.peer_workspace_open is Some {
            let peers = (*app).state.peers@;
            let peer = (*app).state.peer_workspace_open->0.peer@;
            let p = crate::app::peers::has_handle(peer);
            if is_peer(peers, q, peer) {
                crate::search::lemma_first_is(peers, p, 0, q);
            }
            if is_no_peer(peers, peer) {
                crate::search::lemma_first_is(peers, p, 0, peers.len() as int);
            }
        }
    }
}

/// What a pick comes to.
pub open spec fn pick_lands(before: App, after: App, r: Option<Started>, q: int) -> bool {
    &&& before.state.peer_workspace_open is None ==> r is None && after == before
    &&& before.state.peer_workspace_open matches Some(open) ==> {
        let picked = open.selected < open.entries@.len() && finds(
            open.entries@[open.selected as int],
            open.query@,
        );
        let entry = open.entries@[open.selected as int];
        &&& !picked ==> r is None && after == before
        &&& picked && entry.already_open_ws_idx is Some ==> r is Some
        &&& picked && entry.already_open_ws_idx is None && is_no_peer(
            before.state.peers@,
            open.peer@,
        ) ==> {
            &&& r is None
            &&& keeps_behind(before, after)
            &&& after.state.peer_workspace_open is Some
            &&& after.state.peer_workspace_open->0.error is Some
            &&& after.state.peer_workspace_open->0.error->0@ == "peer '"@ + open.peer@
                + "' is no longer configured"@
        }
        &&& picked && entry.already_open_ws_idx is None && is_peer(
            before.state.peers@,
            q,
            open.peer@,
        ) ==> {
            &&& r is Some == before.state.peers@[q].connection is Connected
            &&& r is None ==> after.state.peer_workspace_open is Some
                && after.state.peer_workspace_open->0.error is Some && keeps_behind(before, after)
        }
        &&& r matches Some(Started::Deferred(work)) ==> {
            &&& work matches PeerWork::OpenView { requested_target, takeover, placement, .. }
            &&& requested_target@ == entry.target@
            &&& !takeover
            &&& placement is Workspace
            &&& placement->focus
            &&& !placement->created
            &&& placement->label is None
        }
        &&& r matches Some(Started::Answered(Reply::Workspace { ws_idx })) ==> after.state.active
            == Some(ws_idx) && after.state.selected == ws_idx
    }
}

/// The picker opens on what the peer enumerated, at its first entry, searching
/// nothing; a peer that enumerated nothing opens none.
pub proof fn law_the_picker_opens_on_what_was_enumerated(peer: &str, q: int)
    ensures
        forall|app: &mut App| #[trigger]
            call_ensures(App::open_peer_workspace_picker, (app, peer), ()) ==> {
                &&& keeps_behind(*app, *final(app))
                &&& is_no_peer((*app).state.peers@, peer@) ==> *final(app) == *app
                &&& is_peer((*app).state.peers@, q, peer@) && (
                *app).state.peers@[q].workspaces.len() == 0 ==> {
                    &&& (*final(app)).state.toast is Some
                    &&& (*final(app)).state.mode == (*app).state.mode
                    &&& (*final(app)).state.peer_workspace_open == (*app).state.peer_workspace_open
                }
                &&& is_peer((*app).state.peers@, q, peer@) && (
                *app).state.peers@[q].workspaces.len() > 0 ==> enumerates(
                    (*app).state.peers@[q],
                    *final(app),
                    peer@,
                )
            },
{
    assert forall|app: &mut App| #[trigger]
        call_ensures(App::open_peer_workspace_picker, (app, peer), ()) implies {
        &&& keeps_behind(*app, *final(app))
        &&& is_no_peer((*app).state.peers@, peer@) ==> *final(app) == *app
        &&& is_peer((*app).state.peers@, q, peer@) && (*app).state.peers@[q].workspaces.len()
            == 0 ==> {
            &&& (*final(app)).state.toast is Some
            &&& (*final(app)).state.mode == (*app).state.mode
            &&& (*final(app)).state.peer_workspace_open == (*app).state.peer_workspace_open
        }
        &&& is_peer((*app).state.peers@, q, peer@) && (*app).state.peers@[q].workspaces.len() > 0
            ==> enumerates((*app).state.peers@[q], *final(app), peer@)
    } by {
        let peers = (*app).state.peers@;
        let p = crate::app::peers::has_handle(peer@);
        if is_peer(peers, q, peer@) {
            crate::search::lemma_first_is(peers, p, 0, q);
        }
        if is_no_peer(peers, peer@) {
            crate::search::lemma_first_is(peers, p, 0, peers.len() as int);
        }
        if is_peer(peers, q, peer@) && peers[q].workspaces.len() > 0 {
            let entries = (*final(app)).state.peer_workspace_open->0.entries@;
            assert forall|i: int| 0 <= i < entries.len() implies (#[trigger] entries[i]).target@
                == peers[q].workspaces[i].workspace_id && entries[i].label@
                == peers[q].workspaces[i].label && entries[i].number
                == peers[q].workspaces[i].number && entries[i].pane_count
                == peers[q].workspaces[i].pane_count && entries[i].tab_count
                == peers[q].workspaces[i].tab_count by {
                assert(crate::app::peer_picker::is_entry(
                    *app,
                    peer@,
                    entries[i],
                    peers[q].workspaces[i],
                ));
            }
        }
    }
}

/// The picker lists the workspaces of this peer.
pub open spec fn enumerates(
    peer: crate::app::peers::PeerView,
    after: App,
    name: Seq<char>,
) -> bool {
    &&& after.state.mode == Mode::OpenPeerWorkspace
    &&& after.state.peer_workspace_open matches Some(open)
    &&& open.peer@ == name
    &&& open.selected == 0
    &&& open.query@.len() == 0
    &&& !open.search_focused
    &&& open.error is None
    &&& open.entries@.len() == peer.workspaces.len()
    &&& forall|i: int|
        0 <= i < open.entries@.len() ==> (#[trigger] open.entries@[i]).target@
            == peer.workspaces[i].workspace_id && open.entries@[i].label@
            == peer.workspaces[i].label && open.entries@[i].number == peer.workspaces[i].number
            && open.entries@[i].pane_count == peer.workspaces[i].pane_count
            && open.entries@[i].tab_count == peer.workspaces[i].tab_count
}

/// Closing a dialog leaves what was behind it.
pub proof fn law_closing_a_dialog_leaves_what_was_behind()
    ensures
        forall|app: &mut App| #[trigger]
            call_ensures(App::close_peer_workspace_picker, (app,), ()) ==> {
                &&& keeps_behind(*app, *final(app))
                &&& (*final(app)).state.peer_workspace_open is None
                &&& (*final(app)).state.mode == behind((*app).state.active)
            },
        forall|app: &mut App| #[trigger]
            call_ensures(App::close_add_peer_dialog, (app,), ()) ==> {
                &&& keeps_behind(*app, *final(app))
                &&& (*final(app)).state.add_peer is None
                &&& (*final(app)).state.mode == behind((*app).state.active)
            },
        forall|app: &mut App| #[trigger]
            call_ensures(App::close_hidden_peers_picker, (app,), ()) ==> {
                &&& keeps_behind(*app, *final(app))
                &&& (*final(app)).state.hidden_peers_picker is None
                &&& (*final(app)).state.mode == behind((*app).state.active)
            },
{
}

/// The dialog to add a peer opens empty, at the destination.
pub proof fn law_the_dialog_opens_empty()
    ensures
        forall|app: &mut App| #[trigger]
            call_ensures(App::open_add_peer_dialog, (app,), ()) ==> {
                &&& keeps_behind(*app, *final(app))
                &&& (*final(app)).state.mode == Mode::AddPeer
                &&& (*final(app)).state.add_peer matches Some(add)
                &&& add.destination@.len() == 0
                &&& add.name@.len() == 0
                &&& add.field == AddPeerField::Destination
                &&& add.recent_selected == 0
                &&& add.error is None
            },
{
}

/// How many destinations can be taken from the history.
pub open spec fn taken_from(history: Seq<PeerHistoryEntry>) -> nat {
    history.filter(|e: PeerHistoryEntry| crate::text::has_prefix(e.target@, "ssh://"@)).len()
}

/// The field that comes after this one: the destination, the name, and the history
/// where there is any.
pub open spec fn field_after(field: AddPeerField, has_recent: bool) -> AddPeerField {
    match (field, has_recent) {
        (AddPeerField::Destination, _) => AddPeerField::Name,
        (AddPeerField::Name, true) => AddPeerField::Recent,
        (AddPeerField::Name, false) => AddPeerField::Destination,
        (AddPeerField::Recent, _) => AddPeerField::Destination,
    }
}

/// The dialog's keys: tab goes on to the next field, the arrows too unless they move
/// through the history, and what is typed goes to the field that is focused.
pub open spec fn dialog_key_lands(was: AddPeerState, now: AddPeerState, key: KeyEvent, recent: nat) -> bool {
    let in_list = was.field == AddPeerField::Recent && recent > 0;
    &&& key.code is Tab ==> {
        &&& now.field == field_after(was.field, recent > 0)
        &&& now.destination@ == was.destination@ && now.name@ == was.name@
    }
    &&& (key.code is Up || key.code is Down) && !in_list ==> now.field == field_after(
        was.field,
        recent > 0,
    ) && now.recent_selected == was.recent_selected
    &&& key.code is Up && in_list ==> {
        &&& now.field == was.field
        &&& was.recent_selected > 0 ==> now.recent_selected == was.recent_selected - 1
        &&& was.recent_selected == 0 ==> now.recent_selected == 0
    }
    &&& key.code is Down && in_list ==> {
        &&& now.field == was.field
        &&& was.recent_selected + 1 < recent ==> now.recent_selected == was.recent_selected + 1
        &&& was.recent_selected + 1 >= recent ==> now.recent_selected == recent - 1
    }
    &&& key.code matches KeyCode::Char(c) ==> (key.modifiers.plain() && !crate::text::is_control(c)
        ==> {
        &&& was.field == AddPeerField::Name ==> now.name@ == was.name@ + seq![c] && now.destination@
            == was.destination@ && now.field == AddPeerField::Name
        &&& was.field != AddPeerField::Name ==> now.destination@ == was.destination@ + seq![c]
            && now.name@ == was.name@ && now.field == AddPeerField::Destination
    })
    &&& key.code is Backspace ==> {
        &&& was.field == AddPeerField::Name && was.name@.len() > 0 ==> now.name@
            == was.name@.drop_last() && now.destination@ == was.destination@
        &&& was.field != AddPeerField::Name && was.destination@.len() > 0 ==> now.destination@
            == was.destination@.drop_last() && now.name@ == was.name@
    }
}

/// The dialog takes its keys as [`dialog_key_lands`] says; escape leaves it.
pub proof fn law_the_dialog_takes_its_keys(key: KeyEvent, program: &str)
    ensures
        forall|app: &mut App, r: Option<PeerConnect>| #[trigger]
            call_ensures(App::handle_add_peer_key, (app, key, program), r) ==> {
                &&& keeps_behind(*app, *final(app))
                &&& key.code is Esc ==> (*final(app)).state.add_peer is None && (*final(app)).state.mode == behind((*app).state.active)
                &&& !(key.code is Enter) ==> r is None
                &&& !(key.code is Enter) && !(key.code is Esc) ==> ((
                *app).state.add_peer matches Some(was) ==> (*final(app)).state.add_peer is Some
                    && dialog_key_lands(
                    was,
                    (*final(app)).state.add_peer->0,
                    key,
                    taken_from((*app).state.peer_history@),
                ))
            },
{
    assert forall|app: &mut App, r: Option<PeerConnect>| #[trigger]
        call_ensures(App::handle_add_peer_key, (app, key, program), r) && !(key.code is Enter)
            && !(key.code is Esc) && (*app).state.add_peer is Some implies (*final(app)).state.add_peer is Some && dialog_key_lands(
        (*app).state.add_peer->0,
        (*final(app)).state.add_peer->0,
        key,
        taken_from((*app).state.peer_history@),
    ) by {
        let history = (*app).state.peer_history@;
        let ssh = |e: PeerHistoryEntry| crate::text::has_prefix(e.target@, "ssh://"@);
        assert(ssh =~= crate::app::peer_setup_dialog::is_ssh());
        assert(crate::app::peer_setup_dialog::recent(history).len() == taken_from(history));
        assert((*app).state.peer_history.len() == history.len());
        history.lemma_filter_len(ssh);
        let now = (*final(app)).state.add_peer->0;
        assert(now@ == (*app).state.add_peer->0@.after_key(key, history));
    }
}

/// A destination that was entered is connected to by name; without one the dialog
/// asks for it.
pub proof fn law_the_dialog_connects_to_its_destination(program: &str)
    ensures
        forall|app: &mut App, r: Option<PeerConnect>| #[trigger]
            call_ensures(App::submit_add_peer, (app, program), r) ==> {
                &&& keeps_behind(*app, *final(app))
                &&& (*app).state.add_peer is None ==> r is None && *final(app) == *app
                &&& (*app).state.add_peer matches Some(add) ==> {
                    let destination = crate::text::trimmed(add.destination@);
                    &&& r is Some == (destination.len() > 0)
                    &&& r is None ==> (*final(app)).state.add_peer is Some && (*final(app)).state.add_peer->0.error is Some && (*final(app)).state.add_peer->0.error->0@ == "enter an ssh destination"@
                    &&& r matches Some(connect) ==> {
                        &&& *final(app) == *app
                        &&& connect.workspace_name@ == "connect "@ + destination
                        &&& crate::text::trimmed(add.name@).len() == 0 ==> connect.command@
                            == crate::app::peer_setup_dialog::quoted(program@) + " peer connect "@
                            + crate::app::peer_setup_dialog::quoted(destination) + " && exit"@
                        &&& crate::text::trimmed(add.name@).len() > 0 ==> connect.command@
                            == crate::app::peer_setup_dialog::quoted(program@) + " peer connect "@
                            + crate::app::peer_setup_dialog::quoted(destination) + " --name "@
                            + crate::app::peer_setup_dialog::quoted(
                            crate::text::trimmed(add.name@),
                        ) + " && exit"@
                    }
                }
            },
{
}

/// A pane that opened for the dialog closes it; one that did not is told of.
pub proof fn law_the_dialog_closes_once_its_pane_opened(opened: Result<(), String>)
    ensures
        forall|app: &mut App| #[trigger]
            call_ensures(App::add_peer_opened, (app, opened), ()) ==> {
                &&& keeps_behind(*app, *final(app))
                &&& opened is Ok ==> (*final(app)).state.add_peer is None && (*final(app)).state.mode == behind((*app).state.active)
                &&& opened matches Err(error) ==> ((*app).state.add_peer is Some ==> (*final(app)).state.add_peer is Some && (*final(app)).state.add_peer->0.error is Some && (*final(app)).state.add_peer->0.error->0@ == "could not open a pane: "@ + error@)
            },
{
}

/// A destination is read from a history line without its route and without its
/// session.
pub proof fn law_a_destination_is_read_from_history(
    target: &str,
    r: &str,
    destination: Seq<char>,
    session: Seq<char>,
)
    requires
        call_ensures(crate::app::peer_setup_dialog::peer_history_destination, (target,), r),
        forall|i: int| 0 <= i < destination.len() ==> #[trigger] destination[i] != '#',
    ensures
        target@ == "ssh://"@ + destination ==> r@ == destination,
        target@ == "ssh://"@ + destination + seq!['#'] + session ==> r@ == destination,
{
    let prefix = "ssh://"@;
    let n = prefix.len() as int;
    if target@ == prefix + destination {
        assert(target@.take(n) =~= prefix);
        assert(target@.skip(n) =~= destination);
        crate::text::lemma_find_is(destination, '#', 0, destination.len() as int);
        assert(destination.take(destination.len() as int) =~= destination);
    }
    if target@ == prefix + destination + seq!['#'] + session {
        assert(target@.take(n) =~= prefix);
        let rest = target@.skip(n);
        assert(rest =~= destination + seq!['#'] + session);
        crate::text::lemma_find_is(rest, '#', 0, destination.len() as int);
        assert(rest.take(destination.len() as int) =~= destination);
    }
}

/// A text of harmless characters is handed to the shell as it is, and any other in
/// quotes.
pub proof fn law_a_text_is_quoted_where_it_must_be(value: &str, r: String)
    requires
        call_ensures(crate::app::peer_setup_dialog::shell_quote, (value,), r),
    ensures
        value@.len() == 0 ==> r@ == seq!['\'', '\''],
        (exists|i: int|
            0 <= i < value@.len() && (value@[i] == ' ' || value@[i] == '$' || value@[i] == '"'
                || value@[i] == ';' || value@[i] == '&' || value@[i] == '|' || value@[i] == '`'
                || #[trigger] value@[i] == '\'' || value@[i] == '\\')) ==> r@.len() > 1 && r@[0]
            == '\'' && r@.last() == '\'',
        value@.len() > 0 && (forall|i: int|
            0 <= i < value@.len() ==> 'a' <= (#[trigger] value@[i]) <= 'z' || '0' <= value@[i]
                <= '9' || 'A' <= value@[i] <= 'Z' || value@[i] == '.' || value@[i] == '-'
                || value@[i] == '@' || value@[i] == '/' || value@[i] == '_') ==> r@ == value@,
        crate::app::peer_setup_dialog::shell_word(r@, false) == Some(value@),
{
    crate::app::peer_setup_dialog::law_a_quoted_text_is_one_word(value@);
    if value@.len() == 0 {
        assert(r@ =~= seq!['\'', '\'']);
    }
    if exists|i: int|
        0 <= i < value@.len() && (value@[i] == ' ' || value@[i] == '$' || value@[i] == '"'
            || value@[i] == ';' || value@[i] == '&' || value@[i] == '|' || value@[i] == '`'
            || #[trigger] value@[i] == '\'' || value@[i] == '\\') {
        let i = choose|i: int|
            0 <= i < value@.len() && (value@[i] == ' ' || value@[i] == '$' || value@[i] == '"'
                || value@[i] == ';' || value@[i] == '&' || value@[i] == '|' || value@[i] == '`'
                || #[trigger] value@[i] == '\'' || value@[i] == '\\');
        assert(!crate::app::peer_setup_dialog::is_safe(value@[i]));
    }
}

/// This peer is on the list.
pub open spec fn listed(list: Seq<String>, peer: Seq<char>) -> bool {
    exists|i: int| 0 <= i < list.len() && (#[trigger] list[i])@ == peer
}

/// A hidden peer is listed once, and as hidden for good where the configuration hides
/// it; a peer that is not hidden is not listed.
pub proof fn law_hidden_peers_are_listed(state: AppState, r: Vec<HiddenPeerEntry>, i: int, j: int)
    requires
        call_ensures(AppState::hidden_peer_entries, (&state,), r),
    ensures
        0 <= i < r@.len() ==> listed(state.hidden_peers@, r@[i].peer@) || listed(
            state.hidden_peers_config@,
            r@[i].peer@,
        ),
        0 <= i < r@.len() ==> r@[i].permanent == listed(state.hidden_peers_config@, r@[i].peer@),
        0 <= i < state.hidden_peers@.len() ==> exists|k: int|
            0 <= k < r@.len() && (#[trigger] r@[k]).peer@ == state.hidden_peers@[i]@,
        0 <= i < state.hidden_peers_config@.len() ==> exists|k: int|
            0 <= k < r@.len() && (#[trigger] r@[k]).peer@ == state.hidden_peers_config@[i]@,
{
    assert(forall|p: Seq<char>| #[trigger]
        listed(state.hidden_peers@, p) == crate::app::hidden_peer_picker::hides(
            state.hidden_peers@,
            p,
        ));
    assert(forall|p: Seq<char>| #[trigger]
        listed(state.hidden_peers_config@, p) == crate::app::hidden_peer_picker::hides(
            state.hidden_peers_config@,
            p,
        ));
    if 0 <= i < state.hidden_peers@.len() {
        let p = state.hidden_peers@[i]@;
        assert(listed(state.hidden_peers@, p));
        assert(crate::app::hidden_peer_picker::holds(r@, p));
    }
    if 0 <= i < state.hidden_peers_config@.len() {
        let p = state.hidden_peers_config@[i]@;
        assert(listed(state.hidden_peers_config@, p));
        assert(crate::app::hidden_peer_picker::holds(r@, p));
    }
}

/// The list of hidden peers opens at its first entry; where nothing is hidden it says
/// so instead.
pub proof fn law_the_hidden_list_opens_at_its_first()
    ensures
        forall|app: &mut App| #[trigger]
            call_ensures(App::open_hidden_peers_picker, (app,), ()) ==> {
                let nothing = (*app).state.hidden_peers@.len() == 0 && (
                *app).state.hidden_peers_config@.len() == 0;
                &&& keeps_behind(*app, *final(app))
                &&& nothing ==> (*final(app)).state.toast is Some && (*final(app)).state.mode == (
                *app).state.mode && (*final(app)).state.toast->0.title@ == "no hidden peers"@ && (*final(app)).state.toast->0.context@ == "nothing to unhide"@
                &&& !nothing ==> (*final(app)).state.mode == Mode::UnhidePeers && (*final(app)).state.hidden_peers_picker is Some && (*final(app)).state.hidden_peers_picker->0.selected == 0 && (*final(app)).state.hidden_peers_picker->0.error is None
            },
{
}

/// The hidden list's keys: the arrows move by one and stay in the list, escape leaves.
pub proof fn law_the_hidden_list_takes_its_keys(key: KeyEvent)
    ensures
        forall|app: &mut App, r: Option<HiddenWrite>| #[trigger]
            call_ensures(App::handle_hidden_peers_key, (app, key), r) ==> {
                &&& key.code is Esc ==> r is None && (*final(app)).state.hidden_peers_picker is None && (*final(app)).state.mode == behind(
                    (*app).state.active,
                )
                &&& !(key.code is Enter) ==> r is None && (*final(app)).state.hidden_peers == (
                *app).state.hidden_peers && (*final(app)).state.hidden_peers_config == (
                *app).state.hidden_peers_config
                &&& !(key.code is Enter) && !(key.code is Esc) ==> ((
                *app).state.hidden_peers_picker matches Some(was) ==> {
                    let now = (*final(app)).state.hidden_peers_picker;
                    &&& now is Some
                    &&& now->0.entries == was.entries
                    &&& key.code is Up && was.selected > 0 ==> now->0.selected == was.selected - 1
                    &&& key.code is Up && was.selected == 0 ==> now->0.selected == 0
                    &&& key.code is Down && was.selected + 1 < was.entries@.len()
                        ==> now->0.selected == was.selected + 1
                    &&& key.code is Down && was.selected + 1 == was.entries@.len()
                        ==> now->0.selected == was.selected
                    &&& !(key.code is Up) && !(key.code is Down) ==> now->0.selected == was.selected
                })
            },
{
    assert forall|app: &mut App, r: Option<HiddenWrite>| #[trigger]
        call_ensures(App::handle_hidden_peers_key, (app, key), r) && (
        *app).state.hidden_peers_picker is Some implies (
    *app).state.hidden_peers_picker->0.entries@.len() <= usize::MAX by {
        let entries = (*app).state.hidden_peers_picker->0.entries;
        assert(entries.len() == entries@.len());
    }
}

/// A peer that is shown again is off the session's list, and the session is to be
/// saved; one that the configuration hides is to be written out of it first.
pub open spec fn unhiding_lands(before: App, after: App, write: Option<HiddenWrite>, i: int) -> bool {
    match before.state.hidden_peers_picker {
        None => after == before && write is None,
        Some(picker) => if picker.selected >= picker.entries@.len() {
            after == before && write is None
        } else {
            let entry = picker.entries@[picker.selected as int];
            &&& write is Some == entry.permanent
            &&& after.state.session_dirty
            &&& !listed(after.state.hidden_peers@, entry.peer@)
            &&& 0 <= i < before.state.hidden_peers@.len() && before.state.hidden_peers@[i]@
                != entry.peer@ ==> listed(
                after.state.hidden_peers@,
                before.state.hidden_peers@[i]@,
            )
            &&& after.state.hidden_peers_config == before.state.hidden_peers_config
            &&& write matches Some(write) ==> {
                &&& write.peer@ == entry.peer@
                &&& !listed(write.peers@, entry.peer@)
                &&& 0 <= i < before.state.hidden_peers_config@.len()
                    && before.state.hidden_peers_config@[i]@ != entry.peer@ ==> listed(
                    write.peers@,
                    before.state.hidden_peers_config@[i]@,
                )
            }
        },
    }
}

proof fn lemma_struck(list: Seq<String>, peer: Seq<char>, i: int)
    ensures
        ({
            let left = list.filter(
                crate::search::lacks(crate::app::hidden_peer_picker::is_text(peer)),
            );
            &&& !listed(left, peer)
            &&& 0 <= i < list.len() && list[i]@ != peer ==> listed(left, list[i]@)
        }),
{
    let p = crate::search::lacks(crate::app::hidden_peer_picker::is_text(peer));
    let left = list.filter(p);
    assert forall|k: int| 0 <= k < left.len() implies (#[trigger] left[k])@ != peer by {
        list.lemma_filter_pred(p, k);
    }
    if 0 <= i < list.len() && list[i]@ != peer {
        list.lemma_filter_contains(p, i);
        let k = choose|k: int| 0 <= k < left.len() && left[k] == list[i];
        assert(left[k]@ == list[i]@);
    }
}

/// A peer is shown again as [`unhiding_lands`] says.
pub proof fn law_a_peer_is_shown_again(i: int)
    ensures
        forall|app: &mut App, r: Option<HiddenWrite>| #[trigger]
            call_ensures(App::unhide_selected_peer, (app,), r) ==> unhiding_lands(
                *app,
                *final(app),
                r,
                i,
            ),
{
    assert forall|app: &mut App, r: Option<HiddenWrite>| #[trigger]
        call_ensures(App::unhide_selected_peer, (app,), r) implies unhiding_lands(
        *app,
        *final(app),
        r,
        i,
    ) by {
        if (*app).state.hidden_peers_picker is Some {
            let picker = (*app).state.hidden_peers_picker->0;
            if picker.selected < picker.entries@.len() {
                let peer = picker.entries@[picker.selected as int].peer@;
                lemma_struck((*app).state.hidden_peers@, peer, i);
                lemma_struck((*app).state.hidden_peers_config@, peer, i);
            }
        }
    }
}

/// A configuration that was written no longer hides the peer; one that could not be
/// written is told of, and changes nothing.
pub proof fn law_a_written_configuration_shows_its_peer(peer: &str, written: Result<(), String>)
    ensures
        forall|app: &mut App| #[trigger]
            call_ensures(App::hidden_peers_written, (app, peer, written), ()) ==> {
                &&& written is Ok ==> !listed((*final(app)).state.hidden_peers_config@, peer@)
                &&& written matches Err(error) ==> {
                    &&& (*final(app)).state.hidden_peers_config == (*app).state.hidden_peers_config
                    &&& (*final(app)).state.mode == (*app).state.mode
                    &&& (*app).state.hidden_peers_picker is Some ==> (*final(app)).state.hidden_peers_picker is Some && (*final(app)).state.hidden_peers_picker->0.error == Some(error)
                }
            },
{
    assert forall|app: &mut App| #[trigger]
        call_ensures(App::hidden_peers_written, (app, peer, written), ())
            && written is Ok implies !listed(
        (*final(app)).state.hidden_peers_config@,
        peer@,
    ) by {
        lemma_struck((*app).state.hidden_peers_config@, peer@, 0);
    }
}

/// A control is clicked in its middle: the column and the row halfway, rounded down.
pub proof fn law_a_control_is_clicked_in_its_middle(rect: HitboxRect, r: HitboxPoint)
    requires
        rect.fits(),
        call_ensures(crate::app::hitbox::click_point, (rect,), r),
    ensures
        rect.width > 0 ==> 2 * (r.col - rect.x) <= rect.width - 1 < 2 * (r.col - rect.x) + 2,
        rect.height > 0 ==> 2 * (r.row - rect.y) <= rect.height - 1 < 2 * (r.row - rect.y) + 2,
        rect.width == 0 ==> r.col == rect.x,
        rect.height == 0 ==> r.row == rect.y,
{
}

/// The area is offered under this name: with its own place, to be clicked there.
pub open spec fn offers(
    snapshot: HitboxSnapshot,
    name: Seq<char>,
    rect: HitboxRect,
    label: Option<Seq<char>>,
) -> bool {
    rect.width > 0 && rect.height > 0 ==> snapshot@.controls.contains(
        ControlView { name, rect, click: rect.middle(), label },
    )
}

proof fn lemma_in_either(a: Seq<ControlView>, b: Seq<ControlView>)
    ensures
        forall|x: ControlView| #[trigger] a.contains(x) ==> (a + b).contains(x),
        forall|x: ControlView| #[trigger] b.contains(x) ==> (a + b).contains(x),
{
    assert forall|x: ControlView| #[trigger] a.contains(x) implies (a + b).contains(x) by {
        let i = choose|i: int| 0 <= i < a.len() && a[i] == x;
        assert((a + b)[i] == x);
    }
    assert forall|x: ControlView| #[trigger] b.contains(x) implies (a + b).contains(x) by {
        let i = choose|i: int| 0 <= i < b.len() && b[i] == x;
        assert((a + b)[a.len() + i] == x);
    }
}

proof fn lemma_offered_in(name: Seq<char>, rect: HitboxRect, label: Option<Seq<char>>)
    ensures
        rect.width > 0 && rect.height > 0 ==> crate::app::hitbox::offered(
            name,
            rect,
            label,
        ).contains(ControlView { name, rect, click: rect.middle(), label }),
{
    if rect.width > 0 && rect.height > 0 {
        let one = crate::app::hitbox::offered(name, rect, label);
        assert(one[0] == (ControlView { name, rect, click: rect.middle(), label }));
    }
}

/// Every part of the screen is offered under its own name, where it is drawn.
pub proof fn law_the_screen_is_offered_by_name(v: ViewAreas, r: HitboxSnapshot)
    requires
        v.fits(),
        call_ensures(crate::app::hitbox::snapshot, (&v,), r),
    ensures
        offers(r, "sidebar"@, v.sidebar, None),
        offers(r, "sidebar.workspace_list"@, v.workspace_list, None),
        offers(r, "sidebar.agent_panel"@, v.agent_panel, None),
        offers(r, "sidebar.footer"@, v.sidebar_footer, None),
        offers(r, "sidebar.new"@, v.sidebar_new, None),
        offers(r, "sidebar.launcher"@, v.launcher, None),
        offers(r, "terminal"@, v.terminal, None),
        offers(r, "tab_bar"@, v.tab_bar, None),
        offers(r, "tab_scroll_left"@, v.tab_scroll_left, None),
        offers(r, "tab_scroll_right"@, v.tab_scroll_right, None),
        offers(r, "tab_new"@, v.tab_new, None),
        offers(r, "toast"@, v.toast, None),
        offers(r, "mobile_header"@, v.mobile_header, None),
        offers(r, "mobile_menu"@, v.mobile_menu, None),
        r.screen == v.screen,
{
    let fixed = crate::app::hitbox::fixed_controls(v);
    let o0 = crate::app::hitbox::offered("sidebar"@, v.sidebar, None);
    lemma_offered_in("sidebar"@, v.sidebar, None);
    let o1 = crate::app::hitbox::offered("sidebar.workspace_list"@, v.workspace_list, None);
    lemma_offered_in("sidebar.workspace_list"@, v.workspace_list, None);
    let o2 = crate::app::hitbox::offered("sidebar.agent_panel"@, v.agent_panel, None);
    lemma_offered_in("sidebar.agent_panel"@, v.agent_panel, None);
    let o3 = crate::app::hitbox::offered("sidebar.footer"@, v.sidebar_footer, None);
    lemma_offered_in("sidebar.footer"@, v.sidebar_footer, None);
    let o4 = crate::app::hitbox::offered("sidebar.new"@, v.sidebar_new, None);
    lemma_offered_in("sidebar.new"@, v.sidebar_new, None);
    let o5 = crate::app::hitbox::offered("sidebar.launcher"@, v.launcher, None);
    lemma_offered_in("sidebar.launcher"@, v.launcher, None);
    let o6 = crate::app::hitbox::offered("terminal"@, v.terminal, None);
    lemma_offered_in("terminal"@, v.terminal, None);
    let o7 = crate::app::hitbox::offered("tab_bar"@, v.tab_bar, None);
    lemma_offered_in("tab_bar"@, v.tab_bar, None);
    let o8 = crate::app::hitbox::offered("tab_scroll_left"@, v.tab_scroll_left, None);
    lemma_offered_in("tab_scroll_left"@, v.tab_scroll_left, None);
    let o9 = crate::app::hitbox::offered("tab_scroll_right"@, v.tab_scroll_right, None);
    lemma_offered_in("tab_scroll_right"@, v.tab_scroll_right, None);
    let o10 = crate::app::hitbox::offered("tab_new"@, v.tab_new, None);
    lemma_offered_in("tab_new"@, v.tab_new, None);
    let o11 = crate::app::hitbox::offered("toast"@, v.toast, None);
    lemma_offered_in("toast"@, v.toast, None);
    let o12 = crate::app::hitbox::offered("mobile_header"@, v.mobile_header, None);
    lemma_offered_in("mobile_header"@, v.mobile_header, None);
    let o13 = crate::app::hitbox::offered("mobile_menu"@, v.mobile_menu, None);
    lemma_offered_in("mobile_menu"@, v.mobile_menu, None);
    let s1 = o0 + o1;
    lemma_in_either(o0, o1);
    let s2 = s1 + o2;
    lemma_in_either(s1, o2);
    let s3 = s2 + o3;
    lemma_in_either(s2, o3);
    let s4 = s3 + o4;
    lemma_in_either(s3, o4);
    let s5 = s4 + o5;
    lemma_in_either(s4, o5);
    let s6 = s5 + o6;
    lemma_in_either(s5, o6);
    let s7 = s6 + o7;
    lemma_in_either(s6, o7);
    let s8 = s7 + o8;
    lemma_in_either(s7, o8);
    let s9 = s8 + o9;
    lemma_in_either(s8, o9);
    let s10 = s9 + o10;
    lemma_in_either(s9, o10);
    let s11 = s10 + o11;
    lemma_in_either(s10, o11);
    let s12 = s11 + o12;
    lemma_in_either(s11, o12);
    let s13 = s12 + o13;
    lemma_in_either(s12, o13);
    assert(fixed == s13);
    let cards = crate::app::hitbox::card_controls(v.workspace_cards@);
    let headers = crate::app::hitbox::header_controls(v.peer_headers@);
    let tabs = crate::app::hitbox::tab_controls(v.tabs@);
    let menu = match v.context_menu {
        Some(menu) => crate::app::hitbox::menu_controls("menu"@, menu),
        None => Seq::empty(),
    };
    let global = if v.mode == Mode::GlobalMenu {
        crate::app::hitbox::menu_controls("global_menu"@, v.global_menu)
    } else {
        Seq::empty()
    };
    lemma_in_either(fixed, cards);
    lemma_in_either(fixed + cards, headers);
    lemma_in_either(fixed + cards + headers, tabs);
    lemma_in_either(fixed + cards + headers + tabs, menu);
    lemma_in_either(fixed + cards + headers + tabs + menu, global);
}

proof fn lemma_item_offered(
    cards: Seq<crate::app::hitbox::WorkspaceCardArea>,
    headers: Seq<crate::app::hitbox::PeerHeaderArea>,
    tabs: Seq<crate::app::hitbox::TabArea>,
    i: int,
)
    ensures
        0 <= i < cards.len() && cards[i].rect.width > 0 && cards[i].rect.height > 0
            ==> crate::app::hitbox::card_controls(cards).contains(
            ControlView {
                name: "workspace"@ + "["@ + crate::text::decimal(cards[i].ws_idx as nat) + "]"@,
                rect: cards[i].rect,
                click: cards[i].rect.middle(),
                label: crate::text::opt_view(cards[i].label),
            },
        ),
        0 <= i < headers.len() && headers[i].rect.width > 0 && headers[i].rect.height > 0
            ==> crate::app::hitbox::header_controls(headers).contains(
            ControlView {
                name: "peer["@ + headers[i].peer@ + "]"@,
                rect: headers[i].rect,
                click: headers[i].rect.middle(),
                label: Some(headers[i].peer@),
            },
        ),
        0 <= i < tabs.len() && tabs[i].rect.width > 0 && tabs[i].rect.height > 0
            ==> crate::app::hitbox::tab_controls(tabs).contains(
            ControlView {
                name: "tab"@ + "["@ + crate::text::decimal(i as nat) + "]"@,
                rect: tabs[i].rect,
                click: tabs[i].rect.middle(),
                label: crate::text::opt_view(tabs[i].label),
            },
        ),
    decreases cards.len() + headers.len() + tabs.len(),
{
    if cards.len() > 0 {
        lemma_item_offered(cards.drop_last(), Seq::empty(), Seq::empty(), i);
        let last = cards.last();
        let name = crate::app::hitbox::indexed("workspace"@, last.ws_idx as int);
        let label = crate::text::opt_view(last.label);
        lemma_offered_in(name, last.rect, label);
        lemma_in_either(
            crate::app::hitbox::card_controls(cards.drop_last()),
            crate::app::hitbox::offered(name, last.rect, label),
        );
        if 0 <= i < cards.len() - 1 {
            assert(cards.drop_last()[i] == cards[i]);
        }
    }
    if headers.len() > 0 {
        lemma_item_offered(Seq::empty(), headers.drop_last(), Seq::empty(), i);
        let last = headers.last();
        let name = "peer["@ + last.peer@ + "]"@;
        lemma_offered_in(name, last.rect, Some(last.peer@));
        lemma_in_either(
            crate::app::hitbox::header_controls(headers.drop_last()),
            crate::app::hitbox::offered(name, last.rect, Some(last.peer@)),
        );
        if 0 <= i < headers.len() - 1 {
            assert(headers.drop_last()[i] == headers[i]);
        }
    }
    if tabs.len() > 0 {
        lemma_item_offered(Seq::empty(), Seq::empty(), tabs.drop_last(), i);
        let last = tabs.last();
        let name = crate::app::hitbox::indexed("tab"@, tabs.len() - 1);
        let label = crate::text::opt_view(last.label);
        lemma_offered_in(name, last.rect, label);
        lemma_in_either(
            crate::app::hitbox::tab_controls(tabs.drop_last()),
            crate::app::hitbox::offered(name, last.rect, label),
        );
        if 0 <= i < tabs.len() - 1 {
            assert(tabs.drop_last()[i] == tabs[i]);
        }
    }
}

/// Every workspace, every peer and every tab that is drawn is offered: a workspace by
/// its position, a peer by its name, a tab by its place in the bar.
pub proof fn law_every_item_is_offered_by_name(v: ViewAreas, r: HitboxSnapshot, i: int)
    requires
        v.fits(),
        call_ensures(crate::app::hitbox::snapshot, (&v,), r),
    ensures
        0 <= i < v.workspace_cards@.len() ==> offers(
            r,
            "workspace"@ + "["@ + crate::text::decimal(v.workspace_cards@[i].ws_idx as nat) + "]"@,
            v.workspace_cards@[i].rect,
            crate::text::opt_view(v.workspace_cards@[i].label),
        ),
        0 <= i < v.peer_headers@.len() ==> offers(
            r,
            "peer["@ + v.peer_headers@[i].peer@ + "]"@,
            v.peer_headers@[i].rect,
            Some(v.peer_headers@[i].peer@),
        ),
        0 <= i < v.tabs@.len() ==> offers(
            r,
            "tab"@ + "["@ + crate::text::decimal(i as nat) + "]"@,
            v.tabs@[i].rect,
            crate::text::opt_view(v.tabs@[i].label),
        ),
{
    let fixed = crate::app::hitbox::fixed_controls(v);
    let cards = crate::app::hitbox::card_controls(v.workspace_cards@);
    let headers = crate::app::hitbox::header_controls(v.peer_headers@);
    let tabs = crate::app::hitbox::tab_controls(v.tabs@);
    let menu = match v.context_menu {
        Some(menu) => crate::app::hitbox::menu_controls("menu"@, menu),
        None => Seq::empty(),
    };
    let global = if v.mode == Mode::GlobalMenu {
        crate::app::hitbox::menu_controls("global_menu"@, v.global_menu)
    } else {
        Seq::empty()
    };
    lemma_item_offered(v.workspace_cards@, v.peer_headers@, v.tabs@, i);
    lemma_in_either(fixed, cards);
    lemma_in_either(fixed + cards, headers);
    lemma_in_either(fixed + cards + headers, tabs);
    lemma_in_either(fixed + cards + headers + tabs, menu);
    lemma_in_either(fixed + cards + headers + tabs + menu, global);
}

/// What a snapshot says of the layout and the mode.
pub proof fn law_a_snapshot_names_its_mode(v: ViewAreas, r: HitboxSnapshot)
    requires
        v.fits(),
        call_ensures(crate::app::hitbox::snapshot, (&v,), r),
    ensures
        v.layout == ViewLayout::Desktop ==> r.layout@ == "desktop"@,
        v.layout == ViewLayout::Mobile ==> r.layout@ == "mobile"@,
        v.mode == Mode::Navigate ==> r.mode@ == "Navigate"@,
        v.mode == Mode::Terminal ==> r.mode@ == "Terminal"@,
        v.mode == Mode::OpenPeerWorkspace ==> r.mode@ == "OpenPeerWorkspace"@,
        v.mode == Mode::AddPeer ==> r.mode@ == "AddPeer"@,
        v.mode == Mode::UnhidePeers ==> r.mode@ == "UnhidePeers"@,
        v.mode == Mode::ContextMenu ==> r.mode@ == "ContextMenu"@,
        v.mode == Mode::GlobalMenu ==> r.mode@ == "GlobalMenu"@,
        r.seq == 0,
{
}

/// A dump counts on from the one before, and warns of a failure once.
pub proof fn law_a_dump_counts_on(
    dump: HitboxDump,
    v: ViewAreas,
    r: Option<HitboxSnapshot>,
    path: &str,
    snapshot: HitboxSnapshot,
    outcome: Result<(), DumpFailure>,
)
    requires
        v.fits(),
        call_ensures(HitboxDump::write, (&dump, &v), r),
    ensures
        dump.last is None ==> r is Some,
        r is Some && dump.seq < 0xffff_ffff_ffff_ffff ==> r->0.seq == dump.seq + 1,
        forall|d: &mut HitboxDump, told: Option<String>| #[trigger]
            call_ensures(HitboxDump::written, (d, snapshot, outcome, path), told) ==> {
                &&& outcome is Ok ==> told is None && (*final(d)).seq == snapshot.seq && (*final(d)).last is Some
                &&& outcome is Err ==> (*final(d)).warned && (*final(d)).seq == (*d).seq && (
                told is Some == !(*d).warned)
                &&& outcome matches Err(DumpFailure::Serialize(error)) ==> (told is Some
                    ==> told->0@ == "failed to serialize hitbox dump: "@ + error@)
                &&& outcome matches Err(DumpFailure::Write(error)) ==> (told is Some ==> told->0@
                    == "failed to write hitbox dump to "@ + path@ + ": "@ + error@)
            },
{
}

/// Nothing is saved without a session; else a change is saved once the burst is over.
pub proof fn law_a_change_is_saved_after_the_burst(now: u64)
    ensures
        forall|saver: &mut SessionSaver| #[trigger]
            call_ensures(SessionSaver::schedule_session_save, (saver, now), ()) ==> {
                &&& (*saver).no_session ==> *final(saver) == *saver
                &&& !(*saver).no_session && now + (*saver).debounce_ms <= 0xffff_ffff_ffff_ffff
                    ==> (*final(saver)).deadline == Some((now + (*saver).debounce_ms) as u64)
                &&& (*final(saver)).saving == (*saver).saving
            },
        forall|saver: &mut SessionSaver, state: &mut AppState| #[trigger]
            call_ensures(SessionSaver::sync_session_save_schedule, (saver, state, now), ()) ==> {
                &&& !(*final(state)).session_dirty
                &&& (*final(state)).workspaces == (*state).workspaces
                &&& !(*state).session_dirty ==> (*final(saver)).deadline == (*saver).deadline
                &&& (*state).session_dirty && !(*saver).no_session && now + (*saver).debounce_ms
                    <= 0xffff_ffff_ffff_ffff ==> (*final(saver)).deadline == Some(
                    (now + (*saver).debounce_ms) as u64,
                )
            },
        forall|saver: &mut SessionSaver| #[trigger]
            call_ensures(SessionSaver::save_ended, (saver,), ()) ==> !(*final(saver)).saving && (*final(saver)).deadline == (*saver).deadline,
{
}

/// What is saved: nothing at all is a session to clear, and anything is one to save,
/// with the panes' history where it is kept.
pub open spec fn saves(job: SessionSaveJob, app: App, history: bool) -> bool {
    &&& app.state.workspaces@.len() == 0 && app.state.peers@.len() == 0 ==> job
        == SessionSaveJob::Clear
    &&& app.state.workspaces@.len() > 0 || app.state.peers@.len() > 0 ==> job == (
    SessionSaveJob::Save { history })
}

/// One save runs at a time: while one runs, the next is tried a moment later.
pub proof fn law_one_save_runs_at_a_time(app: App, now: u64, finished: bool)
    ensures
        forall|saver: &mut SessionSaver, r: Option<SessionSaveJob>| #[trigger]
            call_ensures(
                SessionSaver::start_background_session_save,
                (saver, &app, now, finished),
                r,
            ) ==> {
                &&& (*saver).no_session ==> r is None && (*final(saver)).deadline is None
                &&& !(*saver).no_session && (*saver).saving && !finished ==> {
                    &&& r is None
                    &&& (*final(saver)).saving
                    &&& now <= 0xffff_ffff_ffff_ff00 ==> (*final(saver)).deadline == Some(
                        (now + 250) as u64,
                    )
                }
                &&& !(*saver).no_session && !((*saver).saving && !finished) ==> {
                    &&& r is Some
                    &&& saves(r->0, app, (*saver).persist_pane_history)
                    &&& (*final(saver)).saving
                    &&& (*final(saver)).deadline is None
                }
            },
        forall|saver: &mut SessionSaver, r: Option<SessionSaveJob>| #[trigger]
            call_ensures(SessionSaver::save_session_now, (saver, &app), r) ==> {
                &&& r is None == (*saver).no_session
                &&& r is Some ==> saves(r->0, app, (*saver).persist_pane_history)
                &&& !(*final(saver)).saving
                &&& (*final(saver)).deadline is None
            },
{
}

/// What the answer to a handed-on request says went wrong, if anything did.
pub proof fn law_a_refusal_is_read_from_its_answer(value: serde_json::Value, r: Option<String>)
    requires
        call_ensures(crate::app::runtime_mutations::failure_message, (&value,), r),
    ensures
        r is Some == json(value).member("error"@) is Some,
        json(value).member("error"@) matches Some(error) ==> {
            &&& error.text_member("message"@) is Some ==> r->0@ == error.text_member("message"@)->0
            &&& error.member("message"@) is None ==> r->0@ == "the peer refused the request"@
        },
{
}

/// An answer that arrived is told; a request that was only accepted tells nothing.
pub proof fn law_an_answer_is_told(mutation: RuntimeMutation, r: Option<&str>)
    requires
        call_ensures(RuntimeMutation::answered, (&mutation,), r),
    ensures
        mutation matches RuntimeMutation::Answered(text) ==> r is Some && r->0@ == text@,
        mutation is Accepted ==> r is None,
{
}

/// The request is done here: it goes on as it is, under its id, and nothing changed.
pub open spec fn done_here(before: App, after: App, r: Dispatched, id: Seq<char>, method: Method) -> bool {
    &&& after == before
    &&& r matches Dispatched::Local(request)
    &&& request.id@ == id
    &&& request.method == method
}

/// A request that a peer may own is done here as it is, or by the kind of work that it
/// asks for.
pub open spec fn done_somewhere(
    before: App,
    after: App,
    r: Dispatched,
    id: Seq<char>,
    method: Method,
) -> bool {
    &&& r is Local ==> done_here(before, after, r, id, method)
    &&& r matches Dispatched::Peer(Started::Deferred(work))
        ==> crate::app::api::peers::routing_laws::done_by_kind(method, work)
}

/// What the screen asks of [`App::runtime_workspace_focus`] is that very request.
pub proof fn law_the_screen_asks_for_workspace_focus(
    id: &str,
    workspace_id: String,
    launch_env: Result<Vec<(String, String)>, ErrorBody>,
)
    ensures
        forall|app: &mut App, r: Dispatched| #[trigger]
            call_ensures(App::runtime_workspace_focus, (app, id, workspace_id, launch_env), r) ==> done_somewhere(
                *app,
                *final(app),
                r,
                id@,
                Method::WorkspaceFocus(WorkspaceTarget { workspace_id }),
            ),
{
}

/// What the screen asks of [`App::runtime_workspace_create`] is that very request.
pub proof fn law_the_screen_asks_for_workspace_create(
    id: &str,
    params: WorkspaceCreateParams,
    launch_env: Result<Vec<(String, String)>, ErrorBody>,
)
    ensures
        forall|app: &mut App, r: Dispatched| #[trigger]
            call_ensures(App::runtime_workspace_create, (app, id, params, launch_env), r) ==> done_somewhere(
                *app,
                *final(app),
                r,
                id@,
                Method::WorkspaceCreate(params),
            ),
{
}

/// What the screen asks of [`App::runtime_workspace_rename`] is that very request.
pub proof fn law_the_screen_asks_for_workspace_rename(
    id: &str,
    params: WorkspaceRenameParams,
    launch_env: Result<Vec<(String, String)>, ErrorBody>,
)
    ensures
        forall|app: &mut App, r: Dispatched| #[trigger]
            call_ensures(App::runtime_workspace_rename, (app, id, params, launch_env), r) ==> done_somewhere(
                *app,
                *final(app),
                r,
                id@,
                Method::WorkspaceRename(params),
            ),
{
}

/// What the screen asks of [`App::runtime_workspace_close`] is that very request.
pub proof fn law_the_screen_asks_for_workspace_close(
    id: &str,
    workspace_id: String,
    launch_env: Result<Vec<(String, String)>, ErrorBody>,
)
    ensures
        forall|app: &mut App, r: Dispatched| #[trigger]
            call_ensures(App::runtime_workspace_close, (app, id, workspace_id, launch_env), r) ==> done_somewhere(
                *app,
                *final(app),
                r,
                id@,
                Method::WorkspaceClose(WorkspaceTarget { workspace_id }),
            ),
{
}

/// What the screen asks of [`App::runtime_tab_create`] is that very request.
pub proof fn law_the_screen_asks_for_tab_create(
    id: &str,
    params: TabCreateParams,
    launch_env: Result<Vec<(String, String)>, ErrorBody>,
)
    ensures
        forall|app: &mut App, r: Dispatched| #[trigger]
            call_ensures(App::runtime_tab_create, (app, id, params, launch_env), r) ==> done_somewhere(
                *app,
                *final(app),
                r,
                id@,
                Method::TabCreate(params),
            ),
{
}

/// What the screen asks of [`App::runtime_tab_rename`] is that very request.
pub proof fn law_the_screen_asks_for_tab_rename(
    id: &str,
    params: TabRenameParams,
    launch_env: Result<Vec<(String, String)>, ErrorBody>,
)
    ensures
        forall|app: &mut App, r: Dispatched| #[trigger]
            call_ensures(App::runtime_tab_rename, (app, id, params, launch_env), r) ==> done_somewhere(
                *app,
                *final(app),
                r,
                id@,
                Method::TabRename(params),
            ),
{
}

/// What the screen asks of [`App::runtime_pane_close`] is that very request.
pub proof fn law_the_screen_asks_for_pane_close(
    id: &str,
    pane_id: String,
    launch_env: Result<Vec<(String, String)>, ErrorBody>,
)
    ensures
        forall|app: &mut App, r: Dispatched| #[trigger]
            call_ensures(App::runtime_pane_close, (app, id, pane_id, launch_env), r) ==> done_somewhere(
                *app,
                *final(app),
                r,
                id@,
                Method::PaneClose(PaneTarget { pane_id }),
            ),
{
}

/// What the screen asks of [`App::runtime_worktree_open`] is that very request.
pub proof fn law_the_screen_asks_for_worktree_open(
    id: &str,
    params: WorktreeOpenParams,
    launch_env: Result<Vec<(String, String)>, ErrorBody>,
)
    ensures
        forall|app: &mut App, r: Dispatched| #[trigger]
            call_ensures(App::runtime_worktree_open, (app, id, params, launch_env), r) ==> done_somewhere(
                *app,
                *final(app),
                r,
                id@,
                Method::WorktreeOpen(params),
            ),
{
}

/// What the screen asks of [`App::runtime_peer_workspace_open`] is that very request.
pub proof fn law_the_screen_asks_for_peer_workspace_open(
    id: &str,
    params: PeerWorkspaceOpenParams,
    launch_env: Result<Vec<(String, String)>, ErrorBody>,
)
    ensures
        forall|app: &mut App, r: Dispatched| #[trigger]
            call_ensures(App::runtime_peer_workspace_open, (app, id, params, launch_env), r) ==> done_somewhere(
                *app,
                *final(app),
                r,
                id@,
                Method::PeerWorkspaceOpen(params),
            ),
{
}

/// What only this server can do is asked of it as it is.
pub proof fn law_the_screen_asks_this_server(id: &str, params: String)
    ensures
        forall|app: &mut App, r: Dispatched| #[trigger]
            call_ensures(App::runtime_workspace_move, (app, id, params), r) ==> done_here(
                *app,
                *final(app),
                r,
                id@,
                Method::WorkspaceMove(params),
            ),
        forall|app: &mut App, r: Dispatched| #[trigger]
            call_ensures(App::runtime_workspace_move_block, (app, id, params), r) ==> done_here(
                *app,
                *final(app),
                r,
                id@,
                Method::WorkspaceMoveBlock(params),
            ),
        forall|app: &mut App, r: Dispatched| #[trigger]
            call_ensures(App::runtime_tab_focus, (app, id, params), r) ==> done_here(
                *app,
                *final(app),
                r,
                id@,
                Method::TabFocus(TabTarget { tab_id: params }),
            ),
        forall|app: &mut App, r: Dispatched| #[trigger]
            call_ensures(App::runtime_tab_move, (app, id, params), r) ==> done_here(
                *app,
                *final(app),
                r,
                id@,
                Method::TabMove(params),
            ),
        forall|app: &mut App, r: Dispatched| #[trigger]
            call_ensures(App::runtime_tab_close, (app, id, params), r) ==> done_here(
                *app,
                *final(app),
                r,
                id@,
                Method::TabClose(TabTarget { tab_id: params }),
            ),
        forall|app: &mut App, r: Dispatched| #[trigger]
            call_ensures(App::runtime_pane_focus, (app, id, params), r) ==> done_here(
                *app,
                *final(app),
                r,
                id@,
                Method::PaneFocus(PaneTarget { pane_id: params }),
            ),
        forall|app: &mut App, r: Dispatched| #[trigger]
            call_ensures(App::runtime_pane_rename, (app, id, params), r) ==> done_here(
                *app,
                *final(app),
                r,
                id@,
                Method::PaneRename(params),
            ),
        forall|app: &mut App, r: Dispatched| #[trigger]
            call_ensures(App::runtime_pane_input_set, (app, id, params), r) ==> done_here(
                *app,
                *final(app),
                r,
                id@,
                Method::PaneInputSet(params),
            ),
        forall|app: &mut App, r: Dispatched| #[trigger]
            call_ensures(App::runtime_pane_focus_direction, (app, id, params), r) ==> done_here(
                *app,
                *final(app),
                r,
                id@,
                Method::PaneFocusDirection(params),
            ),
        forall|app: &mut App, r: Dispatched| #[trigger]
            call_ensures(App::runtime_pane_resize, (app, id, params), r) ==> done_here(
                *app,
                *final(app),
                r,
                id@,
                Method::PaneResize(params),
            ),
        forall|app: &mut App, r: Dispatched| #[trigger]
            call_ensures(App::runtime_pane_swap, (app, id, params), r) ==> done_here(
                *app,
                *final(app),
                r,
                id@,
                Method::PaneSwap(params),
            ),
        forall|app: &mut App, r: Dispatched| #[trigger]
            call_ensures(App::runtime_pane_zoom, (app, id, params), r) ==> done_here(
                *app,
                *final(app),
                r,
                id@,
                Method::PaneZoom(params),
            ),
        forall|app: &mut App, r: Dispatched| #[trigger]
            call_ensures(App::runtime_layout_set_split_ratio, (app, id, params), r) ==> done_here(
                *app,
                *final(app),
                r,
                id@,
                Method::LayoutSetSplitRatio(params),
            ),
        forall|app: &mut App, r: Dispatched| #[trigger]
            call_ensures(App::runtime_server_reload_config, (app, id), r) ==> done_here(
                *app,
                *final(app),
                r,
                id@,
                Method::ServerReloadConfig,
            ),
{
}

/// A pane of a view is split on its peer, and any other here.
pub proof fn law_the_screen_splits_where_the_pane_lives(
    id: &str,
    params: PaneSplitParams,
    launch_env: Result<Vec<(String, String)>, ErrorBody>,
    owner: Option<String>,
)
    ensures
        forall|app: &mut App, r: Dispatched| #[trigger]
            call_ensures(App::runtime_pane_split, (app, id, params, launch_env, owner), r) ==> {
                &&& *final(app) == *app
                &&& r is Local ==> done_here(*app, *final(app), r, id@, Method::PaneSplit(params))
                &&& r matches Dispatched::Peer(Started::Deferred(work)) ==> {
                    &&& work matches PeerWork::SplitPane { focus, ratio, .. }
                    &&& focus == params.focus
                    &&& ratio == params.ratio
                }
            },
{
}

/// A worktree that is made or removed from the screen is asked for as it is.
pub proof fn law_the_screen_asks_for_worktrees(
    app: App,
    id: &str,
    create: WorktreeCreateParams,
    remove: WorktreeRemoveParams,
    method: Method,
    created: Request,
    removed: Request,
    other: Request,
)
    requires
        call_ensures(App::runtime_worktree_create_deferred, (&app, id, create), created),
        call_ensures(App::runtime_worktree_remove_deferred, (&app, id, remove), removed),
        call_ensures(App::dispatch_deferred_runtime_mutation, (&app, id, method), other),
    ensures
        created.id@ == id@ && created.method == Method::WorktreeCreate(create),
        removed.id@ == id@ && removed.method == Method::WorktreeRemove(remove),
        other.id@ == id@ && other.method == method,
{
}

} // verus!
