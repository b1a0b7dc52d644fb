//! What a worker makes of a peer's answers.
//!
//! A worker sends a request or connects a view and hands what came back to a
//! function here, which says what it means.

use vstd::prelude::*;

use crate::api::schema::requests::PaneInfo;
use crate::api::schema::responses::ErrorBody;
use crate::api::schema::worktrees::WorktreeInfo;
use crate::app::api::peers::forward::Restate;
use crate::app::api::peers::rewrite::{
    peer_pane_id_at, read_peer_error, rewrite_forwarded_explain, rewrite_forwarded_pane,
    rewrite_forwarded_read, rewrite_forwarded_response, rewrite_forwarded_worktree_list,
};
use crate::app::peers::PeerHandle;
use crate::events::{PeerViewOpened, PeerWorktreeAnswer};
use crate::json::{as_bool, encode, get, text_member};
use crate::terminal::RemoteView;
use crate::text::{cat2, cat3, cat5};

verus! {

/// The id of a request this server makes of a peer on a caller's behalf.
pub const FORWARD_REQUEST_ID: &'static str = "peer:forward";

/// The id of a request for a peer's panes.
pub const PANES_REQUEST_ID: &'static str = "peer:panes";

/// The id of a request to close a pane that was spawned on a peer.
pub const CLOSE_REQUEST_ID: &'static str = "peer:close-spawned";

/// A request that did not reach the peer, or was not answered.
pub open spec fn request_failed(error: Seq<char>) -> (Seq<char>, Seq<char>) {
    ("unavailable"@, "peer request failed: "@ + error)
}

/// The refusal of a request that did not reach the peer.
pub fn peer_request_failed(error: &str) -> (r: ErrorBody)
    ensures
        r@ == request_failed(error@),
{
    ErrorBody::new("unavailable", cat2("peer request failed: ", error))
}

/// What could not be done with a target of a peer, and why.
pub open spec fn could_not(
    what: Seq<char>,
    target: Seq<char>,
    handle: Seq<char>,
    error: Seq<char>,
) -> (Seq<char>, Seq<char>) {
    ("unavailable"@, what + target + "' on peer '"@ + handle + "': "@ + error)
}

fn could_not_error(what: &str, target: &str, handle: &str, error: &str) -> (r: ErrorBody)
    ensures
        r@ == could_not(what@, target@, handle@, error@),
{
    let head = cat5(what, target, "' on peer '", handle, "': ");
    ErrorBody::new("unavailable", cat2(head.as_str(), error))
}

/// The peer became a different server while a target was being opened.
pub open spec fn replaced_while_opening(handle: Seq<char>, target: Seq<char>) -> (
    Seq<char>,
    Seq<char>,
) {
    (
        "server_replaced"@,
        "peer '"@ + handle + "' was replaced while opening '"@ + target + "'"@,
    )
}

fn replaced_error(handle: &str, target: &str) -> (r: ErrorBody)
    ensures
        r@ == replaced_while_opening(handle@, target@),
{
    ErrorBody::new(
        "server_replaced",
        cat5("peer '", handle, "' was replaced while opening '", target, "'"),
    )
}

/// The peer-local id a view connects to.
///
/// A workspace id names a workspace, and the peer's terminal resolver takes
/// panes and terminals, so the pane behind a workspace is asked for first.
/// `resolved` is that answer; `None` when the target was no workspace.
pub fn view_target(
    handle: &PeerHandle,
    local_target: String,
    resolved: Option<Result<String, String>>,
) -> (r: Result<String, ErrorBody>)
    ensures
        match resolved {
            None => r == Ok::<String, ErrorBody>(local_target),
            Some(Ok(pane)) => r == Ok::<String, ErrorBody>(pane),
            Some(Err(error)) => r matches Err(body) && body@ == could_not(
                "could not resolve '"@,
                local_target@,
                handle@,
                error@,
            ),
        },
{
    match resolved {
        None => Ok(local_target),
        Some(Ok(pane)) => Ok(pane),
        Some(Err(error)) => Err(
            could_not_error(
                "could not resolve '",
                local_target.as_str(),
                handle.as_str(),
                error.as_str(),
            ),
        ),
    }
}

/// What is told of a view that was connected, or could not be.
pub open spec fn tells_view(
    connected: Result<RemoteView, String>,
    target: String,
    handle: Seq<char>,
    instance_id: Seq<char>,
    told: Result<PeerViewOpened, ErrorBody>,
) -> bool {
    match connected {
        Err(error) => told matches Err(body) && body@ == could_not(
            "could not open '"@,
            target@,
            handle,
            error@,
        ),
        Ok(view) => if view.on_other_server(instance_id) {
            told matches Err(body) && body@ == replaced_while_opening(handle, target@)
        } else {
            told == Ok::<PeerViewOpened, ErrorBody>(PeerViewOpened { view, local_target: target })
        },
    }
}

/// What came of connecting a view: it must be attached to the server the open
/// was decided for.
pub fn open_peer_view(
    handle: &PeerHandle,
    local_target: String,
    instance_id: &str,
    connected: Result<RemoteView, String>,
) -> (r: Result<PeerViewOpened, ErrorBody>)
    ensures
        tells_view(connected, local_target, handle@, instance_id@, r),
{
    match connected {
        Err(error) => Err(
            could_not_error(
                "could not open '",
                local_target.as_str(),
                handle.as_str(),
                error.as_str(),
            ),
        ),
        Ok(view) => if view.is_on_other_server(instance_id) {
            Err(replaced_error(handle.as_str(), local_target.as_str()))
        } else {
            Ok(PeerViewOpened { view, local_target })
        },
    }
}

/// What is told of a view onto a pane that was made for it. The view carries the
/// claim that closing it closes the pane.
pub open spec fn tells_spawned(
    connected: Result<RemoteView, String>,
    pane: Seq<char>,
    handle: Seq<char>,
    instance_id: Seq<char>,
    told: Result<RemoteView, ErrorBody>,
) -> bool {
    match connected {
        Err(error) => told matches Err(body) && body@ == could_not(
            "could not open '"@,
            pane,
            handle,
            error@,
        ),
        Ok(view) => if view.on_other_server(instance_id) {
            told matches Err(body) && body@ == replaced_while_opening(handle, pane)
        } else {
            told == Ok::<RemoteView, ErrorBody>(RemoteView { spawned_on_peer: true, ..view })
        },
    }
}

/// What came of connecting a view onto a pane that a peer created for this
/// server, by a split or for a tab.
pub fn spawned_peer_view(
    handle: &PeerHandle,
    peer_pane_id: &str,
    instance_id: &str,
    connected: Result<RemoteView, String>,
) -> (r: Result<RemoteView, ErrorBody>)
    ensures
        tells_spawned(connected, peer_pane_id@, handle@, instance_id@, r),
{
    match connected {
        Err(error) => Err(
            could_not_error("could not open '", peer_pane_id, handle.as_str(), error.as_str()),
        ),
        Ok(view) => if view.is_on_other_server(instance_id) {
            Err(replaced_error(handle.as_str(), peer_pane_id))
        } else {
            let mut view = view;
            view.spawned_on_peer = true;
            Ok(view)
        },
    }
}

/// What came of one attempt to reconnect a view: the server that answered must
/// be the one the attempt was decided for.
pub fn reconnected_view(connected: Result<RemoteView, String>, instance_id: &str) -> (r: Result<
    RemoteView,
    String,
>)
    ensures
        match connected {
            Err(error) => r == Err::<RemoteView, String>(error),
            Ok(view) => if view.on_other_server(instance_id@) {
                r matches Err(error) && error@ == "peer was replaced while reconnecting the view"@
            } else {
                r == Ok::<RemoteView, String>(view)
            },
        },
{
    match connected {
        Err(error) => Err(error),
        Ok(view) => if view.is_on_other_server(instance_id) {
            Err("peer was replaced while reconnecting the view".to_owned())
        } else {
            Ok(view)
        },
    }
}

/// The pane of a workspace that a view onto it attaches to: the focused one, else
/// the first.
pub open spec fn entry_pane(panes: Seq<PaneInfo>) -> Option<PaneInfo> {
    match crate::search::find(panes, |p: PaneInfo| p.focused) {
        Some(pane) => Some(pane),
        None => if panes.len() > 0 {
            Some(panes[0])
        } else {
            None
        },
    }
}

/// Which pane a view onto `workspace_id` should attach to.
///
/// Its focused pane, falling back to its first: a workspace opened from an
/// enumeration should land where someone at the peer is working.
pub fn resolve_peer_workspace_pane(panes: &Vec<PaneInfo>, workspace_id: &str) -> (r: Result<
    String,
    String,
>)
    ensures
        match entry_pane(panes@) {
            Some(pane) => r == Ok::<String, String>(pane.pane_id),
            None => r matches Err(message) && message@ == "workspace "@ + workspace_id@
                + " has no panes"@,
        },
{
    let ghost focused = |p: PaneInfo| p.focused;
    let mut i: usize = 0;
    while i < panes.len()
        invariant
            i <= panes.len(),
            focused == (|p: PaneInfo| p.focused),
            crate::search::first(panes@, focused, 0) == crate::search::first(
                panes@,
                focused,
                i as int,
            ),
        decreases panes.len() - i,
    {
        if panes[i].focused {
            return Ok(panes[i].pane_id.clone());
        }
        i += 1;
    }
    if panes.len() > 0 {
        Ok(panes[0].pane_id.clone())
    } else {
        Err(cat3("workspace ", workspace_id, " has no panes"))
    }
}

/// The pane that a peer created, from its answer to the request.
pub fn created_pane(
    reply: Result<serde_json::Value, String>,
    field: &str,
    handle: &PeerHandle,
    what: &str,
) -> (r: Result<String, ErrorBody>)
    ensures
        match reply {
            Ok(value) => super::rewrite::result_view(r) == super::rewrite::pane_reply(
                crate::json::json(value),
                field@,
                handle@,
                what@,
            ),
            Err(error) => r matches Err(body) && body@ == request_failed(error@),
        },
{
    match reply {
        Ok(value) => peer_pane_id_at(&value, field, handle, what),
        Err(error) => Err(peer_request_failed(error.as_str())),
    }
}

/// The pane that a peer made by splitting, from its answer.
pub fn request_peer_split_pane(
    reply: Result<serde_json::Value, String>,
    handle: &PeerHandle,
) -> (r: Result<String, ErrorBody>)
    ensures
        match reply {
            Ok(value) => super::rewrite::result_view(r) == super::rewrite::pane_reply(
                crate::json::json(value),
                "pane"@,
                handle@,
                "the split"@,
            ),
            Err(error) => r matches Err(body) && body@ == request_failed(error@),
        },
{
    created_pane(reply, "pane", handle, "the split")
}

/// The pane that a peer's new workspace or tab opened with, from its answer.
///
/// The reply already names the pane a view must attach to, so nothing has to wait
/// for the peer's next enumeration.
pub fn request_peer_created_pane(
    reply: Result<serde_json::Value, String>,
    handle: &PeerHandle,
) -> (r: Result<String, ErrorBody>)
    ensures
        match reply {
            Ok(value) => super::rewrite::result_view(r) == super::rewrite::pane_reply(
                crate::json::json(value),
                "root_pane"@,
                handle@,
                "the new workspace"@,
            ),
            Err(error) => r matches Err(body) && body@ == request_failed(error@),
        },
{
    created_pane(reply, "root_pane", handle, "the new workspace")
}

/// The tab that holds a pane of a peer, from the peer's account of the pane.
pub fn peer_tab_of(pane: &serde_json::Value, peer_pane_id: &str) -> (r: Result<String, String>)
    ensures
        match tab_named_in(crate::json::json(*pane)) {
            Some(tab) => r matches Ok(id) && id@ == tab,
            None => r matches Err(message) && message@ == "peer did not name a tab for pane "@
                + peer_pane_id@,
        },
{
    match get(pane, "result") {
        Some(result) => match get(result, "pane") {
            Some(pane) => match text_member(pane, "tab_id") {
                Some(tab) => {
                    return Ok(tab.to_owned());
                },
                None => {},
            },
            None => {},
        },
        None => {},
    }
    Err(cat2("peer did not name a tab for pane ", peer_pane_id))
}

/// The tab id at `result.pane.tab_id`.
pub open spec fn tab_named_in(value: crate::json::Json) -> Option<Seq<char>> {
    match super::rewrite::at2(value, "result"@, "pane"@) {
        Some(pane) => pane.text_member("tab_id"@),
        None => None,
    }
}

/// What came of asking a peer to close a pane this server had it spawn.
///
/// A peer that already closed the pane itself reports an error here; that is
/// still a failed cleanup from this side, because the only fact this server can
/// act on is whether it got a confirmation.
pub fn close_peer_pane(reply: Result<serde_json::Value, String>) -> (r: Result<(), String>)
    ensures
        match reply {
            Err(error) => r matches Err(message) && message@ == "peer request failed: "@ + error@,
            Ok(value) => match crate::json::json(value).member("error"@) {
                None => r is Ok,
                Some(error) => r matches Err(message) && message@ == (match error.text_member(
                    "message"@,
                ) {
                    Some(text) => text,
                    None => "peer rejected the close"@,
                }),
            },
        },
{
    match reply {
        Err(error) => Err(cat2("peer request failed: ", error.as_str())),
        Ok(value) => match get(&value, "error") {
            None => Ok(()),
            Some(error) => match text_member(error, "message") {
                Some(message) => Err(message.to_owned()),
                None => Err("peer rejected the close".to_owned()),
            },
        },
    }
}

/// What a worktree request is called in a message.
pub open spec fn worktree_request_name(opened: bool) -> Seq<char> {
    if opened {
        "the worktree open"@
    } else {
        "the worktree"@
    }
}

/// What is told of a worktree that a peer was asked to create or open.
pub open spec fn tells_worktree(
    reply: Result<serde_json::Value, String>,
    worktree: Option<WorktreeInfo>,
    handle: Seq<char>,
    opened: bool,
    told: Result<(String, PeerWorktreeAnswer), ErrorBody>,
) -> bool {
    match reply {
        Err(error) => told matches Err(body) && body@ == request_failed(error@),
        Ok(value) => match super::rewrite::pane_reply(
            crate::json::json(value),
            "root_pane"@,
            handle,
            worktree_request_name(opened),
        ) {
            Err(error) => told matches Err(body) && body@ == error,
            Ok(pane) => match worktree {
                None => told matches Err(body) && body@ == (
                    "unavailable"@,
                    "peer '"@ + handle + "' returned no worktree for "@
                        + worktree_request_name(opened),
                ),
                // Whether the peer already had it open says nothing about
                // this server; the open path decides that.
                Some(worktree) => told matches Ok((id, answer)) && id@ == pane && answer == if opened {
                    PeerWorktreeAnswer::Opened { worktree, already_open: false }
                } else {
                    PeerWorktreeAnswer::Created { worktree }
                },
            },
        },
    }
}

/// What came of asking a peer to create or open a worktree: the pane a view must
/// attach to and the peer's account of the checkout. `worktree` is that account,
/// as far as it could be read from the answer.
pub fn request_peer_worktree_view(
    reply: Result<serde_json::Value, String>,
    worktree: Option<WorktreeInfo>,
    handle: &PeerHandle,
    opened: bool,
) -> (r: Result<(String, PeerWorktreeAnswer), ErrorBody>)
    ensures
        tells_worktree(reply, worktree, handle@, opened, r),
{
    let what = if opened {
        "the worktree open"
    } else {
        "the worktree"
    };
    let pane_id = match created_pane(reply, "root_pane", handle, what) {
        Ok(pane_id) => pane_id,
        Err(error) => {
            return Err(error);
        },
    };
    match worktree {
        None => Err(
            ErrorBody::new(
                "unavailable",
                crate::text::cat4(
                    "peer '",
                    handle.as_str(),
                    "' returned no worktree for ",
                    what,
                ),
            ),
        ),
        Some(worktree) => if opened {
            Ok((pane_id, PeerWorktreeAnswer::Opened { worktree, already_open: false }))
        } else {
            Ok((pane_id, PeerWorktreeAnswer::Created { worktree }))
        },
    }
}

/// What a peer says it removed: the path, and whether removal was forced.
pub open spec fn removal_reply(value: crate::json::Json) -> Result<
    (Seq<char>, bool),
    (Seq<char>, Seq<char>),
> {
    match value.member("error"@) {
        Some(error) => Err(
            super::rewrite::peer_error(error, "peer refused the worktree removal"@),
        ),
        None => match value.member("result"@) {
            None => Err(
                ("unavailable"@, "peer returned no result for the worktree removal"@),
            ),
            Some(result) => match result.text_member("path"@) {
                None => Err(("unavailable"@, "peer named no path for the removed worktree"@)),
                Some(path) => Ok((path, result.member("forced"@) == Some(
                    crate::json::Json::Bool(true),
                ))),
            },
        },
    }
}

/// What is told of a checkout that a peer was asked to remove.
pub open spec fn tells_removal(
    reply: Result<serde_json::Value, String>,
    told: Result<(String, bool), ErrorBody>,
) -> bool {
    match reply {
        Err(error) => told matches Err(body) && body@ == request_failed(error@),
        Ok(value) => match removal_reply(crate::json::json(value)) {
            Ok((path, forced)) => told matches Ok((p, f)) && p@ == path && f == forced,
            Err(error) => told matches Err(body) && body@ == error,
        },
    }
}

/// What came of asking a peer to remove a worktree checkout.
///
/// A peer error is reported as-is: its code says whether the checkout was dirty
/// or the workspace was not a worktree at all.
pub fn request_peer_worktree_removal(reply: Result<serde_json::Value, String>) -> (r: Result<
    (String, bool),
    ErrorBody,
>)
    ensures
        tells_removal(reply, r),
{
    let value = match reply {
        Ok(value) => value,
        Err(error) => {
            return Err(peer_request_failed(error.as_str()));
        },
    };
    match get(&value, "error") {
        Some(error) => {
            return Err(read_peer_error(error, "peer refused the worktree removal".to_owned()));
        },
        None => {},
    }
    let result = match get(&value, "result") {
        Some(result) => result,
        None => {
            return Err(
                ErrorBody::of("unavailable", "peer returned no result for the worktree removal"),
            );
        },
    };
    let path = match text_member(result, "path") {
        Some(path) => path.to_owned(),
        None => {
            return Err(
                ErrorBody::of("unavailable", "peer named no path for the removed worktree"),
            );
        },
    };
    let forced = match get(result, "forced") {
        Some(forced) => match as_bool(forced) {
            Some(forced) => forced,
            None => false,
        },
        None => false,
    };
    Ok((path, forced))
}

/// A peer's answer as the caller gets it.
#[derive(Debug, PartialEq, Eq)]
pub enum Forwarded {
    /// The answer's text, ready to be sent.
    Text(String),
    Refused(ErrorBody),
}

/// A peer's answer restated for the caller.
pub open spec fn restated(
    value: crate::json::Json,
    restate: Restate,
    request_id: Seq<char>,
    instance_id: Seq<char>,
) -> crate::json::Json {
    match restate {
        Restate::Workspace { remap_ids } => super::rewrite::workspace_restated(
            value,
            request_id,
            instance_id,
            remap_ids,
        ),
        Restate::Read(ids) => super::rewrite::read_restated(value, request_id, ids),
        Restate::Pane { field, local_pane_id } => super::rewrite::pane_restated(
            value,
            request_id,
            field@,
            local_pane_id@,
        ),
        Restate::Explain { peer, peer_pane_id } => super::rewrite::explain_restated(
            value,
            request_id,
            peer@,
            peer_pane_id@,
        ),
        Restate::WorktreeList { local_ids } => super::rewrite::worktrees_restated(
            value,
            request_id,
            instance_id,
            crate::pairs::pairs_view(local_ids@),
        ),
    }
}

/// Restates a peer's answer in place.
pub fn restate_answer(
    value: &mut serde_json::Value,
    restate: &Restate,
    request_id: &str,
    instance_id: &str,
)
    ensures
        crate::json::json(*final(value)) == restated(
            crate::json::json(*old(value)),
            *restate,
            request_id@,
            instance_id@,
        ),
{
    match restate {
        Restate::Workspace { remap_ids } => rewrite_forwarded_response(
            value,
            request_id,
            instance_id,
            *remap_ids,
        ),
        Restate::Read(ids) => rewrite_forwarded_read(value, request_id, ids),
        Restate::Pane { field, local_pane_id } => rewrite_forwarded_pane(
            value,
            request_id,
            field.as_str(),
            local_pane_id.as_str(),
        ),
        Restate::Explain { peer, peer_pane_id } => rewrite_forwarded_explain(
            value,
            request_id,
            peer,
            peer_pane_id.as_str(),
        ),
        Restate::WorktreeList { local_ids } => rewrite_forwarded_worktree_list(
            value,
            request_id,
            instance_id,
            local_ids,
        ),
    }
}

/// What a caller whose request was forwarded gets: the peer's answer with its ids
/// restated, or why there is none.
///
/// Only ids are rewritten, never what the peer reported.
pub fn answer_forwarded(
    reply: Result<serde_json::Value, String>,
    restate: &Restate,
    request_id: &str,
    instance_id: &str,
) -> (r: Forwarded)
    ensures
        match reply {
            Err(error) => r matches Forwarded::Refused(body) && body@ == request_failed(error@),
            Ok(value) => match r {
                Forwarded::Text(text) => text@ == crate::json::encoded(
                    restated(crate::json::json(value), *restate, request_id@, instance_id@),
                ),
                Forwarded::Refused(_) => false,
            },
        },
{
    match reply {
        Err(error) => Forwarded::Refused(peer_request_failed(error.as_str())),
        Ok(value) => {
            let mut value = value;
            restate_answer(&mut value, restate, request_id, instance_id);
            match encode(&value) {
                Ok(text) => Forwarded::Text(text),
                Err(error) => Forwarded::Refused(ErrorBody::new("serialization_error", error)),
            }
        },
    }
}

} // verus!
