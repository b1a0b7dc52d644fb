//! What holds of the work that is done with a peer, and of what its answers become.

use vstd::prelude::*;

use crate::api::schema::requests::{
    Method, PaneInfo, WorktreeCreateParams, WorktreeListParams, WorktreeOpenParams,
    WorktreeRemoveParams,
};
use crate::api::schema::responses::ErrorBody;
use crate::api::schema::workspaces::AgentStatus;
use crate::api::schema::worktrees::WorktreeInfo;
use crate::app::api::announce::Announcement;
use crate::app::api::peers::forward::{PeerWork, Restate, Started};
use crate::app::api::peers::lifecycle::PaneClose;
use crate::app::api::peers::open_laws::is_peer;
use crate::app::api::peers::resolve::{PeerConnection, Route};
use crate::app::api::peers::rewrite::{AgentState, LocalPaneIds};
use crate::app::api::peers::steps::{
    Attach, Connecting, Ended, Listing, Opening, PeerRequest, Replying, Spawned, Step,
};
use crate::app::api::peers::views::Reconnect;
use crate::app::api::peers::worker::Forwarded;
use crate::app::api::peers::worktrees::RemovedWorktree;
use crate::app::peers::PeerHandle;
use crate::app::state::App;
use crate::events::{
    AppEvent, PeerViewOpened, PeerWorktreeAnswer, PeerWorktreeRemoveResult,
};
use crate::json::{json, Json};
use crate::terminal::RemoteView;

verus! {

/// What stands at `a` and then `b` in the value.
pub open spec fn inside(value: Json, a: Seq<char>, b: Seq<char>) -> Option<Json> {
    if value.member(a) is Some {
        (value.member(a)->0).member(b)
    } else {
        None
    }
}

/// The members that are rewritten have names of their own.
proof fn lemma_keys()
    ensures
        "id"@ != "result"@,
        "id"@ != "error"@,
        "result"@ != "error"@,
        "pane_id"@ != "workspace_id"@,
        "pane_id"@ != "tab_id"@,
        "workspace_id"@ != "tab_id"@,
        "workspace_id"@ != "active_tab_id"@,
        "peer"@ != "peer_pane_id"@,
{
    reveal_strlit("id");
    reveal_strlit("result");
    reveal_strlit("error");
    reveal_strlit("pane_id");
    reveal_strlit("workspace_id");
    reveal_strlit("tab_id");
    reveal_strlit("active_tab_id");
    reveal_strlit("peer");
    reveal_strlit("peer_pane_id");
    assert("id"@.len() == 2 && "result"@.len() == 6 && "error"@.len() == 5);
    assert("pane_id"@.len() == 7 && "workspace_id"@.len() == 12 && "tab_id"@.len() == 6);
    assert("active_tab_id"@.len() == 13 && "peer"@.len() == 4 && "peer_pane_id"@.len() == 12);
}

/// An answer other than the peer's explanation keeps everything outside its result,
/// and every answer goes out under the caller's own id.
pub proof fn law_answers_carry_the_callers_id(
    restate: &Restate,
    request_id: &str,
    instance_id: &str,
)
    ensures
        forall|value: &mut serde_json::Value| #[trigger]
            call_ensures(
                crate::app::api::peers::worker::restate_answer,
                (value, restate, request_id, instance_id),
                (),
            ) && json(*value) is Object ==> {
                &&& json(*final(value)).member("id"@) == Some(Json::Text(request_id@))
                &&& !(*restate is Explain) ==> json(*final(value)).member("error"@) == json(
                    *value,
                ).member("error"@)
                &&& forall|key: Seq<char>|
                    key != "id"@ && key != "result"@ && key != "error"@ ==> #[trigger] json(
                        *final(value),
                    ).member(key) == json(*value).member(key)
            },
{
    lemma_keys();
}

/// A pane that was named by the peer is named by this server's id where it stands in
/// the result; the rest of the pane stays.
pub proof fn law_a_forwarded_pane_is_named_here(request_id: &str, field: &str, local: &str)
    ensures
        forall|value: &mut serde_json::Value| #[trigger]
            call_ensures(
                crate::app::api::peers::rewrite::rewrite_forwarded_pane,
                (value, request_id, field, local),
                (),
            ) && (inside(json(*value), "result"@, field@) matches Some(object) && object is Object)
                ==> {
                let was = inside(json(*value), "result"@, field@)->0;
                let now = inside(json(*final(value)), "result"@, field@);
                &&& now is Some
                &&& (now->0).member("pane_id"@) == Some(Json::Text(local@))
                &&& forall|key: Seq<char>|
                    key != "pane_id"@ ==> #[trigger] (now->0).member(key) == was.member(key)
            },
{
    lemma_keys();
}

/// A screen that was read is told under this server's ids where the peer told its
/// own, and keeps every other fact.
pub proof fn law_a_forwarded_read_is_named_here(request_id: &str, ids: &LocalPaneIds)
    ensures
        forall|value: &mut serde_json::Value| #[trigger]
            call_ensures(
                crate::app::api::peers::rewrite::rewrite_forwarded_read,
                (value, request_id, ids),
                (),
            ) && (inside(json(*value), "result"@, "read"@) matches Some(object)
                && object is Object) ==> {
                let was = inside(json(*value), "result"@, "read"@)->0;
                let now = inside(json(*final(value)), "result"@, "read"@);
                &&& now is Some
                &&& was.member("pane_id"@) is Some ==> (now->0).member("pane_id"@) == Some(
                    Json::Text(ids.pane_id@),
                )
                &&& was.member("workspace_id"@) is Some ==> (now->0).member("workspace_id"@)
                    == Some(Json::Text(ids.workspace_id@))
                &&& was.member("tab_id"@) is Some ==> (now->0).member("tab_id"@) == Some(
                    Json::Text(ids.tab_id@),
                )
                &&& forall|key: Seq<char>|
                    was.member(key) is None || (key != "pane_id"@ && key != "workspace_id"@ && key
                        != "tab_id"@) ==> #[trigger] (now->0).member(key) == was.member(key)
            },
{
    lemma_keys();
}

/// An explanation says which peer and which of its panes it is about; a refusal
/// names the peer before the peer's own words.
pub proof fn law_an_explanation_names_its_peer(request_id: &str, peer: &PeerHandle, pane: &str)
    ensures
        forall|value: &mut serde_json::Value| #[trigger]
            call_ensures(
                crate::app::api::peers::rewrite::rewrite_forwarded_explain,
                (value, request_id, peer, pane),
                (),
            ) ==> {
                let was = json(*value);
                let now = json(*final(value));
                &&& was.member("error"@) is None && (inside(was, "result"@, "explain"@) matches Some(
                    object,
                ) && object is Object) ==> {
                    let told = inside(now, "result"@, "explain"@);
                    &&& told is Some
                    &&& (told->0).member("peer"@) == Some(Json::Text(peer@))
                    &&& (told->0).member("peer_pane_id"@) == Some(Json::Text(pane@))
                }
                &&& was.member("error"@) is Some && (was.member("error"@)->0).text_member(
                    "message"@,
                ) is Some ==> now.member("error"@) is Some && (now.member("error"@)->0).text_member(
                    "message"@,
                ) == Some(
                    "peer '"@ + peer@ + "': "@ + (was.member("error"@)->0).text_member(
                        "message"@,
                    )->0,
                )
            },
{
    lemma_keys();
}

/// A workspace that is not viewed here is told under the peer's instance id; one
/// that is keeps what the answer says.
pub proof fn law_a_forwarded_workspace_is_namespaced(
    request_id: &str,
    instance_id: &str,
    remap_ids: bool,
)
    ensures
        forall|value: &mut serde_json::Value| #[trigger]
            call_ensures(
                crate::app::api::peers::rewrite::rewrite_forwarded_response,
                (value, request_id, instance_id, remap_ids),
                (),
            ) && (inside(json(*value), "result"@, "workspace"@) matches Some(object)
                && object is Object) ==> workspace_is_namespaced(
                inside(json(*value), "result"@, "workspace"@)->0,
                inside(json(*final(value)), "result"@, "workspace"@),
                instance_id@,
                remap_ids,
            ),
{
    lemma_keys();
}

/// The workspace's two ids stand behind the instance id and a colon, and nothing else
/// changed.
pub open spec fn workspace_is_namespaced(
    was: Json,
    now: Option<Json>,
    instance_id: Seq<char>,
    remap_ids: bool,
) -> bool {
    &&& now is Some
    &&& !remap_ids ==> now->0 == was
    &&& remap_ids ==> {
        &&& was.text_member("workspace_id"@) is Some ==> (now->0).text_member("workspace_id"@)
            == Some(instance_id + seq![':'] + was.text_member("workspace_id"@)->0)
        &&& was.text_member("active_tab_id"@) is Some ==> (now->0).text_member("active_tab_id"@)
            == Some(instance_id + seq![':'] + was.text_member("active_tab_id"@)->0)
        &&& forall|key: Seq<char>|
            key != "workspace_id"@ && key != "active_tab_id"@ ==> #[trigger] (now->0).member(key)
                == was.member(key)
    }
}

/// A pane that the peer made is the one its answer names; a refusal is handed on in
/// the peer's words, and an answer that names none is no answer.
pub open spec fn pane_is_read(
    value: Json,
    field: Seq<char>,
    handle: Seq<char>,
    what: Seq<char>,
    r: Result<String, ErrorBody>,
) -> bool {
    let named = inside(value, "result"@, field);
    &&& value.member("error"@) is None && (named is Some && (named->0).member("pane_id"@) is Some
        && (named->0).member("pane_id"@)->0 is Text) ==> r is Ok && Json::Text(r->Ok_0@) == (
    named->0).member("pane_id"@)->0
    &&& value.member("error"@) is None && (named is None || (named->0).member("pane_id"@) is None)
        ==> r is Err && r->Err_0@ == (
        "unavailable"@,
        "peer '"@ + handle + "' returned no pane id for "@ + what,
    )
    &&& value.member("error"@) is Some ==> {
        let error = value.member("error"@)->0;
        &&& r is Err
        &&& error.member("code"@) is None ==> r->Err_0@.0 == "unavailable"@
        &&& error.member("message"@) is None ==> r->Err_0@.1 == "peer rejected "@ + what
        &&& error.text_member("code"@) is Some ==> r->Err_0@.0 == error.text_member("code"@)->0
        &&& error.text_member("message"@) is Some ==> r->Err_0@.1 == error.text_member(
            "message"@,
        )->0
    }
}

/// The pane of a split, and the pane of a new workspace, are read from the answer.
pub proof fn law_made_panes_are_read(
    value: serde_json::Value,
    error: String,
    handle: &PeerHandle,
    split: Result<String, ErrorBody>,
    created: Result<String, ErrorBody>,
    read: Result<String, ErrorBody>,
    lost: Result<String, ErrorBody>,
    gone: Result<String, ErrorBody>,
)
    requires
        call_ensures(
            crate::app::api::peers::worker::request_peer_split_pane,
            (Ok::<serde_json::Value, String>(value), handle),
            split,
        ),
        call_ensures(
            crate::app::api::peers::worker::request_peer_created_pane,
            (Ok::<serde_json::Value, String>(value), handle),
            created,
        ),
        call_ensures(
            crate::app::api::peers::rewrite::peer_split_pane_id,
            (&value, handle),
            read,
        ),
        call_ensures(
            crate::app::api::peers::worker::request_peer_split_pane,
            (Err::<serde_json::Value, String>(error), handle),
            lost,
        ),
        call_ensures(
            crate::app::api::peers::worker::request_peer_created_pane,
            (Err::<serde_json::Value, String>(error), handle),
            gone,
        ),
    ensures
        pane_is_read(json(value), "pane"@, handle@, "the split"@, split),
        pane_is_read(json(value), "pane"@, handle@, "the split"@, read),
        pane_is_read(json(value), "root_pane"@, handle@, "the new workspace"@, created),
        lost matches Err(body) && body@ == ("unavailable"@, "peer request failed: "@ + error@),
        gone matches Err(body) && body@ == ("unavailable"@, "peer request failed: "@ + error@),
{
}

/// An agent that is done is idle to this server; every other status is its own state.
pub proof fn law_statuses_are_states(status: AgentStatus, r: AgentState)
    requires
        call_ensures(crate::app::api::peers::rewrite::agent_state_from_status, (status,), r),
    ensures
        status is Idle || status is Done ==> r == AgentState::Idle,
        status is Working ==> r == AgentState::Working,
        status is Blocked ==> r == AgentState::Blocked,
        status is Unknown ==> r == AgentState::Unknown,
{
}

/// A view is opened on the target that was resolved, or on the target itself where
/// there was nothing to resolve.
pub proof fn law_a_view_goes_to_what_was_resolved(
    handle: &PeerHandle,
    target: String,
    resolved: Option<Result<String, String>>,
    r: Result<String, ErrorBody>,
)
    requires
        call_ensures(
            crate::app::api::peers::worker::view_target,
            (handle, target, resolved),
            r,
        ),
    ensures
        resolved is None ==> r == Ok::<String, ErrorBody>(target),
        resolved matches Some(Ok(pane)) ==> r == Ok::<String, ErrorBody>(pane),
        resolved matches Some(Err(error)) ==> {
            &&& r matches Err(body)
            &&& body@ == (
            "unavailable"@,
            "could not resolve '"@ + target@ + "' on peer '"@ + handle@ + "': "@ + error@,
        )
        },
{
}

/// The view is attached to the server with this id, or to one that has not said which
/// it is.
pub open spec fn on_server(view: RemoteView, instance_id: Seq<char>) -> bool {
    view.instance is None || view.instance->0@ == instance_id
}

/// A connection to the server that was meant is a view; one to another server, and
/// one that failed, are refused. A view of a pane made for it says so.
pub proof fn law_a_view_is_on_the_server_that_was_meant(
    handle: &PeerHandle,
    target: String,
    pane: &str,
    instance_id: &str,
    view: RemoteView,
    opened: Result<PeerViewOpened, ErrorBody>,
    spawned: Result<RemoteView, ErrorBody>,
    again: Result<RemoteView, String>,
)
    requires
        call_ensures(
            crate::app::api::peers::worker::open_peer_view,
            (handle, target, instance_id, Ok::<RemoteView, String>(view)),
            opened,
        ),
        call_ensures(
            crate::app::api::peers::worker::spawned_peer_view,
            (handle, pane, instance_id, Ok::<RemoteView, String>(view)),
            spawned,
        ),
        call_ensures(
            crate::app::api::peers::worker::reconnected_view,
            (Ok::<RemoteView, String>(view), instance_id),
            again,
        ),
    ensures
        on_server(view, instance_id@) ==> {
            &&& opened matches Ok(told) && told.view == view && told.local_target == target
            &&& spawned matches Ok(held) && held.spawned_on_peer && held == (RemoteView {
                spawned_on_peer: true,
                ..view
            })
            &&& again == Ok::<RemoteView, String>(view)
        },
        !on_server(view, instance_id@) ==> {
            &&& opened matches Err(body) && body@ == (
                "server_replaced"@,
                "peer '"@ + handle@ + "' was replaced while opening '"@ + target@ + "'"@,
            )
            &&& spawned matches Err(body) && body@ == (
                "server_replaced"@,
                "peer '"@ + handle@ + "' was replaced while opening '"@ + pane@ + "'"@,
            )
            &&& again matches Err(error) && error@
                == "peer was replaced while reconnecting the view"@
        },
{
}

/// A connection that failed is refused with what went wrong.
pub proof fn law_a_failed_view_says_why(
    handle: &PeerHandle,
    target: String,
    pane: &str,
    instance_id: &str,
    error: String,
    opened: Result<PeerViewOpened, ErrorBody>,
    spawned: Result<RemoteView, ErrorBody>,
    again: Result<RemoteView, String>,
)
    requires
        call_ensures(
            crate::app::api::peers::worker::open_peer_view,
            (handle, target, instance_id, Err::<RemoteView, String>(error)),
            opened,
        ),
        call_ensures(
            crate::app::api::peers::worker::spawned_peer_view,
            (handle, pane, instance_id, Err::<RemoteView, String>(error)),
            spawned,
        ),
        call_ensures(
            crate::app::api::peers::worker::reconnected_view,
            (Err::<RemoteView, String>(error), instance_id),
            again,
        ),
    ensures
        opened matches Err(body) && body@ == (
            "unavailable"@,
            "could not open '"@ + target@ + "' on peer '"@ + handle@ + "': "@ + error@,
        ),
        spawned matches Err(body) && body@ == (
            "unavailable"@,
            "could not open '"@ + pane@ + "' on peer '"@ + handle@ + "': "@ + error@,
        ),
        again == Err::<RemoteView, String>(error),
{
}

/// A workspace is entered at the pane that is focused there, else at its first.
pub proof fn law_a_workspace_is_entered_where_it_is_focused(
    panes: &Vec<PaneInfo>,
    workspace_id: &str,
    r: Result<String, String>,
)
    requires
        call_ensures(
            crate::app::api::peers::worker::resolve_peer_workspace_pane,
            (panes, workspace_id),
            r,
        ),
    ensures
        r is Ok == (panes@.len() > 0),
        r matches Err(message) ==> message@ == "workspace "@ + workspace_id@ + " has no panes"@,
        r matches Ok(id) ==> {
            ||| exists|i: int|
                0 <= i < panes@.len() && (#[trigger] panes@[i]).pane_id == id && panes@[i].focused
                    && forall|j: int| 0 <= j < i ==> !(#[trigger] panes@[j]).focused
            ||| panes@[0].pane_id == id && forall|j: int|
                0 <= j < panes@.len() ==> !(#[trigger] panes@[j]).focused
        },
{
    let p = |p: PaneInfo| p.focused;
    crate::search::lemma_first(panes@, p, 0);
    let at = crate::search::first(panes@, p, 0);
    assert forall|j: int| 0 <= j < at implies !(#[trigger] panes@[j]).focused by {
        assert(!p(panes@[j]));
    }
    if at < panes@.len() {
        assert(p(panes@[at]));
    }
}

/// A tab is named by the pane it holds.
pub proof fn law_a_panes_tab_is_read(
    value: serde_json::Value,
    pane: &str,
    r: Result<String, String>,
    tab: Seq<char>,
)
    requires
        call_ensures(crate::app::api::peers::worker::peer_tab_of, (&value, pane), r),
    ensures
        inside(json(value), "result"@, "pane"@) is Some && (inside(
            json(value),
            "result"@,
            "pane"@,
        )->0).member("tab_id"@) == Some(Json::Text(tab)) ==> r is Ok && r->Ok_0@ == tab,
        inside(json(value), "result"@, "pane"@) is None ==> r is Err && r->Err_0@
            == "peer did not name a tab for pane "@ + pane@,
{
}

/// A close is done unless the peer could not be asked or refused, and a refusal is
/// told in the peer's words.
pub proof fn law_a_close_is_done_unless_refused(
    value: serde_json::Value,
    error: String,
    r: Result<(), String>,
    lost: Result<(), String>,
    text: Seq<char>,
)
    requires
        call_ensures(
            crate::app::api::peers::worker::close_peer_pane,
            (Ok::<serde_json::Value, String>(value),),
            r,
        ),
        call_ensures(
            crate::app::api::peers::worker::close_peer_pane,
            (Err::<serde_json::Value, String>(error),),
            lost,
        ),
    ensures
        r is Ok == (json(value).member("error"@) is None),
        inside(json(value), "error"@, "message"@) == Some(Json::Text(text)) ==> r->Err_0@ == text,
        r is Err && inside(json(value), "error"@, "message"@) is None ==> r->Err_0@
            == "peer rejected the close"@,
        lost matches Err(message) && message@ == "peer request failed: "@ + error@,
{
}

/// A worktree is answered with the pane that shows it and what kind of request it
/// was; whether the peer had it open already says nothing about this server.
pub proof fn law_a_worktree_is_answered_with_its_pane(
    value: serde_json::Value,
    worktree: Option<WorktreeInfo>,
    handle: &PeerHandle,
    opened: bool,
    r: Result<(String, PeerWorktreeAnswer), ErrorBody>,
    pane: Seq<char>,
)
    requires
        call_ensures(
            crate::app::api::peers::worker::request_peer_worktree_view,
            (Ok::<serde_json::Value, String>(value), worktree, handle, opened),
            r,
        ),
    ensures
        json(value).member("error"@) is Some ==> r is Err,
        json(value).member("error"@) is None && inside(json(value), "result"@, "root_pane"@) is Some
            && (inside(json(value), "result"@, "root_pane"@)->0).member("pane_id"@) == Some(
            Json::Text(pane),
        ) ==> {
            &&& worktree matches Some(info) ==> {
                &&& r matches Ok((id, answer))
                &&& id@ == pane
                &&& opened ==> answer == (PeerWorktreeAnswer::Opened {
                    worktree: info,
                    already_open: false,
                })
                &&& !opened ==> answer == (PeerWorktreeAnswer::Created { worktree: info })
            }
            &&& worktree is None ==> r is Err && r->Err_0@ == (
                "unavailable"@,
                "peer '"@ + handle@ + "' returned no worktree for "@ + (if opened {
                    "the worktree open"@
                } else {
                    "the worktree"@
                }),
            )
        },
{
}

/// A removed worktree is known by its path, and was forced only where the peer says
/// so.
pub proof fn law_a_removed_worktree_is_known_by_its_path(
    value: serde_json::Value,
    r: Result<(String, bool), ErrorBody>,
    path: Seq<char>,
)
    requires
        call_ensures(
            crate::app::api::peers::worker::request_peer_worktree_removal,
            (Ok::<serde_json::Value, String>(value),),
            r,
        ),
    ensures
        json(value).member("error"@) is Some ==> r is Err,
        json(value).member("error"@) is None && json(value).member("result"@) is None ==> r is Err
            && r->Err_0@ == ("unavailable"@, "peer returned no result for the worktree removal"@),
        json(value).member("error"@) is None && json(value).member("result"@) is Some && inside(
            json(value),
            "result"@,
            "path"@,
        ) is None ==> r is Err && r->Err_0@ == (
            "unavailable"@,
            "peer named no path for the removed worktree"@,
        ),
        json(value).member("error"@) is None && inside(json(value), "result"@, "path"@) == Some(
            Json::Text(path),
        ) ==> r is Ok && (r->Ok_0).0@ == path && (r->Ok_0).1 == (inside(
            json(value),
            "result"@,
            "forced"@,
        ) == Some(Json::Bool(true))),
{
}

/// A request that got no answer is refused, and one that got one is answered with it.
pub proof fn law_a_forwarded_request_is_answered(
    value: serde_json::Value,
    error: String,
    restate: &Restate,
    id: &str,
    instance_id: &str,
    r: Forwarded,
    lost: Forwarded,
)
    requires
        call_ensures(
            crate::app::api::peers::worker::answer_forwarded,
            (Ok::<serde_json::Value, String>(value), restate, id, instance_id),
            r,
        ),
        call_ensures(
            crate::app::api::peers::worker::answer_forwarded,
            (Err::<serde_json::Value, String>(error), restate, id, instance_id),
            lost,
        ),
    ensures
        lost matches Forwarded::Refused(body) && body@ == (
            "unavailable"@,
            "peer request failed: "@ + error@,
        ),
        r matches Forwarded::Text(text) && exists|told: Json|
            #[trigger] crate::json::encoded(told) == text@ && (json(value) is Object
                ==> told.member("id"@) == Some(Json::Text(id@))),
{
    let told = crate::app::api::peers::worker::restated(
        json(value),
        *restate,
        id@,
        instance_id@,
    );
    reveal_strlit("id");
    reveal_strlit("result");
    reveal_strlit("error");
    assert(crate::json::encoded(told) == r->Text_0@);
}

/// The request goes to this connection's socket, for the server behind it, under an
/// id and with a method.
pub open spec fn sent_to(
    request: PeerRequest,
    api_socket: Seq<char>,
    instance_id: Seq<char>,
    id: Seq<char>,
    method: Method,
) -> bool {
    &&& request.route.api_socket@ == api_socket
    &&& request.route.instance_id@ == instance_id
    &&& request.request.id@ == id
    &&& request.request.method == method
}

/// Each kind of work begins by asking the peer behind its connection; a view of a
/// pane is connected to at once, and one of a workspace is listed first.
pub proof fn law_work_begins_at_its_peer(id: String, work: PeerWork, step: Step)
    requires
        call_ensures(crate::app::api::peers::steps::begin, (id, work), step),
    ensures
        work matches PeerWork::Forward { connection, method, restate } ==> {
            &&& step matches Step::Send(
            request,
            stage,
        )
            &&& sent_to(
            request,
            connection.api_socket@,
            connection.instance_id@,
            "peer:forward"@,
            method,
        )
            &&& stage == (Replying::Forward { id, instance_id: connection.instance_id, restate })
        },
        work matches PeerWork::CreateWorkspace {
            api_socket,
            instance_id,
            handle,
            method,
            label,
            focus,
        } ==> {
            &&& step matches Step::Send(request, stage)
            &&& sent_to(
            request,
            api_socket@,
            instance_id@,
            "peer:forward"@,
            method,
        )
            &&& stage == (Replying::Workspace { id, handle, label, focus })
        },
        work matches PeerWork::CreateTab {
            connection,
            handle,
            method,
            workspace_id,
            label,
            focus,
            size,
        } ==> {
            &&& step matches Step::Send(request, stage)
            &&& sent_to(
            request,
            connection.api_socket@,
            connection.instance_id@,
            "peer:forward"@,
            method,
        )
            &&& stage matches Replying::Spawn { goal, route, handle: h, size: s }
            &&& h == handle
            &&& s
            == size
            &&& route == request.route
            &&& goal == (Spawned::Tab {
            id,
            workspace_id,
            label,
            focus,
        })
        },
        work matches PeerWork::SplitPane {
            connection,
            handle,
            method,
            workspace_id,
            target_pane,
            direction,
            ratio,
            focus,
            size,
        } ==> {
            &&& step matches Step::Send(request, stage)
            &&& sent_to(
            request,
            connection.api_socket@,
            connection.instance_id@,
            "peer:forward"@,
            method,
        )
            &&& stage matches Replying::Spawn { goal, route, handle: h, size: s }
            &&& h == handle
            &&& s
            == size
            &&& route == request.route
            &&& goal == (Spawned::Pane {
            id,
            workspace_id,
            target_pane,
            direction,
            ratio,
            focus,
        })
        },
        work matches PeerWork::WorktreeView { connection, handle, method, opened, label, focus }
            ==> {
            &&& step matches Step::Send(request, stage)
            &&& sent_to(
            request,
            connection.api_socket@,
            connection.instance_id@,
            "peer:forward"@,
            method,
        )
            &&& stage == (Replying::Worktree { id, handle, opened, label, focus })
        },
        work matches PeerWork::WorktreeRemove { connection, method, workspace_id }
            ==> {
            &&& step matches Step::Send(request, stage)
            &&& sent_to(
            request,
            connection.api_socket@,
            connection.instance_id@,
            "peer:forward"@,
            method,
        )
            &&& stage == (Replying::Removal { id, workspace_id })
        },
        work matches PeerWork::RenameTab { connection, name } ==> {
            &&& step matches Step::Send(
            request,
            stage,
        )
            &&& request.route.api_socket@ == connection.api_socket@
            &&& request.route.instance_id@
            == connection.instance_id@
            &&& request.request.method matches Method::PaneGet(target)
            &&& target.pane_id == connection.local_target
            &&& stage matches Replying::TabOf {
            route,
            pane,
            name: n,
        }
            &&& route == request.route
            &&& pane == connection.local_target
            &&& n == name
        },
        work matches PeerWork::OpenView {
            connection,
            handle,
            requested_target,
            local_target,
            resolve_workspace,
            size,
            takeover,
            placement,
        } ==> {
            let opening = Opening {
                id,
                handle,
                requested_target,
                started_target: local_target,
                placement,
            };
            &&& resolve_workspace ==> {
            &&& step matches Step::List(request, stage)
            &&& request.route.api_socket@ == connection.api_socket@
            &&& request.route.instance_id@
                == connection.instance_id@
            &&& request.request.id@ == "peer:panes"@
            &&& request.request.method matches Method::PaneList(list)
            &&& list.workspace_id
                == Some(local_target)
            &&& stage.opening == opening
            &&& stage.route == request.route
            &&& stage.size == size
            &&& stage.takeover == takeover
        }
            &&& !resolve_workspace ==> {
            &&& step matches Step::Connect(attach, stage)
            &&& attach.api_socket == connection.api_socket
            &&& attach.peer@ == handle@
            &&& attach.target@ == local_target@
            &&& attach.size == size
            &&& attach.takeover
                == takeover
            &&& stage == (Connecting::View {
                opening,
                target: local_target,
                instance_id: connection.instance_id,
            })
        }
},
{
}

/// A pane left on a peer is closed where it runs, by its own id, and a close without
/// a route says why there is none. A view that reconnects goes to the target it had
/// and takes nothing over.
pub proof fn law_closes_and_reconnects_go_where_they_were_meant(
    close: &PaneClose,
    request: Result<PeerRequest, String>,
    attempt: &Reconnect,
    attach: Attach,
)
    requires
        call_ensures(crate::app::api::peers::steps::close_request, (close,), request),
        call_ensures(crate::app::api::peers::steps::reattach, (attempt,), attach),
    ensures
        close.route matches Ok(route) ==> {
            &&& request matches Ok(sent)
            &&& sent.route == route
            &&& sent.request.id@ == "peer:close-spawned"@
            &&& sent.request.method matches Method::PaneClose(target)
            &&& target.pane_id
            == close.peer_pane_id
        },
        close.route matches Err(reason) ==> request == Err::<PeerRequest, String>(reason),
        attach.api_socket == attempt.api_socket,
        attach.peer@ == attempt.peer@,
        attach.target@ == attempt.target@,
        attach.size == attempt.size,
        !attach.takeover,
{
}

/// A pane that the peer made for a tab or a split is connected to on the route it was
/// asked for by, without taking anything over; where it made none, the goal is told.
pub proof fn law_a_made_pane_is_connected_to(
    goal: Spawned,
    route: Route,
    handle: PeerHandle,
    size: crate::terminal::TerminalSize,
    value: serde_json::Value,
    worktree: Option<WorktreeInfo>,
    step: Step,
    pane: Seq<char>,
)
    requires
        call_ensures(
            crate::app::api::peers::steps::replied,
            (
                Replying::Spawn { goal, route, handle, size },
                Ok::<serde_json::Value, String>(value),
                worktree,
            ),
            step,
        ),
    ensures
        ({
            let field = if goal is Pane {
                "pane"@
            } else {
                "root_pane"@
            };
            let named = inside(json(value), "result"@, field);
            &&& json(value).member("error"@) is None && named is Some && (named->0).member(
                "pane_id"@,
            ) == Some(Json::Text(pane)) ==> {
            &&& step matches Step::Connect(attach, stage)
            &&& attach.api_socket == route.api_socket
            &&& attach.peer@ == handle@
            &&& attach.target@ == pane
            &&& attach.size == size
            &&& !attach.takeover
            &&& stage matches Connecting::Spawned { goal: g, route: to, handle: h, pane: p }
            &&& g
                == goal
            &&& to == route
            &&& h == handle
            &&& p@ == pane
        }
            &&& json(value).member("error"@) is Some ==> {
            &&& step matches Step::End(ended)
            &&& ended.answer is None
            &&& ended.warning is None
            &&& told_error(goal, ended)
        }
}),
{
}

/// The goal's own event tells that it failed.
pub open spec fn told_error(goal: Spawned, ended: Ended) -> bool {
    match goal {
        Spawned::Tab { id, workspace_id, label, focus } => {
            &&& ended.event matches Some(AppEvent::PeerTabCreateFinished(told))
            &&& told.id == id && told.workspace_id == workspace_id && told.label == label
                && told.focus == focus && told.result is Err
        },
        Spawned::Pane { id, workspace_id, target_pane, direction, ratio, focus } => {
            &&& ended.event matches Some(AppEvent::PeerPaneSplitFinished(told))
            &&& told.id == id && told.workspace_id == workspace_id && told.target_pane
                == target_pane && told.direction == direction && told.ratio == ratio && told.focus
                == focus && told.result is Err
        },
    }
}

/// The goal's own event tells the view that was made for it.
pub open spec fn told_view(goal: Spawned, ended: Ended, view: RemoteView) -> bool {
    match goal {
        Spawned::Tab { id, workspace_id, label, focus } => {
            &&& ended.event matches Some(AppEvent::PeerTabCreateFinished(told))
            &&& told.id == id && told.workspace_id == workspace_id && told.label == label
                && told.focus == focus && told.result == Ok::<RemoteView, ErrorBody>(view)
        },
        Spawned::Pane { id, workspace_id, target_pane, direction, ratio, focus } => {
            &&& ended.event matches Some(AppEvent::PeerPaneSplitFinished(told))
            &&& told.id == id && told.workspace_id == workspace_id && told.target_pane
                == target_pane && told.direction == direction && told.ratio == ratio && told.focus
                == focus && told.result == Ok::<RemoteView, ErrorBody>(view)
        },
    }
}

/// A view that connected to the server that was meant ends the work with its event; a
/// pane whose view did not come up is closed again before its goal is told.
pub proof fn law_a_connected_view_ends_its_work(
    goal: Spawned,
    route: Route,
    handle: PeerHandle,
    pane: String,
    view: Result<RemoteView, String>,
    step: Step,
)
    requires
        call_ensures(
            crate::app::api::peers::steps::connected,
            (Connecting::Spawned { goal, route, handle, pane }, view),
            step,
        ),
    ensures
        view is Ok && on_server(view->Ok_0, route.instance_id@) ==> {
            &&& step matches Step::End(ended)
            &&& ended.answer is None
            &&& ended.warning is None
            &&& told_view(
            goal,
            ended,
            RemoteView { spawned_on_peer: true, ..view->Ok_0 },
        )
        },
        !(view is Ok && on_server(view->Ok_0, route.instance_id@)) ==> {
            &&& step matches Step::Send(
            request,
            stage,
        )
            &&& request.route == route
            &&& request.request.id@ == "peer:close-spawned"@
            &&& request.request.method matches Method::PaneClose(target)
            &&& target.pane_id == pane
            &&& stage matches Replying::Abandoned { goal: g, .. }
            &&& g == goal
        },
{
}

/// A view that was opened ends its work with what it opened, for the caller that
/// asked.
pub proof fn law_an_opened_view_ends_its_work(
    opening: Opening,
    target: String,
    instance_id: String,
    view: Result<RemoteView, String>,
    step: Step,
)
    requires
        call_ensures(
            crate::app::api::peers::steps::connected,
            (Connecting::View { opening, target, instance_id }, view),
            step,
        ),
    ensures
        ({
            &&& step matches Step::End(ended)
            &&& ended.answer is None
            &&& ended.warning is None
            &&& ended.event matches Some(AppEvent::PeerViewOpenFinished(told))
            &&& told.id
            == opening.id
            &&& told.handle == opening.handle
            &&& told.requested_target
            == opening.requested_target
            &&& told.started_target == opening.started_target
            &&& told.placement == opening.placement
            &&& (told.result is Ok == (view is Ok
            && on_server(view->Ok_0, instance_id@)))
            &&& (told.result matches Ok(opened)
            ==> opened.view == view->Ok_0 && opened.local_target == target)
        }),
{
}

/// A workspace's listing leads to the pane it is entered at, or ends the work where
/// there is none.
pub proof fn law_a_listing_leads_to_its_pane(
    stage: Listing,
    list: Result<Option<Vec<PaneInfo>>, String>,
    step: Step,
    panes: Vec<PaneInfo>,
    at: int,
)
    requires
        call_ensures(crate::app::api::peers::steps::listed, (stage, list), step),
    ensures
        list == Ok::<Option<Vec<PaneInfo>>, String>(Some(panes)) && 0 <= at < panes@.len()
            && panes@[at].focused && (forall|j: int| 0 <= j < at ==> !(
        #[trigger] panes@[j]).focused) ==> {
            &&& step matches Step::Connect(attach, next)
            &&& attach.api_socket == stage.route.api_socket
            &&& attach.peer@ == stage.opening.handle@
            &&& attach.target@ == panes@[at].pane_id@
            &&& attach.size == stage.size
            &&& attach.takeover
            == stage.takeover
            &&& next matches Connecting::View { opening, target, instance_id }
            &&& opening == stage.opening
            &&& target@ == panes@[at].pane_id@
            &&& instance_id
            == stage.route.instance_id
        },
        list is Err || list == Ok::<Option<Vec<PaneInfo>>, String>(None) ==> {
            &&& step matches Step::End(ended)
            &&& ended.event matches Some(AppEvent::PeerViewOpenFinished(told))
            &&& told.id
            == stage.opening.id
            &&& told.handle == stage.opening.handle
            &&& told.started_target
            == stage.opening.started_target
            &&& told.result matches Err(body)
            &&& body@.0
            == "unavailable"@
        },
{
    if list == Ok::<Option<Vec<PaneInfo>>, String>(Some(panes)) && 0 <= at < panes@.len()
        && panes@[at].focused && (forall|j: int| 0 <= j < at ==> !(
    #[trigger] panes@[j]).focused) {
        crate::search::lemma_first_is(panes@, |p: PaneInfo| p.focused, 0, at);
    }
}

/// A workspace that the peer made is told with the pane it was made with; a worktree
/// that it removed, with the workspace it was removed from.
pub proof fn law_made_workspaces_and_removals_are_told(
    id: String,
    handle: PeerHandle,
    label: Option<String>,
    focus: bool,
    workspace_id: String,
    reply: Result<serde_json::Value, String>,
    worktree: Option<WorktreeInfo>,
    made: Step,
    removed: Step,
)
    requires
        call_ensures(
            crate::app::api::peers::steps::replied,
            (Replying::Workspace { id, handle, label, focus }, reply, worktree),
            made,
        ),
        call_ensures(
            crate::app::api::peers::steps::replied,
            (Replying::Removal { id, workspace_id }, reply, worktree),
            removed,
        ),
    ensures
        ({
            &&& made matches Step::End(ended)
            &&& ended.answer is None
            &&& ended.warning is None
            &&& ended.event matches Some(AppEvent::PeerWorkspaceCreateFinished(told))
            &&& told.id
            == id
            &&& told.handle == handle
            &&& told.label == label
            &&& told.focus == focus
            &&& (
        reply matches Ok(value) ==> pane_is_read(
            json(value),
            "root_pane"@,
            handle@,
            "the new workspace"@,
            told.result,
        ))
            &&& (reply is Err ==> told.result is Err)
        }),
        ({
            &&& removed matches Step::End(ended)
            &&& ended.answer is None
            &&& ended.warning is None
            &&& ended.event matches Some(AppEvent::PeerWorktreeRemoveFinished(told))
            &&& told.id == id
            &&& told.workspace_id == workspace_id
            &&& (reply is Err ==> told.result is Err)
        }),
{
}

/// A tab is renamed by asking for the tab of its pane first, and then for the name.
pub proof fn law_a_tab_is_renamed_by_its_pane(
    route: Route,
    pane: String,
    name: String,
    value: serde_json::Value,
    worktree: Option<WorktreeInfo>,
    asked: Step,
    done: Step,
    tab: Seq<char>,
)
    requires
        call_ensures(
            crate::app::api::peers::steps::replied,
            (
                Replying::TabOf { route, pane, name },
                Ok::<serde_json::Value, String>(value),
                worktree,
            ),
            asked,
        ),
        call_ensures(
            crate::app::api::peers::steps::replied,
            (Replying::Renamed, Ok::<serde_json::Value, String>(value), worktree),
            done,
        ),
    ensures
        inside(json(value), "result"@, "pane"@) is Some && (inside(
            json(value),
            "result"@,
            "pane"@,
        )->0).member("tab_id"@) == Some(Json::Text(tab)) ==> {
            &&& asked matches Step::Send(
            request,
            stage,
        )
            &&& stage is Renamed
            &&& request.route == route
            &&& request.request.method matches Method::TabRename(params)
            &&& params.tab_id@ == tab
            &&& params.label == name
        },
        inside(json(value), "result"@, "pane"@) is None ==> {
            &&& asked matches Step::End(ended)
            &&& ended.event is None
            &&& ended.warning is Some
        },
        done matches Step::End(ended) && ended.answer is None && ended.event is None
            && ended.warning is None,
{
}

/// The connection is to the peer with this handle, which answers, for this target.
pub open spec fn connects_to(
    app: App,
    connection: PeerConnection,
    handle: Seq<char>,
    target: Seq<char>,
) -> bool {
    &&& crate::app::peers::split_id(target) is None ==> connection.local_target@ == target
    &&& exists|q: int|
        #![trigger app.state.peers@[q]]
        super::open_laws::is_peer(app.state.peers@, q, crate::text::trimmed(handle))
            && super::open_laws::answers_on(
            app.state.peers@[q],
            connection.api_socket@,
            connection.instance_id@,
        )
}

/// The workspace at `at` is the one that a worktree request means: the named one,
/// else the active one, else the selected one.
pub open spec fn is_meant(app: App, at: int, workspace_id: Option<String>) -> bool {
    &&& 0 <= at < app.state.workspaces@.len()
    &&& match workspace_id {
        Some(id) => app.state.workspaces@[at].public_id@ == id@,
        None => match app.state.active {
            Some(active) => active == at,
            None => app.state.selected == at,
        },
    }
}

/// The view that a worktree request was routed by: the workspace it means, which is a
/// view onto a workspace of this peer.
pub open spec fn routed_by(
    app: App,
    connection: PeerConnection,
    workspace_id: Option<String>,
    at: int,
) -> bool {
    let workspace = app.state.workspaces@[at];
    &&& is_meant(app, at, workspace_id)
    &&& workspace.peer is Some
    &&& workspace.peer_workspace is Some
    &&& connects_to(app, connection, workspace.peer->0@, workspace.peer_workspace->0@)
}

proof fn lemma_routed(app: App, workspace_id: Option<String>, connection: PeerConnection) -> (at:
    int)
    requires
        super::worktrees::worktree_reach(
            app,
            crate::text::opt_view(workspace_id),
        ) is Ok,
        connection@ == (super::worktrees::worktree_reach(
            app,
            crate::text::opt_view(workspace_id),
        )->Ok_0).1,
    ensures
        routed_by(app, connection, workspace_id, at),
        (super::worktrees::worktree_reach(app, crate::text::opt_view(workspace_id))->Ok_0).0.handle
            == app.state.workspaces@[at].peer->0@,
        (super::worktrees::worktree_reach(
            app,
            crate::text::opt_view(workspace_id),
        )->Ok_0).0.workspace_id == app.state.workspaces@[at].id@,
{
    let at = super::forward::worktree_workspace(app, crate::text::opt_view(workspace_id))->0 as int;
    if workspace_id is Some {
        crate::search::lemma_first(
            app.state.workspaces@,
            crate::app::state::has_public_id(workspace_id->0@),
            0,
        );
        assert(app.state.workspaces.len() == app.state.workspaces@.len());
    }
    let workspace = app.state.workspaces@[at];
    super::open_laws::lemma_reach(
        app.state.peers@,
        workspace.peer_workspace->0@,
        workspace.peer->0@,
    );
    at
}

/// A worktree is made, opened or removed on the peer behind the view that was meant,
/// in the workspace that is viewed, and is named and focused here alone.
pub proof fn law_worktree_requests_go_to_the_views_peer(
    app: App,
    create: WorktreeCreateParams,
    open: WorktreeOpenParams,
    remove: WorktreeRemoveParams,
    list: WorktreeListParams,
    created: Started,
    opened: Started,
    removed: Started,
    listed: Started,
)
    requires
        call_ensures(App::start_peer_worktree_create, (&app, create), created),
        call_ensures(App::start_peer_worktree_open, (&app, open), opened),
        call_ensures(App::start_peer_worktree_remove, (&app, remove), removed),
        call_ensures(App::start_peer_worktree_list, (&app, list), listed),
    ensures
        created matches Started::Deferred(work) ==> {
            &&& work matches PeerWork::WorktreeView {
            connection,
            handle,
            method: Method::WorktreeCreate(sent),
            opened: false,
            label,
            focus,
        }
            &&& label == create.label
            &&& focus == create.focus
            &&& sent.branch == create.branch
            &&& sent.base == create.base
            &&& sent.path == create.path
            &&& sent.cwd is None
            &&& sent.label is None
            &&& !sent.focus
            &&& sent.workspace_id is Some
            &&& sent.workspace_id->0@ == connection.local_target@
            &&& exists|at: int|
            #![trigger app.state.workspaces@[at]]
            routed_by(app, connection, create.workspace_id, at) && handle@
                == app.state.workspaces@[at].peer->0@
        },
        opened matches Started::Deferred(work) ==> {
            &&& work matches PeerWork::WorktreeView {
            connection,
            handle,
            method: Method::WorktreeOpen(sent),
            opened: true,
            label,
            focus,
        }
            &&& label == open.label
            &&& focus == open.focus
            &&& sent.branch == open.branch
            &&& sent.path
            == open.path
            &&& sent.cwd is None
            &&& sent.label is None
            &&& !sent.focus
            &&& sent.workspace_id is Some
            &&& sent.workspace_id->0@ == connection.local_target@
            &&& exists|at: int|
            #![trigger app.state.workspaces@[at]]
            routed_by(app, connection, open.workspace_id, at) && handle@
                == app.state.workspaces@[at].peer->0@
        },
        removed matches Started::Deferred(work) ==> {
            &&& work matches PeerWork::WorktreeRemove {
            connection,
            method: Method::WorktreeRemove(sent),
            workspace_id,
        }
            &&& sent.force == remove.force
            &&& sent.workspace_id@ == connection.local_target@
            &&& exists|at: int|
            #![trigger app.state.workspaces@[at]]
            routed_by(app, connection, Some(remove.workspace_id), at) && workspace_id@
                == app.state.workspaces@[at].id@
        },
        listed matches Started::Deferred(work) ==> {
            &&& work matches PeerWork::Forward {
            connection,
            method: Method::WorktreeList(sent),
            restate: Restate::WorktreeList { .. },
        }
            &&& sent.cwd is None
            &&& sent.workspace_id is Some
            &&& sent.workspace_id->0@
            == connection.local_target@
            &&& exists|at: int|
            #![trigger app.state.workspaces@[at]]
            routed_by(app, connection, list.workspace_id, at)
        },
        created matches Started::Answered(reply) ==> reply is Error,
        opened matches Started::Answered(reply) ==> reply is Error,
        removed matches Started::Answered(reply) ==> reply is Error,
        listed matches Started::Answered(reply) ==> reply is Error,
{
    if created is Deferred {
        let at = lemma_routed(app, create.workspace_id, created->Deferred_0->WorktreeView_connection);
        assert(app.state.workspaces@[at].id == app.state.workspaces@[at].id);
    }
    if opened is Deferred {
        let at = lemma_routed(app, open.workspace_id, opened->Deferred_0->WorktreeView_connection);
        assert(app.state.workspaces@[at].id == app.state.workspaces@[at].id);
    }
    if removed is Deferred {
        let at = lemma_routed(
            app,
            Some(remove.workspace_id),
            removed->Deferred_0->WorktreeRemove_connection,
        );
        assert(app.state.workspaces@[at].id == app.state.workspaces@[at].id);
    }
    if listed is Deferred {
        let at = lemma_routed(app, list.workspace_id, listed->Deferred_0->Forward_connection);
        assert(app.state.workspaces@[at].id == app.state.workspaces@[at].id);
    }
}

/// The ids a listing is told in are those of the views onto that peer: each viewed
/// workspace is named by a view of it, and nothing else is.
pub proof fn law_a_listing_is_told_in_the_views_ids(
    app: App,
    handle: &PeerHandle,
    r: Vec<(String, String)>,
    id: Seq<char>,
)
    requires
        call_ensures(App::local_workspace_ids_for_peer, (&app, handle), r),
    ensures
        crate::pairs::pairs_view(r@).contains_key(id) == exists|at: int|
            views_workspace(app, at, handle@, id),
        crate::pairs::pairs_view(r@).contains_key(id) ==> exists|at: int| #[trigger]
            views_workspace(app, at, handle@, id) && crate::pairs::pairs_view(r@)[id]
                == app.state.workspaces@[at].public_id@,
{
    lemma_local_ids(app, app.state.workspaces@.len() as int, handle@, id);
    assert(app.state.workspaces@.take(app.state.workspaces@.len() as int)
        =~= app.state.workspaces@);
}

/// The workspace at `at` views the workspace `id` of this peer.
pub open spec fn views_workspace(app: App, at: int, handle: Seq<char>, id: Seq<char>) -> bool {
    let workspace = app.state.workspaces@[at];
    &&& 0 <= at < app.state.workspaces@.len()
    &&& workspace.peer is Some && workspace.peer->0@ == handle
    &&& workspace.peer_workspace is Some && workspace.peer_workspace->0@ == id
}

proof fn lemma_local_ids(app: App, n: int, handle: Seq<char>, id: Seq<char>)
    requires
        0 <= n <= app.state.workspaces@.len(),
    ensures
        super::worktrees::local_ids(app.state.workspaces@.take(n), handle).contains_key(id)
            == exists|at: int| at < n && views_workspace(app, at, handle, id),
        super::worktrees::local_ids(app.state.workspaces@.take(n), handle).contains_key(id)
            ==> exists|at: int| #[trigger]
            views_workspace(app, at, handle, id) && at < n && super::worktrees::local_ids(
                app.state.workspaces@.take(n),
                handle,
            )[id] == app.state.workspaces@[at].public_id@,
    decreases n,
{
    let taken = app.state.workspaces@.take(n);
    if n > 0 {
        lemma_local_ids(app, n - 1, handle, id);
        assert(taken.drop_last() =~= app.state.workspaces@.take(n - 1));
        assert(taken.last() == app.state.workspaces@[n - 1]);
        if views_workspace(app, n - 1, handle, id) {
            assert(super::worktrees::local_ids(taken, handle).contains_key(id));
        }
    }
}

/// The workspace at `at` is the first with this id.
pub open spec fn is_workspace(app: App, at: int, id: Seq<char>) -> bool {
    &&& 0 <= at < app.state.workspaces@.len()
    &&& app.state.workspaces@[at].id@ == id
    &&& forall|j: int| 0 <= j < at ==> (#[trigger] app.state.workspaces@[j]).id@ != id
}

/// A removed worktree takes its view with it: the workspace is closed and announced
/// as closed before the removal is; a refusal changes nothing.
pub proof fn law_a_removed_worktree_closes_its_view(finished: PeerWorktreeRemoveResult, at: int)
    ensures
        forall|app: &mut App, r: Result<RemovedWorktree, ErrorBody>| #[trigger]
            call_ensures(App::handle_peer_worktree_remove_finished, (app, finished), r) ==> {
                &&& finished.result matches Err(error) ==> r == Err::<RemovedWorktree, ErrorBody>(
                    error,
                ) && *final(app) == *app
                &&& is_workspace(*app, at, finished.workspace_id@)
                    ==> {
 &&& finished.result matches Ok((path, forced)) ==> {
                    let workspace = (*app).state.workspaces@[at];
                    &&& r matches Ok(removed)
                    &&& removed.path == path
                    &&& removed.forced == forced
                    &&& removed.closed == Some(workspace)
                    &&& removed.workspace_id == workspace.public_id
                    &&& removed.events@.len() == 2
                    &&& removed.events@[0] == (Announcement::WorkspaceClosed {
                        workspace_id: workspace.public_id,
                    })
                    &&& removed.events@[1] == (Announcement::WorktreeRemoved {
                        workspace_id: workspace.public_id,
                        worktree: removed.worktree,
                        forced,
                    })
                    &&& (*final(app)).state.workspaces@ == (*app).state.workspaces@.remove(at)
                }
}
},
{
    assert forall|app: &mut App, r: Result<RemovedWorktree, ErrorBody>| #[trigger]
        call_ensures(App::handle_peer_worktree_remove_finished, (app, finished), r)
            && is_workspace(*app, at, finished.workspace_id@) implies crate::search::first(
        (*app).state.workspaces@,
        crate::app::state::has_id(finished.workspace_id@),
        0,
    ) == at && (at as usize) as int == at by {
        assert((*app).state.workspaces.len() == (*app).state.workspaces@.len());
        crate::search::lemma_first_is(
            (*app).state.workspaces@,
            crate::app::state::has_id(finished.workspace_id@),
            0,
            at,
        );
    }
}

/// What is told of a checkout that is gone: its path, and that it was a linked
/// worktree; nothing is open in it.
pub proof fn law_a_gone_checkout_keeps_its_path(path: &str, r: WorktreeInfo)
    requires
        call_ensures(
            crate::app::api::peers::worktrees::removed_peer_worktree_info,
            (path,),
            r,
        ),
    ensures
        r.path@ == path@,
        r.branch is None,
        !r.is_bare,
        !r.is_detached,
        !r.is_prunable,
        r.is_linked_worktree,
        r.open_workspace_id is None,
{
}

/// An answer to what is open already says so, of the same checkout.
pub proof fn law_an_open_worktree_is_said_to_be_open(
    answer: PeerWorktreeAnswer,
    r: PeerWorktreeAnswer,
)
    requires
        call_ensures(PeerWorktreeAnswer::into_already_open, (answer,), r),
    ensures
        answer matches PeerWorktreeAnswer::Created { worktree: a } ==> r
            == (PeerWorktreeAnswer::Opened { worktree: a, already_open: true }),
        answer matches PeerWorktreeAnswer::Opened { worktree: a, .. } ==> r
            == (PeerWorktreeAnswer::Opened { worktree: a, already_open: true }),
{
}

/// The id is a peer's, and this is what the peer itself calls it.
pub open spec fn is_own_id(id: Seq<char>, own: Seq<char>) -> bool {
    crate::app::peers::split_id(id) matches Some((_, local)) && local == own
}

/// The workspace at `k` is the first that the peer itself calls by this id.
pub open spec fn is_enumerated(
    workspaces: Seq<crate::api::schema::workspaces::WorkspaceInfoView>,
    k: int,
    own: Seq<char>,
) -> bool {
    &&& 0 <= k < workspaces.len()
    &&& is_own_id(workspaces[k].workspace_id, own)
    &&& forall|j: int| 0 <= j < k ==> !is_own_id((#[trigger] workspaces[j]).workspace_id, own)
}

/// A view's checkout is told as the peer enumerates it: its path, its repository and
/// whether it is linked, open in the view; nothing else is said of it.
pub proof fn law_a_views_checkout_is_told_as_enumerated(
    app: App,
    ws_idx: usize,
    r: Option<WorktreeInfo>,
    p: int,
    k: int,
)
    requires
        call_ensures(App::peer_view_worktree_info, (&app, ws_idx), r),
    ensures
        r is Some ==> {
            let told = r->0;
            &&& ws_idx < app.state.workspaces@.len()
            &&& told.branch is None
            &&& !told.is_bare && !told.is_detached && !told.is_prunable
            &&& told.open_workspace_id is Some
            &&& told.open_workspace_id->0@ == app.state.workspaces@[ws_idx as int].public_id@
        },
        ws_idx < app.state.workspaces@.len() ==> {
            let view = app.state.workspaces@[ws_idx as int];
            let peers = app.state.peers@;
            &&& view.peer is None || view.peer_workspace is None ==> r is None
            &&& view.peer is Some && view.peer_workspace is Some && is_peer(peers, p, view.peer->0@)
                && is_enumerated(peers[p].workspaces, k, view.peer_workspace->0@) ==> {
                let space = peers[p].workspaces[k].worktree;
                &&& r is Some == space is Some
                &&& r is Some ==> r->0.path@ == space->0.checkout_path && r->0.label@
                    == space->0.repo_name && r->0.is_linked_worktree
                    == space->0.is_linked_worktree
            }
        },
        ws_idx >= app.state.workspaces@.len() ==> r is None,
{
    if ws_idx < app.state.workspaces@.len() {
        let view = app.state.workspaces@[ws_idx as int];
        let peers = app.state.peers@;
        if view.peer is Some && view.peer_workspace is Some && is_peer(peers, p, view.peer->0@)
            && is_enumerated(peers[p].workspaces, k, view.peer_workspace->0@) {
            crate::search::lemma_first_is(
                peers,
                crate::app::peers::has_handle(view.peer->0@),
                0,
                p,
            );
            crate::search::lemma_first_is(
                peers[p].workspaces,
                super::resolve::enumerates(view.peer_workspace->0@),
                0,
                k,
            );
        }
    }
}

/// Of a checkout whose view is gone only the path is known.
pub proof fn law_a_gone_checkout_is_its_path(path: &str, r: WorktreeInfo)
    requires
        call_ensures(crate::app::api::peers::worktrees::removed_peer_worktree_info, (path,), r),
    ensures
        r.path@ == path@,
        r.branch is None && r.open_workspace_id is None,
        !r.is_bare && !r.is_detached && !r.is_prunable,
        r.is_linked_worktree,
        r.label@.len() == 0,
{
}

/// A pane is reached at its own peer, and one without a peer is refused.
pub proof fn law_a_pane_is_reached_at_its_peer(
    app: App,
    ws_idx: usize,
    pane: crate::app::state::PaneId,
    source: Option<(PeerHandle, String)>,
    r: Result<(PeerHandle, PeerConnection), ErrorBody>,
)
    requires
        call_ensures(App::peer_pane_source, (&app, ws_idx, pane), source),
        call_ensures(App::reach_pane, (&app, ws_idx, pane), r),
    ensures
        source is None ==> r is Err && r->Err_0@ == (
            "pane_not_found"@,
            "pane is not backed by a peer"@,
        ),
        r is Ok ==> source is Some && (r->Ok_0).0@ == (source->0).0@,
{
}

/// A worktree request is meant for the peer and the workspace that its view shows; a
/// workspace that is not there, is no view or does not say what it shows is refused.
pub proof fn law_worktrees_are_asked_of_the_workspace_viewed(
    app: App,
    id: Option<&str>,
    r: Result<crate::app::api::peers::worktrees::PeerWorktreeTarget, ErrorBody>,
    at: usize,
)
    requires
        call_ensures(App::resolve_peer_worktree_target, (&app, id), r),
        super::forward::worktree_workspace(app, super::resolve::name_view(id)) == Some(at),
        at < app.state.workspaces@.len(),
    ensures
        ({
            let view = app.state.workspaces@[at as int];
            &&& view.peer is None ==> r is Err && r->Err_0@ == (
                "invalid_request"@,
                "workspace is not a view onto a peer"@,
            )
            &&& view.peer is Some && view.peer_workspace is None ==> r is Err && r->Err_0@ == (
                "invalid_request"@,
                "this view does not name a workspace on its peer"@,
            )
            &&& view.peer is Some && view.peer_workspace is Some ==> r is Ok && r->Ok_0.handle@
                == view.peer->0@ && r->Ok_0.peer_workspace@ == view.peer_workspace->0@
                && r->Ok_0.workspace_id@ == view.id@
        }),
{
}

/// Work that ends with a warning tells the log alone, and what was said.
pub proof fn law_a_warning_goes_to_the_log_alone(step: Step, message: Seq<char>)
    requires
        step.warns(message),
    ensures
        step matches Step::End(ended) && ended.answer is None && ended.event is None
            && ended.warning is Some && ended.warning->0@ == message,
{
}

} // verus!
