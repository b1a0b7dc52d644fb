//! Restating a peer's answers in this server's own terms.
//!
//! A peer answers about its own session, so its ids name its workspaces, tabs
//! and panes; the caller asked about this server and has to be able to use what
//! it gets back. Only ids are ever rewritten — never the text a peer reported.

use vstd::prelude::*;

use crate::api::schema::responses::ErrorBody;
use crate::api::schema::workspaces::AgentStatus;
use crate::app::peers::{prefix_peer_id, PeerHandle};
use crate::json::{
    array_len, as_str, get, get_mut, insert, is_object, item_mut, string, text_member,
};
use crate::pairs::lookup;
use crate::text::{cat2, cat4};

verus! {

/// What a peer says went wrong: its own code and message, with stand-ins for
/// what it left out.
pub open spec fn peer_error(error: crate::json::Json, rejected: Seq<char>) -> (
    Seq<char>,
    Seq<char>,
) {
    (
        match error.text_member("code"@) {
            Some(code) => code,
            None => "unavailable"@,
        },
        match error.text_member("message"@) {
            Some(message) => message,
            None => rejected,
        },
    )
}

/// The member `b` of the member `a`.
pub open spec fn at2(value: crate::json::Json, a: Seq<char>, b: Seq<char>) -> Option<
    crate::json::Json,
> {
    match value.member(a) {
        Some(inner) => inner.member(b),
        None => None,
    }
}

/// The pane id at `result.<field>.pane_id`, when it is a string.
pub open spec fn pane_id_in(value: crate::json::Json, field: Seq<char>) -> Option<Seq<char>> {
    match at2(value, "result"@, field) {
        Some(pane) => pane.text_member("pane_id"@),
        None => None,
    }
}

/// The pane a peer's reply names, or why there is none.
pub open spec fn pane_reply(
    value: crate::json::Json,
    field: Seq<char>,
    handle: Seq<char>,
    what: Seq<char>,
) -> Result<Seq<char>, (Seq<char>, Seq<char>)> {
    match value.member("error"@) {
        Some(error) => Err(peer_error(error, "peer rejected "@ + what)),
        None => match pane_id_in(value, field) {
            Some(pane) => Ok(pane),
            None => Err(
                (
                    "unavailable"@,
                    "peer '"@ + handle + "' returned no pane id for "@ + what,
                ),
            ),
        },
    }
}

/// The contents of a result that may be an error.
pub open spec fn result_view(r: Result<String, ErrorBody>) -> Result<
    Seq<char>,
    (Seq<char>, Seq<char>),
> {
    match r {
        Ok(text) => Ok(text@),
        Err(error) => Err(error@),
    }
}

/// What a peer says went wrong.
pub(crate) fn read_peer_error(error: &serde_json::Value, rejected: String) -> (r: ErrorBody)
    ensures
        r@ == peer_error(crate::json::json(*error), rejected@),
{
    let code = match text_member(error, "code") {
        Some(code) => code.to_owned(),
        None => "unavailable".to_owned(),
    };
    let message = match text_member(error, "message") {
        Some(message) => message.to_owned(),
        None => rejected,
    };
    ErrorBody { code, message }
}

/// Reads the id of the pane a peer created, or why it did not create one.
pub fn peer_split_pane_id(value: &serde_json::Value, handle: &PeerHandle) -> (r: Result<
    String,
    ErrorBody,
>)
    ensures
        result_view(r) == pane_reply(crate::json::json(*value), "pane"@, handle@, "the split"@),
{
    peer_pane_id_at(value, "pane", handle, "the split")
}

/// Reads a pane id out of a peer's reply, or why there is none.
///
/// A peer error is reported as-is: its code and message describe what went
/// wrong on the machine that owns the pane, and inventing a local code here
/// would hide that.
pub fn peer_pane_id_at(
    value: &serde_json::Value,
    field: &str,
    handle: &PeerHandle,
    what: &str,
) -> (r: Result<String, ErrorBody>)
    ensures
        result_view(r) == pane_reply(crate::json::json(*value), field@, handle@, what@),
{
    match get(value, "error") {
        Some(error) => {
            return Err(read_peer_error(error, cat2("peer rejected ", what)));
        },
        None => {},
    }
    match get(value, "result") {
        Some(result) => match get(result, field) {
            Some(pane) => match text_member(pane, "pane_id") {
                Some(pane_id) => {
                    return Ok(pane_id.to_owned());
                },
                None => {},
            },
            None => {},
        },
        None => {},
    }
    Err(
        ErrorBody::new(
            "unavailable",
            cat4("peer '", handle.as_str(), "' returned no pane id for ", what),
        ),
    )
}

/// The ids a pane is known by here, used to restate a peer's read as our own.
#[derive(Debug, PartialEq, Eq)]
pub struct LocalPaneIds {
    pub pane_id: String,
    pub workspace_id: String,
    pub tab_id: String,
}

/// `value` with the member `key` replaced by a text, if it has that member.
pub open spec fn replaced(
    value: crate::json::Json,
    key: Seq<char>,
    text: Seq<char>,
) -> crate::json::Json {
    if value.member(key) is Some {
        value.with(key, crate::json::Json::Text(text))
    } else {
        value
    }
}

/// `value` with the object at `result.<field>` changed to `changed`.
pub open spec fn with_result(
    value: crate::json::Json,
    field: Seq<char>,
    changed: crate::json::Json,
) -> crate::json::Json {
    value.with("result"@, (value.member("result"@)->0).with(field, changed))
}

/// The object at `result.<field>`, if there is one.
pub open spec fn result_object(value: crate::json::Json, field: Seq<char>) -> Option<
    crate::json::Json,
> {
    match at2(value, "result"@, field) {
        Some(object) if object is Object => Some(object),
        _ => None,
    }
}

/// A peer's answer under the caller's own request id.
pub open spec fn answered_as(value: crate::json::Json, request_id: Seq<char>) -> crate::json::Json {
    value.with("id"@, crate::json::Json::Text(request_id))
}

/// The pane, workspace and tab ids of a read replaced by the local ones.
pub open spec fn read_with_ids(read: crate::json::Json, ids: LocalPaneIds) -> crate::json::Json {
    replaced(
        replaced(
            replaced(read, "pane_id"@, ids.pane_id@),
            "workspace_id"@,
            ids.workspace_id@,
        ),
        "tab_id"@,
        ids.tab_id@,
    )
}

/// A peer's answer to a read, restated in local ids.
pub open spec fn read_restated(
    value: crate::json::Json,
    request_id: Seq<char>,
    ids: LocalPaneIds,
) -> crate::json::Json {
    let own = answered_as(value, request_id);
    match result_object(own, "read"@) {
        Some(read) => with_result(own, "read"@, read_with_ids(read, ids)),
        None => own,
    }
}

fn replace_member(value: &mut serde_json::Value, key: &str, text: &str)
    requires
        crate::json::json(*old(value)) is Object,
    ensures
        crate::json::json(*final(value)) == replaced(
            crate::json::json(*old(value)),
            key@,
            text@,
        ),
{
    if get(value, key).is_some() {
        insert(value, key, string(text));
    }
}

/// Rewrites a peer's read response so it names this server's pane.
///
/// The ids are *replaced* rather than namespaced. A namespaced peer id would be
/// honest about where the screen came from but useless to the caller, who asked
/// about a local pane and will use the id it gets back against this server.
pub fn rewrite_forwarded_read(
    value: &mut serde_json::Value,
    request_id: &str,
    local_ids: &LocalPaneIds,
)
    ensures
        crate::json::json(*final(value)) == read_restated(
            crate::json::json(*old(value)),
            request_id@,
            *local_ids,
        ),
{
    if !is_object(value) {
        return;
    }
    insert(value, "id", string(request_id));
    let ghost own = crate::json::json(*value);
    proof {
        crate::json::lemma_with_same(own, "result"@);
        if own.member("result"@) is Some {
            crate::json::lemma_with_same(own.member("result"@)->0, "read"@);
        }
    }
    match get_mut(value, "result") {
        Some(result) => match get_mut(result, "read") {
            Some(read) => {
                if is_object(read) {
                    replace_member(read, "pane_id", local_ids.pane_id.as_str());
                    replace_member(read, "workspace_id", local_ids.workspace_id.as_str());
                    replace_member(read, "tab_id", local_ids.tab_id.as_str());
                }
            },
            None => {},
        },
        None => {},
    }
}

/// A peer's answer with the pane id at `result.<field>` set to the local one.
pub open spec fn pane_restated(
    value: crate::json::Json,
    request_id: Seq<char>,
    field: Seq<char>,
    pane_id: Seq<char>,
) -> crate::json::Json {
    let own = answered_as(value, request_id);
    match result_object(own, field) {
        Some(object) => with_result(
            own,
            field,
            object.with("pane_id"@, crate::json::Json::Text(pane_id)),
        ),
        None => own,
    }
}

/// Rewrites a peer's response whose `result.<field>` names one pane, so it names
/// this server's.
///
/// Only the pane id needs rewriting: everything else is the peer's screen either
/// way.
pub fn rewrite_forwarded_pane(
    value: &mut serde_json::Value,
    request_id: &str,
    field: &str,
    local_pane_id: &str,
)
    ensures
        crate::json::json(*final(value)) == pane_restated(
            crate::json::json(*old(value)),
            request_id@,
            field@,
            local_pane_id@,
        ),
{
    if !is_object(value) {
        return;
    }
    insert(value, "id", string(request_id));
    let ghost own = crate::json::json(*value);
    proof {
        crate::json::lemma_with_same(own, "result"@);
        if own.member("result"@) is Some {
            crate::json::lemma_with_same(own.member("result"@)->0, field@);
        }
    }
    match get_mut(value, "result") {
        Some(result) => match get_mut(result, field) {
            Some(object) => {
                if is_object(object) {
                    insert(object, "pane_id", string(local_pane_id));
                }
            },
            None => {},
        },
        None => {},
    }
}

/// A peer's explanation, stamped with the peer that gave it.
pub open spec fn explain_restated(
    value: crate::json::Json,
    request_id: Seq<char>,
    peer: Seq<char>,
    peer_pane_id: Seq<char>,
) -> crate::json::Json {
    let own = answered_as(value, request_id);
    match own.member("error"@) {
        Some(error) if error is Object => match error.text_member("message"@) {
            Some(message) => own.with(
                "error"@,
                error.with(
                    "message"@,
                    crate::json::Json::Text("peer '"@ + peer + "': "@ + message),
                ),
            ),
            None => own,
        },
        _ => match result_object(own, "explain"@) {
            Some(explain) => with_result(
                own,
                "explain"@,
                explain.with("peer"@, crate::json::Json::Text(peer)).with(
                    "peer_pane_id"@,
                    crate::json::Json::Text(peer_pane_id),
                ),
            ),
            None => own,
        },
    }
}

fn stamp_error(error: &mut serde_json::Value, peer: &PeerHandle)
    requires
        crate::json::json(*old(error)) is Object,
    ensures
        crate::json::json(*final(error)) == (match crate::json::json(*old(error)).text_member(
            "message"@,
        ) {
            Some(message) => crate::json::json(*old(error)).with(
                "message"@,
                crate::json::Json::Text("peer '"@ + peer@ + "': "@ + message),
            ),
            None => crate::json::json(*old(error)),
        }),
{
    let restated = match text_member(error, "message") {
        Some(message) => Some(cat4("peer '", peer.as_str(), "': ", message)),
        None => None,
    };
    match restated {
        Some(text) => insert(error, "message", string(text.as_str())),
        None => {},
    }
}

/// Rewrites a peer's explain response to answer this server's request and to
/// name the peer that produced it.
///
/// `peer` and `peer_pane_id` go inside the explain body rather than beside it so
/// they travel with the rules they qualify. A refusal is stamped too: the peer's
/// message names the peer's own pane id, which means nothing on this side until
/// it says whose pane it is.
pub fn rewrite_forwarded_explain(
    value: &mut serde_json::Value,
    request_id: &str,
    peer: &PeerHandle,
    peer_pane_id: &str,
)
    ensures
        crate::json::json(*final(value)) == explain_restated(
            crate::json::json(*old(value)),
            request_id@,
            peer@,
            peer_pane_id@,
        ),
{
    if !is_object(value) {
        return;
    }
    insert(value, "id", string(request_id));
    let ghost own = crate::json::json(*value);
    proof {
        crate::json::lemma_with_same(own, "error"@);
        crate::json::lemma_with_same(own, "result"@);
        if own.member("result"@) is Some {
            crate::json::lemma_with_same(own.member("result"@)->0, "explain"@);
        }
    }
    match get_mut(value, "error") {
        Some(error) => {
            if is_object(error) {
                stamp_error(error, peer);
                return;
            }
        },
        None => {},
    }
    match get_mut(value, "result") {
        Some(result) => match get_mut(result, "explain") {
            Some(explain) => {
                if is_object(explain) {
                    insert(explain, "peer", string(peer.as_str()));
                    insert(explain, "peer_pane_id", string(peer_pane_id));
                }
            },
            None => {},
        },
        None => {},
    }
}

/// `value` with the text at `key` namespaced, if there is one.
pub open spec fn namespaced_member(
    value: crate::json::Json,
    key: Seq<char>,
    instance_id: Seq<char>,
) -> crate::json::Json {
    match value.text_member(key) {
        Some(local) => value.with(
            key,
            crate::json::Json::Text(crate::app::peers::prefixed(instance_id, local)),
        ),
        None => value,
    }
}

/// A peer's answer that carries a workspace, with that workspace's ids
/// namespaced.
pub open spec fn workspace_restated(
    value: crate::json::Json,
    request_id: Seq<char>,
    instance_id: Seq<char>,
    remap_ids: bool,
) -> crate::json::Json {
    let own = answered_as(value, request_id);
    match result_object(own, "workspace"@) {
        Some(workspace) if remap_ids => with_result(
            own,
            "workspace"@,
            namespaced_member(
                namespaced_member(workspace, "workspace_id"@, instance_id),
                "active_tab_id"@,
                instance_id,
            ),
        ),
        _ => own,
    }
}

fn namespace_member(value: &mut serde_json::Value, key: &str, instance_id: &str)
    requires
        crate::json::json(*old(value)) is Object,
    ensures
        crate::json::json(*final(value)) == namespaced_member(
            crate::json::json(*old(value)),
            key@,
            instance_id@,
        ),
{
    let restated = match text_member(value, key) {
        Some(local) => Some(prefix_peer_id(instance_id, local)),
        None => None,
    };
    match restated {
        Some(text) => insert(value, key, string(text.as_str())),
        None => {},
    }
}

/// Rewrites a peer's raw response so it reads as this server's own: the response
/// id becomes the caller's request id, and any workspace ids in the result are
/// re-namespaced with the peer's instance id — the same prefixing enumeration
/// applies on ingest, so a client that acts on the returned id can route it back
/// to the same peer.
pub fn rewrite_forwarded_response(
    value: &mut serde_json::Value,
    request_id: &str,
    instance_id: &str,
    remap_ids: bool,
)
    ensures
        crate::json::json(*final(value)) == workspace_restated(
            crate::json::json(*old(value)),
            request_id@,
            instance_id@,
            remap_ids,
        ),
{
    if !is_object(value) {
        return;
    }
    insert(value, "id", string(request_id));
    if !remap_ids {
        return;
    }
    let ghost own = crate::json::json(*value);
    proof {
        crate::json::lemma_with_same(own, "result"@);
        if own.member("result"@) is Some {
            crate::json::lemma_with_same(own.member("result"@)->0, "workspace"@);
        }
    }
    match get_mut(value, "result") {
        Some(result) => match get_mut(result, "workspace") {
            Some(workspace) => {
                if is_object(workspace) {
                    namespace_member(workspace, "workspace_id", instance_id);
                    namespace_member(workspace, "active_tab_id", instance_id);
                }
            },
            None => {},
        },
        None => {},
    }
}

/// The local ids views are held under, by the peer workspace each is attached
/// to.
pub open spec fn restated_workspace_id(
    local_ids: Map<Seq<char>, Seq<char>>,
    instance_id: Seq<char>,
    peer_workspace_id: Seq<char>,
) -> Seq<char> {
    if local_ids.contains_key(peer_workspace_id) {
        local_ids[peer_workspace_id]
    } else {
        crate::app::peers::prefixed(instance_id, peer_workspace_id)
    }
}

/// `value` with the workspace id at `key`, if there is one, named as it is known
/// here.
pub open spec fn with_workspace_id(
    value: crate::json::Json,
    key: Seq<char>,
    instance_id: Seq<char>,
    local_ids: Map<Seq<char>, Seq<char>>,
) -> crate::json::Json {
    match value.text_member(key) {
        Some(id) => value.with(
            key,
            crate::json::Json::Text(restated_workspace_id(local_ids, instance_id, id)),
        ),
        None => value,
    }
}

/// A listing with its source workspace named as it is known here.
pub open spec fn source_restated(
    result: crate::json::Json,
    instance_id: Seq<char>,
    local_ids: Map<Seq<char>, Seq<char>>,
) -> crate::json::Json {
    match result.member("source"@) {
        Some(source) => result.with(
            "source"@,
            with_workspace_id(source, "source_workspace_id"@, instance_id, local_ids),
        ),
        None => result,
    }
}

/// A listing with every workspace id named as it is known here.
pub open spec fn listing_restated(
    result: crate::json::Json,
    instance_id: Seq<char>,
    local_ids: Map<Seq<char>, Seq<char>>,
) -> crate::json::Json {
    let sourced = source_restated(result, instance_id, local_ids);
    match sourced.member("worktrees"@) {
        Some(crate::json::Json::Array(worktrees)) => sourced.with(
            "worktrees"@,
            crate::json::Json::Array(
                worktrees.map_values(
                    |w| with_workspace_id(w, "open_workspace_id"@, instance_id, local_ids),
                ),
            ),
        ),
        _ => sourced,
    }
}

/// A peer's list of worktrees, with every workspace id named as it is known here.
pub open spec fn worktrees_restated(
    value: crate::json::Json,
    request_id: Seq<char>,
    instance_id: Seq<char>,
    local_ids: Map<Seq<char>, Seq<char>>,
) -> crate::json::Json {
    let own = answered_as(value, request_id);
    match own.member("result"@) {
        Some(result) => own.with("result"@, listing_restated(result, instance_id, local_ids)),
        None => own,
    }
}

fn rewrite_peer_workspace_id_field(
    value: &mut serde_json::Value,
    key: &str,
    instance_id: &str,
    local_ids: &Vec<(String, String)>,
)
    ensures
        crate::json::json(*final(value)) == with_workspace_id(
            crate::json::json(*old(value)),
            key@,
            instance_id@,
            crate::pairs::pairs_view(local_ids@),
        ),
{
    let restated = match text_member(value, key) {
        Some(id) => match lookup(local_ids, id) {
            Some(local) => Some(local.clone()),
            None => Some(prefix_peer_id(instance_id, id)),
        },
        None => None,
    };
    match restated {
        Some(text) => insert(value, key, string(text.as_str())),
        None => {},
    }
}

fn rewrite_worktree_items(
    worktrees: &mut serde_json::Value,
    instance_id: &str,
    local_ids: &Vec<(String, String)>,
)
    ensures
        match crate::json::json(*old(worktrees)) {
            crate::json::Json::Array(items) => crate::json::json(*final(worktrees))
                == crate::json::Json::Array(
                items.map_values(
                    |w|
                        with_workspace_id(
                            w,
                            "open_workspace_id"@,
                            instance_id@,
                            crate::pairs::pairs_view(local_ids@),
                        ),
                ),
            ),
            other => crate::json::json(*final(worktrees)) == other,
        },
{
    let ghost start = crate::json::json(*worktrees);
    let ghost ids = crate::pairs::pairs_view(local_ids@);
    let len = array_len(worktrees);
    if len == 0 {
        proof {
            match start {
                crate::json::Json::Array(items) => {
                    assert(items =~= items.map_values(
                        |w| with_workspace_id(w, "open_workspace_id"@, instance_id@, ids),
                    ));
                },
                _ => {},
            }
        }
        return;
    }
    let mut i: usize = 0;
    while i < len
        invariant
            i <= len,
            ids == crate::pairs::pairs_view(local_ids@),
            start matches crate::json::Json::Array(items) && len == items.len() && (
            crate::json::json(*worktrees) matches crate::json::Json::Array(now) && now.len()
                == items.len() && (forall|j: int|
                0 <= j < items.len() ==> #[trigger] now[j] == if j < i {
                    with_workspace_id(items[j], "open_workspace_id"@, instance_id@, ids)
                } else {
                    items[j]
                })),
        decreases len - i,
    {
        match item_mut(worktrees, i) {
            Some(worktree) => {
                rewrite_peer_workspace_id_field(
                    worktree,
                    "open_workspace_id",
                    instance_id,
                    local_ids,
                );
            },
            None => {},
        }
        i += 1;
    }
    proof {
        match start {
            crate::json::Json::Array(items) => {
                let now = crate::json::json(*worktrees)->Array_0;
                assert(now =~= items.map_values(
                    |w| with_workspace_id(w, "open_workspace_id"@, instance_id@, ids),
                ));
            },
            _ => {},
        }
    }
}

/// Rewrites a peer's worktree list so that every workspace id in it is one the
/// caller can act on here: the local view when this server holds one, and the
/// peer-namespaced id otherwise. Paths and branches are the peer's own and are
/// reported verbatim.
pub fn rewrite_forwarded_worktree_list(
    value: &mut serde_json::Value,
    request_id: &str,
    instance_id: &str,
    local_ids: &Vec<(String, String)>,
)
    ensures
        crate::json::json(*final(value)) == worktrees_restated(
            crate::json::json(*old(value)),
            request_id@,
            instance_id@,
            crate::pairs::pairs_view(local_ids@),
        ),
{
    if !is_object(value) {
        return;
    }
    insert(value, "id", string(request_id));
    match get_mut(value, "result") {
        Some(result) => {
            match get_mut(result, "source") {
                Some(source) => rewrite_peer_workspace_id_field(
                    source,
                    "source_workspace_id",
                    instance_id,
                    local_ids,
                ),
                None => {},
            }
            proof {
                crate::json::lemma_with_same(crate::json::json(*result), "worktrees"@);
            }
            match get_mut(result, "worktrees") {
                Some(worktrees) => rewrite_worktree_items(worktrees, instance_id, local_ids),
                None => {},
            }
        },
        None => {},
    }
}

/// An agent's state as detection reports it.
#[derive(Debug, Clone, Copy, PartialEq, Eq, Structural)]
pub enum AgentState {
    Idle,
    Working,
    Blocked,
    Unknown,
}

/// The detector state behind a status.
pub open spec fn state_behind(status: AgentStatus) -> AgentState {
    match status {
        AgentStatus::Idle => AgentState::Idle,
        AgentStatus::Done => AgentState::Idle,
        AgentStatus::Working => AgentState::Working,
        AgentStatus::Blocked => AgentState::Blocked,
        AgentStatus::Unknown => AgentState::Unknown,
    }
}

/// The detector state behind a status the peer already resolved.
///
/// `Done` and `Idle` are the same agent state seen from different sides: the
/// split is the local seen flag, which belongs to whoever is looking at the
/// pane, not to the machine running the agent. Feeding `Idle` back keeps that
/// decision here.
pub fn agent_state_from_status(status: AgentStatus) -> (r: AgentState)
    ensures
        r == state_behind(status),
{
    match status {
        AgentStatus::Idle | AgentStatus::Done => AgentState::Idle,
        AgentStatus::Working => AgentState::Working,
        AgentStatus::Blocked => AgentState::Blocked,
        AgentStatus::Unknown => AgentState::Unknown,
    }
}

/// Restating a read touches ids alone: nothing beside the response id and the
/// read changes, and in the read nothing beside its pane, workspace and tab ids.
pub proof fn law_reads_keep_the_screen(
    value: crate::json::Json,
    request_id: Seq<char>,
    ids: LocalPaneIds,
)
    ensures
        forall|key: Seq<char>|
            key != "id"@ && key != "result"@ ==> #[trigger] read_restated(
                value,
                request_id,
                ids,
            ).member(key) == value.member(key),
        forall|key: Seq<char>|
            key != "read"@ ==> #[trigger] at2(
                read_restated(value, request_id, ids),
                "result"@,
                key,
            ) == at2(value, "result"@, key),
        match result_object(value, "read"@) {
            Some(read) => {
                &&& result_object(read_restated(value, request_id, ids), "read"@) == Some(
                    read_with_ids(read, ids),
                )
                &&& forall|key: Seq<char>|
                    key != "pane_id"@ && key != "workspace_id"@ && key != "tab_id"@
                        ==> #[trigger] read_with_ids(read, ids).member(key) == read.member(key)
            },
            None => true,
        },
{
    reveal_strlit("id");
    reveal_strlit("result");
    reveal_strlit("read");
    assert("id"@.len() == 2 && "result"@.len() == 6 && "read"@.len() == 4);
}

/// A worktree that a restated list names keeps everything the peer said of it
/// but the workspace it is open in.
pub proof fn law_worktrees_keep_their_facts(
    worktree: crate::json::Json,
    instance_id: Seq<char>,
    local_ids: Map<Seq<char>, Seq<char>>,
)
    ensures
        forall|key: Seq<char>|
            key != "open_workspace_id"@ ==> #[trigger] with_workspace_id(
                worktree,
                "open_workspace_id"@,
                instance_id,
                local_ids,
            ).member(key) == worktree.member(key),
        worktree.text_member("open_workspace_id"@) is None ==> with_workspace_id(
            worktree,
            "open_workspace_id"@,
            instance_id,
            local_ids,
        ) == worktree,
{
}

/// A refusal keeps the peer's own words: restating a read, a workspace or a list
/// changes nothing about an error beside the response id.
pub proof fn law_refusals_keep_the_peers_error(
    value: crate::json::Json,
    request_id: Seq<char>,
    instance_id: Seq<char>,
    ids: LocalPaneIds,
    local_ids: Map<Seq<char>, Seq<char>>,
    remap_ids: bool,
)
    ensures
        read_restated(value, request_id, ids).member("error"@) == value.member("error"@),
        workspace_restated(value, request_id, instance_id, remap_ids).member("error"@)
            == value.member("error"@),
        worktrees_restated(value, request_id, instance_id, local_ids).member("error"@)
            == value.member("error"@),
        value is Object ==> read_restated(value, request_id, ids).member("id"@) == Some(
            crate::json::Json::Text(request_id),
        ),
{
    reveal_strlit("id");
    reveal_strlit("result");
    reveal_strlit("error");
    assert("id"@.len() == 2 && "result"@.len() == 6 && "error"@.len() == 5);
}

} // verus!
