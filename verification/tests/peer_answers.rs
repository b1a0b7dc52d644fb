//! What a peer answered, restated for the caller.

use herdr::api::schema::responses::ErrorBody;
use herdr::api::schema::workspaces::AgentStatus;
use herdr::api::schema::worktrees::WorktreeInfo;
use herdr::app::api::peers::forward::Restate;
use herdr::app::api::peers::rewrite::{
    agent_state_from_status, peer_pane_id_at, peer_split_pane_id, rewrite_forwarded_explain,
    rewrite_forwarded_pane, rewrite_forwarded_read, rewrite_forwarded_response,
    rewrite_forwarded_worktree_list, AgentState, LocalPaneIds,
};
use herdr::app::api::peers::worker::{
    answer_forwarded, close_peer_pane, created_pane, open_peer_view, peer_request_failed,
    peer_tab_of, reconnected_view, request_peer_created_pane, request_peer_split_pane,
    request_peer_worktree_removal, request_peer_worktree_view, resolve_peer_workspace_pane,
    restate_answer, spawned_peer_view, view_target, Forwarded,
};
use herdr::api::schema::requests::PaneInfo;
use herdr::app::peers::{prefix_peer_id, PeerHandle};
use herdr::app::runtime_mutations::{failure_message, peer_forward_error_message, RuntimeMutation};
use herdr::events::PeerWorktreeAnswer;
use herdr::public_id::{
    decode_public_number, encode_public_number, peer_workspace_of_pane_id,
    public_pane_id_for_number, public_workspace_number,
};
use herdr::terminal::{PeerViewState, RemoteView, TerminalSize};

const INSTANCE: &str = "0123456789abcdef0123456789abcdef";

fn peer_ws_id(local: &str) -> String {
    prefix_peer_id(INSTANCE, local)
}

fn json(text: &str) -> serde_json::Value {
    serde_json::from_str(text).expect("valid json")
}

fn view(target: &str) -> RemoteView {
    RemoteView {
        peer: "beta".to_string(),
        target: target.to_string(),
        instance: Some(INSTANCE.to_string()),
        spawned_on_peer: false,
        size: TerminalSize { rows: 24, cols: 80 },
        dead: None,
        connected: true,
        in_flight: false,
        backoff_over: true,
        refused: None,
        target_gone: false,
        announced: PeerViewState::Connected,
        metadata: None,
    }
}

#[test]
fn rename_response_rewrites_id_and_renamespaces_workspace_ids() {
    // What a peer returns for workspace.rename: its own request id and its own
    // peer-local workspace ids.
    let mut value = json(
        r#"{"id": "peer:forward", "result": {"workspace": {
            "workspace_id": "w1", "active_tab_id": "w1:t1", "label": "renamed"}}}"#,
    );
    rewrite_forwarded_response(&mut value, "caller-42", INSTANCE, true);

    assert_eq!(value["id"], "caller-42");
    assert_eq!(value["result"]["workspace"]["workspace_id"], peer_ws_id("w1"));
    assert_eq!(value["result"]["workspace"]["active_tab_id"], peer_ws_id("w1:t1"));
    // Unrelated fields are left untouched.
    assert_eq!(value["result"]["workspace"]["label"], "renamed");
}

#[test]
fn close_response_rewrites_only_the_id() {
    let mut value = json(r#"{"id": "peer:forward", "result": {}}"#);
    rewrite_forwarded_response(&mut value, "caller-42", INSTANCE, false);
    assert_eq!(value["id"], "caller-42");
    assert_eq!(value["result"], json("{}"));
}

#[test]
fn read_response_is_restated_in_local_ids() {
    // What a peer returns for pane.read: its own request id, its own ids, and the
    // screen text, which is the part we actually wanted.
    let mut value = json(
        r#"{"id": "peer:forward", "result": {"read": {
            "pane_id": "w1:p1", "workspace_id": "w1", "tab_id": "w1:t1",
            "source": "visible", "text": "PEER SCREEN", "truncated": false}}}"#,
    );
    rewrite_forwarded_read(
        &mut value,
        "caller-42",
        &LocalPaneIds {
            pane_id: "w7:p2".into(),
            workspace_id: "w7".into(),
            tab_id: "w7:t1".into(),
        },
    );

    assert_eq!(value["id"], "caller-42");
    // The caller asked about a pane on this server and must get an id it can use
    // again here, not the peer's.
    assert_eq!(value["result"]["read"]["pane_id"], "w7:p2");
    assert_eq!(value["result"]["read"]["workspace_id"], "w7");
    assert_eq!(value["result"]["read"]["tab_id"], "w7:t1");
    // The screen belongs to the peer and is reported verbatim.
    assert_eq!(value["result"]["read"]["text"], "PEER SCREEN");
    assert_eq!(value["result"]["read"]["truncated"], false);
}

#[test]
fn a_pane_named_in_an_answer_becomes_the_local_one() {
    let mut value = json(
        r#"{"id": "peer:forward", "result": {"read": {"pane_id": "w1:p1", "text": "x"}}}"#,
    );
    rewrite_forwarded_pane(&mut value, "caller-42", "read", "w7:p2");
    assert_eq!(
        value,
        json(r#"{"id": "caller-42", "result": {"read": {"pane_id": "w7:p2", "text": "x"}}}"#)
    );
    // A field that is not there is not made up.
    let mut value = json(r#"{"id": "peer:forward", "result": {}}"#);
    rewrite_forwarded_pane(&mut value, "caller-42", "read", "w7:p2");
    assert_eq!(value, json(r#"{"id": "caller-42", "result": {}}"#));
}

#[test]
fn explain_response_is_stamped_with_the_peer_that_answered() {
    // What a peer returns for agent.explain: its own request id, its own
    // manifest, and its own rule ids — none of which name a pane.
    let mut value = json(
        r#"{"id": "peer:forward", "result": {"explain": {
            "agent": "codex", "state": "working", "manifest_source": "bundled",
            "manifest_version": "3",
            "matched_rule": {"id": "live_working", "region": "bottom"},
            "evaluated_rules": [{"id": "live_working", "matched": true}]}}}"#,
    );
    rewrite_forwarded_explain(&mut value, "caller-42", &PeerHandle::new("beta"), "w1:p1");

    assert_eq!(value["id"], "caller-42");
    // The reasoning is the peer's and is reported verbatim.
    assert_eq!(value["result"]["explain"]["state"], "working");
    assert_eq!(value["result"]["explain"]["matched_rule"]["id"], "live_working");
    // Whose manifest and rule ids these are is the part that would otherwise be
    // missing, and the part that sends someone to the wrong config file.
    assert_eq!(value["result"]["explain"]["peer"], "beta");
    assert_eq!(value["result"]["explain"]["peer_pane_id"], "w1:p1");
}

#[test]
fn a_peer_refusing_to_explain_says_whose_pane_it_refused() {
    // The peer's message names the peer's own pane id, which means nothing on
    // this side until it says whose it is.
    let mut value = json(
        r#"{"id": "peer:forward", "error": {
            "code": "agent_explain_unavailable",
            "message": "agent target w1:p1 does not have a detected agent label"}}"#,
    );
    rewrite_forwarded_explain(&mut value, "caller-42", &PeerHandle::new("beta"), "w1:p1");

    assert_eq!(value["id"], "caller-42");
    assert_eq!(value["error"]["code"], "agent_explain_unavailable");
    assert_eq!(
        value["error"]["message"],
        "peer 'beta': agent target w1:p1 does not have a detected agent label"
    );
}

#[test]
fn a_done_agent_reads_as_idle_because_seen_is_a_local_fact() {
    assert_eq!(agent_state_from_status(AgentStatus::Done), AgentState::Idle);
    assert_eq!(agent_state_from_status(AgentStatus::Idle), AgentState::Idle);
    assert_eq!(agent_state_from_status(AgentStatus::Working), AgentState::Working);
    assert_eq!(agent_state_from_status(AgentStatus::Blocked), AgentState::Blocked);
    assert_eq!(agent_state_from_status(AgentStatus::Unknown), AgentState::Unknown);
}

#[test]
fn peer_split_response_yields_the_pane_the_peer_created() {
    let value = json(
        r#"{"id": "peer:forward", "result": {"pane": {"pane_id": "w1:p2", "terminal_id": "t7"}}}"#,
    );
    assert_eq!(
        peer_split_pane_id(&value, &PeerHandle::new("beta")),
        Ok("w1:p2".to_string())
    );
}

#[test]
fn peer_split_error_keeps_the_peers_own_code_and_message() {
    // The failure happened on the machine that owns the pane, so its wording is
    // what explains it.
    let value = json(
        r#"{"id": "peer:forward", "error": {
            "code": "pane_split_failed", "message": "no space to split"}}"#,
    );
    assert_eq!(
        peer_split_pane_id(&value, &PeerHandle::new("beta")),
        Err(ErrorBody {
            code: "pane_split_failed".to_string(),
            message: "no space to split".to_string(),
        })
    );
}

#[test]
fn peer_split_response_without_a_pane_id_is_unavailable() {
    let value = json(r#"{"id": "peer:forward", "result": {}}"#);
    let err = peer_split_pane_id(&value, &PeerHandle::new("beta")).unwrap_err();
    assert_eq!(err.code, "unavailable");
    assert!(err.message.contains("beta"), "{}", err.message);
}

#[test]
fn error_response_rewrites_the_id_without_touching_the_body() {
    // Ids are to be restated for a rename, but an error carries no `result`, so
    // there must simply be nothing to do.
    let mut value = json(
        r#"{"id": "peer:forward", "error": {
            "code": "workspace_not_found", "message": "workspace w1 not found"}}"#,
    );
    rewrite_forwarded_response(&mut value, "caller-42", INSTANCE, true);
    assert_eq!(value["id"], "caller-42");
    assert_eq!(value["error"]["code"], "workspace_not_found");
}

#[test]
fn peer_workspace_id_is_read_only_from_a_pane_id() {
    assert_eq!(peer_workspace_of_pane_id("w1:p2").as_deref(), Some("w1"));
    assert_eq!(peer_workspace_of_pane_id("w12:p34").as_deref(), Some("w12"));
    // A terminal id or an agent name names no workspace, and inventing one would
    // target the wrong thing rather than merely fail.
    assert_eq!(peer_workspace_of_pane_id("term_abc123"), None);
    assert_eq!(peer_workspace_of_pane_id("w1:t1"), None);
    assert_eq!(peer_workspace_of_pane_id("codex"), None);
    assert_eq!(peer_workspace_of_pane_id("w1:p"), None);
    assert_eq!(peer_workspace_of_pane_id(":p1"), None);
}

#[test]
fn every_pane_number_the_encoder_produces_recovers_its_workspace() {
    // 9 is the last single decimal digit, 10 the first that is not (`pA`), and 33
    // the first that carries into a second place.
    for number in [1usize, 9, 10, 33, 1024] {
        let id = public_pane_id_for_number("w1", number);
        assert_eq!(
            peer_workspace_of_pane_id(&id).as_deref(),
            Some("w1"),
            "pane {number} rendered as {id}"
        );
    }
}

#[test]
fn the_tenth_pane_is_pa_and_still_names_its_workspace() {
    assert_eq!(public_pane_id_for_number("w1", 10), "w1:pA");
    assert_eq!(
        peer_workspace_of_pane_id("w1:pA").as_deref(),
        Some("w1"),
        "a base32 pane number is still a pane number"
    );
}

#[test]
fn targets_that_are_not_pane_ids_name_no_workspace() {
    for target in [
        "w1:t1",     // a tab, not a pane
        "term_18d2", // a terminal id
        "codex",    // an agent name
        "w1:p",      // the prefix alone
        "w1:pa",     // lowercase is not in the alphabet
        "w1:pI",     // nor are the letters the alphabet omits
        ":p1",       // no workspace
        "w1:x1",     // not a pane prefix
    ] {
        assert_eq!(peer_workspace_of_pane_id(target), None, "{target} names no workspace");
    }
}

#[test]
fn numerals_read_back_as_their_number() {
    for n in [1usize, 9, 10, 32, 33, 34, 1024, 1056, 1057, usize::MAX] {
        assert_eq!(decode_public_number(&encode_public_number(n)), Some(n));
    }
    assert_eq!(encode_public_number(9), "9");
    assert_eq!(encode_public_number(10), "A");
    assert_eq!(decode_public_number(""), Some(0));
    assert_eq!(decode_public_number("i"), None);
    assert_eq!(public_workspace_number("wA"), Some(10));
    assert_eq!(public_workspace_number("A"), None);
}

fn peer_list_response() -> serde_json::Value {
    json(
        r#"{"id": "peer:forward", "result": {
            "source": {
                "repo_key": "repo-key", "repo_name": "herdr", "repo_root": "/home/b/herdr",
                "source_checkout_path": "/home/b/herdr", "source_workspace_id": "w1"},
            "worktrees": [
                {"path": "/home/b/herdr", "branch": "master", "is_bare": false,
                 "is_detached": false, "is_prunable": false, "is_linked_worktree": false,
                 "open_workspace_id": "w1", "label": "herdr"},
                {"path": "/home/b/worktrees/herdr/issue-3", "branch": "worktree/issue-3",
                 "is_bare": false, "is_detached": false, "is_prunable": false,
                 "is_linked_worktree": true, "open_workspace_id": "w4", "label": "herdr"},
                {"path": "/home/b/worktrees/herdr/spare", "branch": "worktree/spare",
                 "is_bare": false, "is_detached": false, "is_prunable": false,
                 "is_linked_worktree": true, "label": "herdr"}]}}"#,
    )
}

#[test]
fn a_forwarded_worktree_list_restates_every_workspace_id() {
    let mut value = peer_list_response();
    let local_ids = vec![("w1".to_string(), "w7".to_string())];

    rewrite_forwarded_worktree_list(&mut value, "req-9", "instance-b", &local_ids);

    assert_eq!(value["id"], "req-9");
    // Viewed here, so it names the local view.
    assert_eq!(value["result"]["source"]["source_workspace_id"], "w7");
    assert_eq!(value["result"]["worktrees"][0]["open_workspace_id"], "w7");
    // Open on the peer but not viewed here, so it names the peer's.
    assert_eq!(
        value["result"]["worktrees"][1]["open_workspace_id"],
        prefix_peer_id("instance-b", "w4")
    );
    // Not open anywhere: absent stays absent rather than becoming a guess.
    assert!(value["result"]["worktrees"][2].get("open_workspace_id").is_none());
    // The peer's paths and branches are its own and are reported verbatim.
    assert_eq!(value["result"]["worktrees"][0]["path"], "/home/b/herdr");
    assert_eq!(value["result"]["worktrees"][1]["branch"], "worktree/issue-3");
    assert_eq!(value["result"]["source"]["repo_root"], "/home/b/herdr");
}

#[test]
fn a_refused_worktree_list_keeps_the_peers_error() {
    let mut value = json(
        r#"{"id": "peer:forward", "error": {
            "code": "not_git_worktree", "message": "not a Git work tree"}}"#,
    );

    rewrite_forwarded_worktree_list(&mut value, "req-9", "instance-b", &Vec::new());

    assert_eq!(value["id"], "req-9");
    assert_eq!(value["error"]["code"], "not_git_worktree");
}

#[test]
fn peer_view_open_rejects_a_replacement_servers_terminal() {
    let mut expected = INSTANCE.as_bytes().to_vec();
    expected[0] = if expected[0] == b'0' { b'1' } else { b'0' };
    let expected = String::from_utf8(expected).unwrap();

    let error = open_peer_view(
        &PeerHandle::new("beta"),
        "w1:p1".into(),
        &expected,
        Ok(view("w1:p1")),
    )
    .expect_err("a terminal from another server must not be placed");
    assert_eq!(error.code, "server_replaced");
}

#[test]
fn a_connected_view_is_taken_when_its_server_is_the_one_meant() {
    let beta = PeerHandle::new("beta");
    let opened = open_peer_view(&beta, "w1:p1".into(), INSTANCE, Ok(view("w1:p1"))).expect("opened");
    assert_eq!(opened.local_target, "w1:p1");
    assert_eq!(opened.view, view("w1:p1"));
    let error = open_peer_view(&beta, "w1:p1".into(), INSTANCE, Err("refused".to_string()))
        .expect_err("not connected");
    assert_eq!(error.code, "unavailable");
    assert!(error.message.contains("refused"), "{}", error.message);

    // A pane made for a view is closed with it.
    let spawned = spawned_peer_view(&beta, "w1:p1", INSTANCE, Ok(view("w1:p1"))).expect("opened");
    assert!(spawned.spawned_on_peer);
    assert_eq!(
        spawned_peer_view(&beta, "w1:p1", "another", Ok(view("w1:p1")))
            .expect_err("another server")
            .code,
        "server_replaced"
    );

    assert_eq!(reconnected_view(Ok(view("w1:p1")), INSTANCE), Ok(view("w1:p1")));
    assert!(reconnected_view(Ok(view("w1:p1")), "another").is_err());
    assert_eq!(
        reconnected_view(Err("refused".to_string()), INSTANCE),
        Err("refused".to_string())
    );
}

fn pane(id: &str, focused: bool) -> PaneInfo {
    PaneInfo {
        pane_id: id.into(),
        terminal_id: format!("term_{id}"),
        focused,
        cwd: None,
        foreground_cwd: None,
        terminal_title: None,
        agent_osc_title: None,
        agent_osc_progress: None,
        agent: None,
        agent_status: AgentStatus::Unknown,
        keyboard_protocol: None,
    }
}

#[test]
fn a_workspace_is_viewed_through_one_of_its_panes() {
    assert_eq!(
        resolve_peer_workspace_pane(&vec![pane("w1:p1", false), pane("w1:p2", true)], "w1"),
        Ok("w1:p2".to_string())
    );
    assert_eq!(
        resolve_peer_workspace_pane(&vec![pane("w1:p1", false), pane("w1:p2", false)], "w1"),
        Ok("w1:p1".to_string())
    );
    assert!(resolve_peer_workspace_pane(&Vec::new(), "w1").is_err());
    let beta = PeerHandle::new("beta");
    assert_eq!(view_target(&beta, "w1:p1".into(), None), Ok("w1:p1".to_string()));
    assert_eq!(
        view_target(&beta, "w1".into(), Some(Ok("w1:p2".to_string()))),
        Ok("w1:p2".to_string())
    );
    assert!(view_target(&beta, "w1".into(), Some(Err("no pane".to_string()))).is_err());
}

#[test]
fn a_created_pane_is_read_from_the_answer() {
    let beta = PeerHandle::new("beta");
    let split = json(r#"{"result": {"pane": {"pane_id": "w1:p2"}}}"#);
    assert_eq!(request_peer_split_pane(Ok(split.clone()), &beta), Ok("w1:p2".to_string()));
    let created = json(r#"{"result": {"root_pane": {"pane_id": "w2:p1"}}}"#);
    assert_eq!(
        request_peer_created_pane(Ok(created.clone()), &beta),
        Ok("w2:p1".to_string())
    );
    assert_eq!(created_pane(Ok(created.clone()), "root_pane", &beta, "tab"), Ok("w2:p1".to_string()));
    assert_eq!(
        peer_pane_id_at(&created, "root_pane", &beta, "tab"),
        Ok("w2:p1".to_string())
    );
    assert!(request_peer_created_pane(Ok(split), &beta).is_err());
    assert_eq!(
        request_peer_split_pane(Err("reset".to_string()), &beta),
        Err(peer_request_failed("reset"))
    );
}

#[test]
fn a_tab_is_found_through_its_pane() {
    assert_eq!(
        peer_tab_of(&json(r#"{"result": {"pane": {"tab_id": "w1:t2"}}}"#), "w1:p1"),
        Ok("w1:t2".to_string())
    );
    assert!(peer_tab_of(&json(r#"{"result": {"pane": {}}}"#), "w1:p1").is_err());
}

#[test]
fn closing_a_pane_fails_only_where_the_peer_says_so() {
    assert_eq!(close_peer_pane(Ok(json(r#"{"result": {}}"#))), Ok(()));
    assert_eq!(
        close_peer_pane(Ok(json(r#"{"error": {"code": "x", "message": "busy"}}"#))),
        Err("busy".to_string())
    );
    assert!(close_peer_pane(Err("reset".to_string())).is_err());
}

fn checkout() -> WorktreeInfo {
    WorktreeInfo {
        path: "/home/b/worktrees/herdr/issue-3".into(),
        branch: Some("worktree/issue-3".into()),
        is_bare: false,
        is_detached: false,
        is_prunable: false,
        is_linked_worktree: true,
        open_workspace_id: Some("w4".into()),
        label: "herdr".into(),
    }
}

#[test]
fn a_worktree_answer_says_how_the_checkout_got_there() {
    let beta = PeerHandle::new("beta");
    let answer = json(r#"{"result": {"root_pane": {"pane_id": "w4:p1"}, "worktree": {}}}"#);
    assert_eq!(
        request_peer_worktree_view(Ok(answer.clone()), Some(checkout()), &beta, false),
        Ok(("w4:p1".to_string(), PeerWorktreeAnswer::Created { worktree: checkout() }))
    );
    assert!(matches!(
        request_peer_worktree_view(Ok(answer.clone()), Some(checkout()), &beta, true),
        Ok((_, PeerWorktreeAnswer::Opened { already_open: false, .. }))
    ));
    assert!(request_peer_worktree_view(Ok(answer), None, &beta, false).is_err());
    let refused = json(r#"{"error": {"code": "branch_exists", "message": "taken"}}"#);
    assert_eq!(
        request_peer_worktree_view(Ok(refused), None, &beta, false),
        Err(ErrorBody::of("branch_exists", "taken"))
    );
    let held = PeerWorktreeAnswer::Created { worktree: checkout() }.into_already_open();
    assert_eq!(held, PeerWorktreeAnswer::Opened { worktree: checkout(), already_open: true });

    assert_eq!(
        request_peer_worktree_removal(Ok(json(
            r#"{"result": {"path": "/home/b/x", "forced": true}}"#
        ))),
        Ok(("/home/b/x".to_string(), true))
    );
    assert_eq!(
        request_peer_worktree_removal(Ok(json(
            r#"{"error": {"code": "dirty", "message": "has changes"}}"#
        ))),
        Err(ErrorBody::of("dirty", "has changes"))
    );
}

#[test]
fn an_answer_is_restated_as_its_request_asks() {
    let reply = || json(r#"{"id": "peer:forward", "result": {"workspace": {"workspace_id": "w1"}}}"#);
    match answer_forwarded(Ok(reply()), &Restate::Workspace { remap_ids: true }, "c", INSTANCE) {
        Forwarded::Text(text) => {
            let value = json(&text);
            assert_eq!(value["id"], "c");
            assert_eq!(value["result"]["workspace"]["workspace_id"], peer_ws_id("w1"));
        }
        other => panic!("unexpected: {other:?}"),
    }
    assert_eq!(
        answer_forwarded(
            Err("reset".to_string()),
            &Restate::Workspace { remap_ids: true },
            "c",
            INSTANCE
        ),
        Forwarded::Refused(peer_request_failed("reset"))
    );
    let mut value = reply();
    restate_answer(
        &mut value,
        &Restate::Pane { field: "workspace".to_string(), local_pane_id: "w7:p1".to_string() },
        "c",
        INSTANCE,
    );
    assert_eq!(value["id"], "c");
    assert_eq!(value["result"]["workspace"]["workspace_id"], "w1");
}

#[test]
fn only_a_failure_of_a_forwarded_request_is_told() {
    assert_eq!(peer_forward_error_message(""), None);
    assert_eq!(peer_forward_error_message("not json"), None);
    assert_eq!(peer_forward_error_message(r#"{"id": "1", "result": {}}"#), None);
    assert_eq!(
        peer_forward_error_message(r#"{"error": {"message": "no such tab"}}"#).as_deref(),
        Some("no such tab")
    );
    assert_eq!(
        peer_forward_error_message(r#"{"error": {}}"#).as_deref(),
        Some("the peer refused the request")
    );
    assert_eq!(
        failure_message(&json(r#"{"error": {"message": 5}}"#)).as_deref(),
        Some("the peer refused the request")
    );
    assert_eq!(RuntimeMutation::Accepted.answered(), None);
    assert_eq!(RuntimeMutation::Answered("{}".to_string()).answered(), Some("{}"));
}
