//! Peer commands of the command line.

use herdr::api::schema::browser::{BrowserNavigateParams, BrowserOpenParams, BrowserPaneTarget};
use herdr::api::schema::peers::{
    PeerAddParams, PeerConnectionKind, PeerInfo, PeerTargetSpec, PeerWorkspaceCreateParams,
    PeerWorkspaceOpenParams,
};
use herdr::api::schema::workspaces::{AgentStatus, WorkspaceInfo};
use herdr::cli::browser::{run_browser_command, BrowserCli};
use herdr::cli::peer::{
    add_begin, add_prepared, connect_added, connect_begin, connect_landing, connect_listed,
    connect_prepared, connect_waited, connection_summary, parse_json_flag, peer_add, peer_connect,
    peer_is_configured, peer_name_from_destination, peer_open, peer_table, peer_target_from_args,
    report_peers, run_peer_command, setup_prepared, target_summary, wait_for_connected_peer,
    AddCommand, AddStep, Awaited, ConnectCommand, ConnectStep, Landing, Misuse, PeerCommand,
    PeerReport, SetupReport, ADD_USAGE, CONNECT_USAGE, EXIT_FAILED, LIST_USAGE, OPEN_USAGE,
    REMOVE_USAGE, SETUP_USAGE,
};


#[test]
fn peer_target_needs_exactly_one_transport() {
    assert!(peer_target_from_args(None, None, None).is_err());
    assert!(
        peer_target_from_args(Some("/tmp/a.sock".into()), Some("host".into()), None).is_err()
    );
}

#[test]
fn socket_peer_rejects_session() {
    assert!(
        peer_target_from_args(Some("/tmp/a.sock".into()), None, Some("work".into())).is_err()
    );
    assert_eq!(
        peer_target_from_args(Some("/tmp/a.sock".into()), None, None),
        Ok(PeerTargetSpec::SocketPath {
            path: "/tmp/a.sock".into()
        })
    );
}

#[test]
fn ssh_peer_carries_its_session() {
    assert_eq!(
        peer_target_from_args(None, Some("host".into()), Some("work".into())),
        Ok(PeerTargetSpec::Ssh {
            destination: "host".into(),
            session: Some("work".into())
        })
    );
}

#[test]
fn peer_name_defaults_to_the_destination_host() {
    assert_eq!(peer_name_from_destination("spark343@brainiac"), "brainiac");
    assert_eq!(peer_name_from_destination("brainiac"), "brainiac");
    assert_eq!(
        peer_name_from_destination("spark343@192.168.0.2"),
        "192.168.0.2"
    );
    // A Host alias is already the name a user thinks in.
    assert_eq!(
        peer_name_from_destination("herdr-selftest"),
        "herdr-selftest"
    );
}

#[test]
fn peer_name_drops_a_port_and_brackets() {
    assert_eq!(peer_name_from_destination("me@host:2222"), "host");
    assert_eq!(peer_name_from_destination("me@[fe80::1]"), "fe80");
}

/// A destination that is nothing but a user part has no host to fall back
/// to, so the whole string stays rather than producing an empty peer name.
#[test]
fn peer_name_never_ends_up_empty() {
    assert_eq!(peer_name_from_destination("me@"), "me@");
}

#[test]
fn json_flag_rejects_stray_arguments() {
    assert_eq!(parse_json_flag(&[]), Ok(false));
    assert_eq!(parse_json_flag(&["--json".to_string()]), Ok(true));
    assert_eq!(parse_json_flag(&["--wat".to_string()]), Err(2));
}

#[test]
fn reconnecting_peers_show_their_attempt() {
    let peer = PeerInfo {
        name: "beta".into(),
        label: "beta".into(),
        target: PeerTargetSpec::SocketPath {
            path: "/tmp/b.sock".into(),
        },
        connection: PeerConnectionKind::Reconnecting,
        attempt: Some(3),
        error: None,
        instance_id: None,
        version: None,
        protocol: None,
        stale: true,
        failed_pane_cleanups: 0,
        workspaces: Vec::new(),
    };
    assert_eq!(connection_summary(&peer), "reconnecting #3");

    let connected = PeerInfo {
        connection: PeerConnectionKind::Connected,
        attempt: None,
        ..peer
    };
    assert_eq!(connection_summary(&connected), "connected");
}

#[test]
fn ssh_targets_read_as_destinations() {
    assert_eq!(
        target_summary(&PeerTargetSpec::Ssh {
            destination: "box".into(),
            session: None
        }),
        "ssh box"
    );
    assert_eq!(
        target_summary(&PeerTargetSpec::Ssh {
            destination: "box".into(),
            session: Some("work".into())
        }),
        "ssh box (session work)"
    );
}

fn args(list: &[&str]) -> Vec<String> {
    list.iter().map(|arg| arg.to_string()).collect()
}

fn ssh(destination: &str, session: Option<&str>) -> PeerTargetSpec {
    PeerTargetSpec::Ssh {
        destination: destination.to_string(),
        session: session.map(str::to_string),
    }
}

fn info(name: &str, connection: PeerConnectionKind) -> PeerInfo {
    PeerInfo {
        name: name.into(),
        label: name.into(),
        target: PeerTargetSpec::SocketPath { path: "/tmp/b.sock".into() },
        connection,
        attempt: None,
        error: None,
        instance_id: None,
        version: None,
        protocol: None,
        stale: true,
        failed_pane_cleanups: 0,
        workspaces: Vec::new(),
    }
}

fn listed(id: &str, focused: bool) -> WorkspaceInfo {
    WorkspaceInfo {
        workspace_id: id.to_string(),
        number: 1,
        label: id.to_string(),
        focused,
        pane_count: 1,
        tab_count: 1,
        active_tab_id: format!("{id}:t1"),
        agent_status: AgentStatus::Unknown,
        tokens: Vec::new(),
        worktree: None,
    }
}

#[test]
fn a_target_that_cannot_be_says_why() {
    assert_eq!(
        peer_target_from_args(None, None, None),
        Err("herdr peer add needs --socket PATH or --ssh DESTINATION".to_string())
    );
    assert_eq!(
        peer_target_from_args(Some("/tmp/a.sock".into()), Some("host".into()), None),
        Err("use either --socket or --ssh, not both".to_string())
    );
    assert_eq!(
        peer_target_from_args(Some("/tmp/a.sock".into()), None, Some("work".into())),
        Err("--peer-session applies to --ssh peers only".to_string())
    );
}

#[test]
fn an_added_peer_is_named_or_named_after_its_host() {
    assert_eq!(
        peer_add(&args(&["--ssh", "me@box:22", "--peer-session", "work", "-y"])),
        Ok(AddCommand {
            name: "box".to_string(),
            target: ssh("me@box:22", Some("work")),
            prepare: Some("me@box:22".to_string()),
            assume_yes: true,
            json: false,
        })
    );
    assert_eq!(
        peer_add(&args(&["beta", "--socket", "/tmp/b.sock", "--json"])),
        Ok(AddCommand {
            name: "beta".to_string(),
            target: PeerTargetSpec::SocketPath { path: "/tmp/b.sock".to_string() },
            prepare: None,
            assume_yes: false,
            json: true,
        })
    );
    assert_eq!(
        peer_add(&args(&["--ssh", "box", "--skip-ssh-check"])).map(|add| add.prepare),
        Ok(None)
    );
    // A socket has no host to be named after.
    assert_eq!(peer_add(&args(&["--socket", "/tmp/b.sock"])), Err(ADD_USAGE.to_string()));
    assert_eq!(
        peer_add(&args(&["beta", "--socket"])),
        Err("missing value for --socket".to_string())
    );
    assert_eq!(peer_add(&args(&["--ssh"])), Err("missing value for --ssh".to_string()));
    assert_eq!(
        peer_add(&args(&["--peer-session"])),
        Err("missing value for --peer-session".to_string())
    );
    assert_eq!(
        peer_add(&args(&["beta", "--session", "x"])),
        Err("unknown option: --session".to_string())
    );
    // The last of an option counts.
    assert_eq!(
        peer_add(&args(&["--ssh", "one", "--ssh", "two"])).map(|add| add.name),
        Ok("two".to_string())
    );
}

#[test]
fn a_connect_reads_its_options() {
    assert_eq!(
        peer_connect(&args(&["me@box", "--new", "--yes", "--peer-session", "work"])),
        Ok(ConnectCommand {
            destination: "me@box".to_string(),
            name: "box".to_string(),
            session: Some("work".to_string()),
            assume_yes: true,
            skip_ssh_check: false,
            new_workspace: true,
        })
    );
    assert_eq!(
        peer_connect(&args(&["me@box", "--name", "big-box", "--skip-ssh-check"]))
            .map(|connect| (connect.name, connect.skip_ssh_check)),
        Ok(("big-box".to_string(), true))
    );
    assert_eq!(peer_connect(&args(&[])), Err(CONNECT_USAGE.to_string()));
    assert_eq!(peer_connect(&args(&["--new"])), Err(CONNECT_USAGE.to_string()));
    assert_eq!(
        peer_connect(&args(&["box", "--name"])),
        Err("missing value for --name".to_string())
    );
    assert_eq!(
        peer_connect(&args(&["box", "--json"])),
        Err("unknown option: --json".to_string())
    );
}

#[test]
fn an_open_reads_its_options() {
    assert_eq!(
        peer_open(&args(&["w1:p1", "--peer", "beta", "--label", "x", "--focus", "--takeover"])),
        Ok(PeerWorkspaceOpenParams {
            target: "w1:p1".to_string(),
            name: Some("beta".to_string()),
            label: Some("x".to_string()),
            focus: true,
            takeover: true,
        })
    );
    assert_eq!(
        peer_open(&args(&["w1", "--focus", "--no-focus"])).map(|open| open.focus),
        Ok(false)
    );
    assert_eq!(peer_open(&args(&["--peer", "b"])), Err(OPEN_USAGE.to_string()));
    assert_eq!(
        peer_open(&args(&["w1", "--label"])),
        Err("missing value for --label".to_string())
    );
    assert_eq!(
        peer_open(&args(&["w1", "--what"])),
        Err("unknown option: --what".to_string())
    );
}

#[test]
fn peer_commands_are_told_apart() {
    assert_eq!(run_peer_command(&args(&[])), Err(Misuse::NoSuchCommand));
    assert_eq!(run_peer_command(&args(&["nope"])), Err(Misuse::NoSuchCommand));
    assert_eq!(run_peer_command(&args(&["--help"])), Ok(PeerCommand::Help));
    assert_eq!(
        run_peer_command(&args(&["list", "--json"])),
        Ok(PeerCommand::List { json: true })
    );
    assert_eq!(
        run_peer_command(&args(&["list", "x"])),
        Err(Misuse::Message(LIST_USAGE.to_string()))
    );
    assert_eq!(
        run_peer_command(&args(&["remove", "beta"])),
        Ok(PeerCommand::Remove { name: "beta".to_string(), json: false })
    );
    assert_eq!(
        run_peer_command(&args(&["remove", "beta", "extra"])),
        Err(Misuse::Message(REMOVE_USAGE.to_string()))
    );
    assert_eq!(
        run_peer_command(&args(&["setup-ssh", "box", "-y"])),
        Ok(PeerCommand::SetupSsh { destination: "box".to_string(), assume_yes: true })
    );
    assert_eq!(
        run_peer_command(&args(&["setup-ssh"])),
        Err(Misuse::Message(SETUP_USAGE.to_string()))
    );
    assert_eq!(
        run_peer_command(&args(&["setup-ssh", "box", "--no"])),
        Err(Misuse::Message("unknown option: --no".to_string()))
    );
    assert!(matches!(
        run_peer_command(&args(&["add", "--ssh", "box"])),
        Ok(PeerCommand::Add(_))
    ));
    assert!(matches!(run_peer_command(&args(&["open", "w1"])), Ok(PeerCommand::Open(_))));
    assert!(matches!(run_peer_command(&args(&["connect", "box"])), Ok(PeerCommand::Connect(_))));
}

#[test]
fn waiting_for_a_peer_ends_when_it_should() {
    let connected = vec![info("a", PeerConnectionKind::Error), info("b", PeerConnectionKind::Connected)];
    assert_eq!(wait_for_connected_peer(&connected, "b", false, 45), Awaited::Connected(1));
    assert_eq!(
        wait_for_connected_peer(&connected, "a", false, 45),
        Awaited::Failed("peer 'a' could not be reached".to_string())
    );
    assert_eq!(
        wait_for_connected_peer(&connected, "c", false, 45),
        Awaited::Failed("peer 'c' is no longer configured".to_string())
    );
    assert!(peer_is_configured(&connected, "a"));
    assert!(!peer_is_configured(&connected, "c"));
    let mut broken = info("a", PeerConnectionKind::Error);
    broken.error = Some("bad protocol".to_string());
    assert_eq!(
        wait_for_connected_peer(&vec![broken], "a", false, 45),
        Awaited::Failed("bad protocol".to_string())
    );
    let mut trying = info("a", PeerConnectionKind::Reconnecting);
    trying.error = Some("refused".to_string());
    let trying = vec![trying];
    assert_eq!(wait_for_connected_peer(&trying, "a", false, 45), Awaited::NotYet);
    assert_eq!(
        wait_for_connected_peer(&trying, "a", true, 45),
        Awaited::Failed("peer 'a' did not connect within 45s: refused".to_string())
    );
    assert_eq!(
        wait_for_connected_peer(&vec![info("a", PeerConnectionKind::Connecting)], "a", true, 45),
        Awaited::Failed("peer 'a' did not connect within 45s".to_string())
    );
}

#[test]
fn a_connect_lands_where_work_is() {
    let mut peer = info("b", PeerConnectionKind::Connected);
    let create = Landing::Create(PeerWorkspaceCreateParams {
        name: "b".to_string(),
        cwd: None,
        label: None,
        focus: true,
    });
    let open = |target: &str| {
        Landing::Open(PeerWorkspaceOpenParams {
            target: target.to_string(),
            name: Some("b".to_string()),
            label: None,
            focus: true,
            takeover: false,
        })
    };
    assert_eq!(connect_landing(&peer, "b", false), create);
    peer.workspaces = vec![listed("w1", false), listed("w2", false)];
    assert_eq!(connect_landing(&peer, "b", false), open("w1"));
    peer.workspaces = vec![listed("w1", false), listed("w2", true)];
    assert_eq!(connect_landing(&peer, "b", false), open("w2"));
    assert_eq!(connect_landing(&peer, "b", true), create);
}

#[test]
fn peers_are_shown_as_a_table() {
    let mut peer = info("beta", PeerConnectionKind::Reconnecting);
    peer.attempt = Some(3);
    peer.error = Some("refused".to_string());
    assert_eq!(
        peer_table(&vec![peer]),
        vec![
            "name                 connection       workspaces target".to_string(),
            "beta                 reconnecting #3  0          /tmp/b.sock".to_string(),
            "                     refused".to_string(),
        ]
    );
}

#[test]
fn an_answer_about_peers_is_shown_as_it_deserves() {
    let mut object = serde_json::Map::new();
    object.insert("error".to_string(), serde_json::Value::String("no".to_string()));
    let error = serde_json::Value::Object(object);
    assert_eq!(report_peers(&error, None, true), PeerReport::Raw);
    assert_eq!(report_peers(&error, None, false), PeerReport::Error("{\"error\":\"no\"}".to_string()));
    let fine = serde_json::Value::Object(serde_json::Map::new());
    assert_eq!(report_peers(&fine, None, false), PeerReport::Raw);
    assert_eq!(
        report_peers(&fine, Some(Vec::new()), false),
        PeerReport::Table(peer_table(&Vec::new()))
    );
}

#[test]
fn browser_commands_are_told_apart() {
    // A pane may be named by what stands for it; the name in requests is handed in.
    let named = |word: &&str| if *word == "p1" { "w1:p1".to_string() } else { word.to_string() };
    let browser = |words: &[&str]| {
        let panes: Vec<String> = words.iter().map(named).collect();
        run_browser_command(&args(words), &panes)
    };
    let pane = || BrowserPaneTarget { pane_id: "w1:p1".to_string() };
    assert_eq!(
        browser(&["open", "https://a", "--pane", "p1"]),
        Ok(BrowserCli::Open(BrowserOpenParams {
            pane_id: Some("w1:p1".to_string()),
            url: Some("https://a".to_string()),
        }))
    );
    assert_eq!(
        browser(&["open"]),
        Ok(BrowserCli::Open(BrowserOpenParams { pane_id: None, url: None }))
    );
    assert_eq!(
        browser(&["open", "--pane"]),
        Err(Misuse::Message("usage: herdr browser open [url] [--pane <pane_id>]".to_string()))
    );
    assert_eq!(
        browser(&["navigate", "p1", "https://a"]),
        Ok(BrowserCli::Navigate(BrowserNavigateParams {
            pane_id: "w1:p1".to_string(),
            url: "https://a".to_string(),
        }))
    );
    assert_eq!(
        browser(&["navigate", "p1"]),
        Err(Misuse::Message("usage: herdr browser navigate <pane_id> <url>".to_string()))
    );
    assert_eq!(browser(&["reload", "p1"]), Ok(BrowserCli::Reload(pane())));
    assert_eq!(browser(&["back", "w1:p1"]), Ok(BrowserCli::Back(pane())));
    assert_eq!(browser(&["forward", "w1:p1"]), Ok(BrowserCli::Forward(pane())));
    assert_eq!(browser(&["close", "w1:p1"]), Ok(BrowserCli::Close(pane())));
    assert_eq!(browser(&["info", "w1:p1"]), Ok(BrowserCli::Info(pane())));
    assert_eq!(
        browser(&["info"]),
        Err(Misuse::Message("usage: herdr browser info <pane_id>".to_string()))
    );
    assert_eq!(browser(&["help"]), Ok(BrowserCli::Help));
    assert_eq!(browser(&["what"]), Err(Misuse::NoSuchCommand));
    assert_eq!(browser(&[]), Err(Misuse::NoSuchCommand));
}

#[test]
fn a_connect_goes_from_ssh_to_a_workspace() {
    let connect = peer_connect(&args(&["me@box", "--peer-session", "work"])).expect("a command");
    assert_eq!(connect_begin(&connect), ConnectStep::Prepare);
    assert_eq!(connect_prepared(Ok(())), ConnectStep::List);
    assert_eq!(
        connect_prepared(Err("no key".to_string())),
        ConnectStep::Failed("no key".to_string())
    );
    assert_eq!(
        connect_listed(&connect, &Vec::new()),
        ConnectStep::Add(PeerAddParams {
            name: "box".to_string(),
            target: ssh("me@box", Some("work")),
        })
    );
    // A peer that is there already is not added again.
    let peers = vec![info("box", PeerConnectionKind::Connecting)];
    assert_eq!(connect_listed(&connect, &peers), ConnectStep::Wait);
    let refused: serde_json::Value =
        serde_json::from_str(r#"{"error": {"code": "x"}}"#).expect("json");
    assert_eq!(connect_added(&refused), ConnectStep::Failed(r#"{"code":"x"}"#.to_string()));
    let added: serde_json::Value = serde_json::from_str(r#"{"result": {}}"#).expect("json");
    assert_eq!(connect_added(&added), ConnectStep::Wait);
    assert_eq!(connect_waited(&connect, &peers, false), ConnectStep::Wait);
    assert_eq!(
        connect_waited(&connect, &peers, true),
        ConnectStep::Failed("peer 'box' did not connect within 45s".to_string())
    );
    let peers = vec![info("box", PeerConnectionKind::Connected)];
    assert!(matches!(
        connect_waited(&connect, &peers, true),
        ConnectStep::Land(Landing::Create(params)) if params.name == "box"
    ));
    let quick = peer_connect(&args(&["box", "--skip-ssh-check"])).expect("a command");
    assert_eq!(connect_begin(&quick), ConnectStep::List);
}

#[test]
fn a_command_ends_with_the_code_of_what_came_of_it() {
    let mut map = serde_json::Map::new();
    map.insert("error".to_string(), serde_json::Value::String("no".to_string()));
    let error = serde_json::Value::Object(map);
    let fine = serde_json::Value::Object(serde_json::Map::new());
    assert_eq!(report_peers(&error, None, true).exit_code(&error), 1);
    assert_eq!(report_peers(&error, None, false).exit_code(&error), 1);
    assert_eq!(report_peers(&fine, None, true).exit_code(&fine), 0);
    assert_eq!(report_peers(&fine, Some(Vec::new()), false).exit_code(&fine), 0);
    assert_eq!(run_peer_command(&args(&["no-such"])).expect_err("misused").exit_code(), 2);
    assert_eq!(EXIT_FAILED, 1);
}

#[test]
fn an_ssh_peer_is_prepared_before_it_is_added() {
    let read = |words: &[&str]| match run_peer_command(&args(words)) {
        Ok(PeerCommand::Add(add)) => add,
        other => panic!("unexpected: {other:?}"),
    };
    let checked = read(&["add", "far", "--ssh", "host"]);
    assert_eq!(add_begin(&checked), AddStep::Prepare("host".to_string()));
    assert_eq!(add_begin(&read(&["add", "near", "--socket", "/tmp/a.sock"])), AddStep::Send);
    let unchecked = read(&["add", "far", "--ssh", "host", "--skip-ssh-check"]);
    assert_eq!(add_begin(&unchecked), AddStep::Send);
    assert_eq!(add_prepared(Ok(())), AddStep::Send);
    assert_eq!(add_prepared(Err("no key".to_string())), AddStep::Failed("no key".to_string()));
}

#[test]
fn a_destination_that_was_set_up_may_be_added() {
    let ready = setup_prepared("host", Ok(()));
    assert_eq!(ready, SetupReport::Ready("host is ready to be added as a peer".to_string()));
    assert_eq!(ready.exit_code(), 0);
    let failed = setup_prepared("host", Err("no key".to_string()));
    assert_eq!(failed, SetupReport::Failed("no key".to_string()));
    assert_eq!(failed.exit_code(), 1);
}
