//! Browser panes in the application.

use herdr::api::schema::browser::{BrowserNavigateParams, BrowserOpenParams};
use herdr::api::schema::requests::Direction;
use herdr::app::api::announce::Announcement;
use herdr::app::api::browser::{
    PaneArea, Resize, BROWSER_PANE_LABEL, BROWSER_STREAM_OWNER, MAX_BROWSER_PANES,
};
use herdr::app::api::peers::forward::Reply;
use herdr::app::browser_panes::HostCellSize;
use herdr::app::layout::FreshPane;
use herdr::app::state::{App, Pane, PaneId, Split, Tab, Workspace};
use herdr::browser::command::BrowserCommand;
use herdr::pane::state::PaneState;
use herdr::terminal::TerminalId;

fn terminal(n: u32) -> TerminalId {
    TerminalId::new(&format!("term_{n}"))
}

fn fresh(n: u32) -> FreshPane {
    FreshPane {
        id: PaneId::from_raw(n),
        public_id: format!("w1:p{n}"),
        terminal_id: terminal(n),
    }
}

fn app_with_workspace() -> App {
    let mut app = App::default();
    app.state.workspaces.push(Workspace {
        id: "w1".into(),
        public_id: "w1".into(),
        peer: None,
        peer_workspace: None,
        label: None,
        tabs: vec![Tab {
            public_id: "w1:t1".into(),
            panes: vec![Pane {
                id: PaneId::from_raw(1),
                public_id: "w1:p1".into(),
                state: PaneState::new(terminal(1)),
                split: None,
                label: None,
            }],
            custom_name: None,
        }],
        active_tab: 0,
        focused_pane: Some(PaneId::from_raw(1)),
    });
    app.state.terminals.push(terminal(1));
    app.state.active = Some(0);
    app
}

fn add_browser_pane(app: &mut App, n: u32) -> PaneId {
    let pane_id = PaneId::from_raw(n);
    app.state.workspaces[0].tabs[0].panes.push(Pane {
        id: pane_id,
        public_id: format!("w1:p{n}"),
        state: PaneState::new_browser(terminal(n)),
        split: Some(Split {
            from: PaneId::from_raw(1),
            direction: Direction::Horizontal,
            ratio: Some(0.5f32.to_bits()),
        }),
        label: Some(BROWSER_PANE_LABEL.to_string()),
    });
    app.state.terminals.push(terminal(n));
    pane_id
}

fn app_with_browser_pane() -> (App, PaneId) {
    let mut app = app_with_workspace();
    let pane_id = add_browser_pane(&mut app, 2);
    app.state.browser.actors.insert(pane_id, ());
    app.state.browser.streams.insert(pane_id, BROWSER_STREAM_OWNER.to_string());
    app.state.browser.layers.insert(pane_id, vec![0u8; 8]);
    (app, pane_id)
}

fn has_terminal(app: &App, id: &TerminalId) -> bool {
    app.state.terminals.iter().any(|known| known.is(id))
}

#[test]
fn browser_open_requires_kitty_graphics() {
    let mut app = App::default();
    assert!(!app.state.browser.graphics_enabled);

    let error = app
        .handle_browser_open(BrowserOpenParams { pane_id: None, url: None }, fresh(2))
        .expect_err("refused");

    // Without this the open would launch a real browser and poll it forever
    // behind a pane that can never draw its frames.
    assert_eq!(error.code, "feature_disabled");
    assert!(app.state.browser_pane_ids().is_empty());
    assert!(!app.state.browser.actors.has(PaneId::from_raw(2)));
}

#[test]
fn browser_daemon_exit_leaves_a_retryable_pane_in_place() {
    let (mut app, pane_id) = app_with_browser_pane();
    app.state
        .browser
        .input_events
        .push((pane_id, BrowserCommand::MouseDown { x: 1, y: 2 }));
    app.state.browser.viewports.insert(pane_id, (800, 600));

    app.handle_browser_daemon_exited(pane_id, "session died".to_string());

    // The pane keeps its slot and its identity so the same page can come back in
    // the same place; only the live session is gone.
    assert!(app.state.is_browser_pane(pane_id));
    assert_eq!(
        app.state.browser.errors.get(pane_id).map(String::as_str),
        Some("session died")
    );
    assert!(app.state.browser.streams.has(pane_id));

    assert!(!app.state.browser.actors.has(pane_id));
    assert!(!app.state.browser.viewports.has(pane_id));
    assert!(app.state.browser.input_events.is_empty());
    // The stale picture goes, so the pane shows the failure rather than a frozen
    // page.
    assert!(!app.state.browser.layers.has(pane_id));
}

#[test]
fn retrying_a_failed_pane_relaunches_it_on_the_last_url() {
    let (mut app, pane_id) = app_with_browser_pane();
    app.state.browser.urls.insert(pane_id, "https://example.com".to_string());
    app.handle_browser_daemon_exited(pane_id, "session died".to_string());

    let url = app.retry_browser_pane(pane_id).expect("the pane failed");
    let first = app.spawn_browser_actor(pane_id, url).expect("a page that may be shown");

    assert!(!app.state.browser.errors.has(pane_id));
    assert!(app.state.browser.actors.has(pane_id));
    // The relaunched session is sent back to the page the user was on, not left
    // on a blank one.
    assert_eq!(first, Some(BrowserCommand::Navigate("https://example.com".to_string())));
}

#[test]
fn a_retry_that_fails_says_why() {
    let (mut app, pane_id) = app_with_browser_pane();
    app.handle_browser_daemon_exited(pane_id, "session died".to_string());
    assert_eq!(app.retry_browser_pane(pane_id), Some(None));
    app.browser_retry_failed(pane_id, "no thread");
    assert!(app
        .state
        .browser
        .errors
        .get(pane_id)
        .is_some_and(|why| why.contains("no thread")));
}

#[test]
fn retrying_a_healthy_pane_does_nothing() {
    let (mut app, pane_id) = app_with_browser_pane();
    assert_eq!(app.retry_browser_pane(pane_id), None);
    // A stray retry must not tear down a working session.
    assert!(app.state.browser.actors.has(pane_id));
}

#[test]
fn viewport_is_pushed_once_per_geometry_change() {
    let (mut app, pane_id) = app_with_browser_pane();
    app.state.browser.cell_size = HostCellSize { width_px: 10, height_px: 20 };
    let mut areas = vec![PaneArea { id: pane_id, width: 40, height: 10 }];

    let sent = app.sync_browser_viewports(&areas);
    assert_eq!(sent, vec![Resize { pane_id, width: 400, height: 200 }]);
    for resize in sent {
        app.browser_viewport_sent(resize);
    }

    // Unchanged geometry must not spend another subprocess call.
    assert!(app.sync_browser_viewports(&areas).is_empty());

    areas[0].width = 20;
    assert_eq!(
        app.sync_browser_viewports(&areas),
        vec![Resize { pane_id, width: 200, height: 200 }]
    );
    // The pixels of a pane without a session are not counted.
    let large = HostCellSize { width_px: u32::MAX, height_px: 1 };
    app.state.browser.cell_size = large;
    let other = vec![PaneArea { id: PaneId::from_raw(77), width: 40, height: 10 }];
    assert!(app.sync_browser_viewports(&other).is_empty());
    // An unknown cell size tells nothing.
    app.state.browser.cell_size = HostCellSize { width_px: 0, height_px: 20 };
    assert!(app.sync_browser_viewports(&areas).is_empty());
}

#[test]
fn browser_open_is_capped() {
    let mut app = app_with_workspace();
    app.state.browser.graphics_enabled = true;
    for n in 0..MAX_BROWSER_PANES {
        add_browser_pane(&mut app, 2 + n as u32);
    }

    let error = app
        .handle_browser_open(BrowserOpenParams { pane_id: None, url: None }, fresh(99))
        .expect_err("refused");

    // Each browser pane is a full browser; an uncapped open loop takes the
    // machine down rather than doing anything useful.
    assert_eq!(error.code, "browser_pane_limit");
    assert_eq!(app.state.browser_pane_ids().len(), MAX_BROWSER_PANES);
}

#[test]
fn browser_pane_rollback_removes_the_pane_and_its_terminal() {
    let (mut app, pane_id) = app_with_browser_pane();

    app.rollback_browser_pane(0, pane_id);

    assert!(!has_terminal(&app, &terminal(2)));
    assert!(!app.state.is_browser_pane(pane_id));
    assert!(!app.state.browser.actors.has(pane_id));
    assert!(!app.state.browser.streams.has(pane_id));
    assert!(app.state.browser.shutdowns.is_empty());
    assert_eq!(app.state.workspaces[0].tabs[0].panes.len(), 1);
}

#[test]
fn a_browser_opens_beside_the_focused_pane() {
    let mut app = app_with_workspace();
    app.state.browser.graphics_enabled = true;
    let opening = app
        .handle_browser_open(
            BrowserOpenParams { pane_id: None, url: Some("https://example.com".into()) },
            fresh(2),
        )
        .expect("opened");
    assert_eq!(opening.ws_idx, 0);
    assert_eq!(opening.pane_id, PaneId::from_raw(2));
    let split = Split {
        from: PaneId::from_raw(1),
        direction: Direction::Horizontal,
        ratio: Some(0.5f32.to_bits()),
    };
    assert_eq!(opening.split, split);
    assert!(!app.state.session_dirty);
    let opened = app.finish_browser_open(opening, Ok(()));
    assert_eq!(
        opened.first,
        Some(BrowserCommand::Navigate("https://example.com".to_string()))
    );
    assert!(opened.ended.is_empty());
    assert_eq!(opened.undone, None);
    assert_eq!(
        opened.reply,
        Reply::Pane { ws_idx: 0, tab_idx: 0, pane_id: PaneId::from_raw(2), split }
    );
    assert_eq!(
        opened.events,
        vec![
            Announcement::PaneCreated { ws_idx: 0, pane_id: PaneId::from_raw(2) },
            Announcement::LayoutUpdated { ws_idx: 0, tab_idx: 0 },
        ]
    );
    assert!(app.state.session_dirty);
    let pane = &app.state.workspaces[0].tabs[0].panes[1];
    assert_eq!(pane.split, Some(split));
    assert_eq!(pane.label.as_deref(), Some("browser"));
    assert!(app.state.is_browser_pane(PaneId::from_raw(2)));
    assert_eq!(
        app.state.browser.streams.get(PaneId::from_raw(2)).map(String::as_str),
        Some(BROWSER_STREAM_OWNER)
    );

    // An actor that could not be started leaves nothing behind.
    let opening = app
        .handle_browser_open(BrowserOpenParams { pane_id: None, url: None }, fresh(3))
        .expect("opened");
    let opened = app.finish_browser_open(opening, Err("no thread".to_string()));
    assert!(matches!(opened.reply, Reply::Error(_)));
    assert!(opened.events.is_empty());
    assert_eq!(opened.undone, Some(PaneId::from_raw(3)));
    assert!(!app.state.is_browser_pane(PaneId::from_raw(3)));
    assert!(!has_terminal(&app, &terminal(3)));
}

#[test]
fn a_browser_opens_nowhere_without_a_pane_to_split() {
    let mut app = app_with_workspace();
    app.state.browser.graphics_enabled = true;
    let error = app
        .handle_browser_open(BrowserOpenParams { pane_id: Some("w9:p9".into()), url: None }, fresh(2))
        .expect_err("refused");
    assert_eq!(error.code, "pane_not_found");
    app.state.active = None;
    let error = app
        .handle_browser_open(BrowserOpenParams { pane_id: None, url: None }, fresh(2))
        .expect_err("refused");
    assert_eq!(error.code, "no_active_pane");
    assert_eq!(app.state.workspaces[0].tabs[0].panes.len(), 1);
}

#[test]
fn navigation_goes_to_a_browser_pane_that_takes_it() {
    let (mut app, pane_id) = app_with_browser_pane();
    let params = |pane: &str| BrowserNavigateParams { pane_id: pane.into(), url: "https://example.com".into() };
    assert_eq!(
        app.handle_browser_navigate(&params("w1:p2")),
        Ok((pane_id, BrowserCommand::Navigate("https://example.com".to_string())))
    );
    let code = |pane: &str| app.handle_browser_navigate(&params(pane)).expect_err("refused").code;
    assert_eq!(code("w1:p1"), "not_browser_pane");
    assert_eq!(code("w9:p9"), "pane_not_found");
    assert_eq!(app.browser_navigated(pane_id, "https://example.com", true), Ok(()));
    assert_eq!(
        app.state.browser.urls.get(pane_id).map(String::as_str),
        Some("https://example.com")
    );
    assert_eq!(
        app.browser_navigated(pane_id, "https://b", false).expect_err("gone").code,
        "browser_pane_gone"
    );
    assert_eq!(
        app.state.browser.urls.get(pane_id).map(String::as_str),
        Some("https://example.com")
    );
}

#[test]
fn a_refused_url_is_neither_sent_nor_remembered() {
    let (mut app, pane_id) = app_with_browser_pane();
    app.state.browser.graphics_enabled = true;
    app.state.browser.urls.insert(pane_id, "https://example.com".to_string());
    let flag = BrowserNavigateParams { pane_id: "w1:p2".into(), url: "--version".into() };
    let error = app.handle_browser_navigate(&flag).expect_err("refused");
    assert_eq!(error.code, "invalid_request");
    assert_eq!(error.message, "url must not start with '-': --version");
    assert_eq!(
        app.browser_navigated(pane_id, "--version", true).expect_err("refused").code,
        "invalid_request"
    );
    assert_eq!(
        app.spawn_browser_actor(pane_id, Some("javascript:alert(1)".to_string())),
        Err("unsupported url scheme: javascript:alert(1) (allowed: http://, https://, file://, \
             about:)"
            .to_string())
    );
    assert_eq!(
        app.state.browser.urls.get(pane_id).map(String::as_str),
        Some("https://example.com")
    );
    let error = app
        .handle_browser_open(
            BrowserOpenParams { pane_id: None, url: Some("-x".to_string()) },
            fresh(3),
        )
        .expect_err("refused");
    assert_eq!(error.code, "invalid_request");
    assert_eq!(app.state.workspaces[0].tabs[0].panes.len(), 2);
}

#[test]
fn a_bare_host_is_sent_and_remembered_with_its_scheme() {
    let (mut app, pane_id) = app_with_browser_pane();
    app.state.browser.graphics_enabled = true;
    let params = BrowserNavigateParams { pane_id: "w1:p2".into(), url: " example.com ".into() };
    assert_eq!(
        app.handle_browser_navigate(&params),
        Ok((pane_id, BrowserCommand::Navigate("https://example.com".to_string())))
    );
    assert_eq!(app.browser_navigated(pane_id, " example.com ", true), Ok(()));
    assert_eq!(
        app.state.browser.urls.get(pane_id).map(String::as_str),
        Some("https://example.com")
    );
    let opening = app
        .handle_browser_open(
            BrowserOpenParams { pane_id: None, url: Some("example.org".to_string()) },
            fresh(3),
        )
        .expect("opened");
    assert_eq!(opening.url.as_deref(), Some("https://example.org"));
    let opened = app.finish_browser_open(opening, Ok(()));
    assert_eq!(
        opened.first,
        Some(BrowserCommand::Navigate("https://example.org".to_string()))
    );
}

#[test]
fn only_what_changed_is_drawn() {
    let (mut app, pane_id) = app_with_browser_pane();
    let revision = app.state.browser.revision;
    assert!(app.handle_browser_frame(pane_id, vec![1, 2, 3]));
    assert_ne!(app.state.browser.revision, revision);
    assert_eq!(app.state.browser.layers.get(pane_id), Some(&vec![1, 2, 3]));
    // A pane that is gone draws nothing.
    assert!(!app.handle_browser_frame(PaneId::from_raw(99), vec![1]));
}

#[test]
fn input_reaches_the_panes_that_take_it() {
    let (mut app, pane_id) = app_with_browser_pane();
    let event = || BrowserCommand::TypeText("a".to_string());
    app.state.browser.input_events = vec![(pane_id, event()), (PaneId::from_raw(99), event())];
    assert_eq!(app.dispatch_browser_input_events(), vec![(pane_id, event())]);
    assert!(app.state.browser.input_events.is_empty());
}

#[test]
fn stopping_ends_every_session() {
    let (mut app, pane_id) = app_with_browser_pane();
    let calls = app.stop_all_browser_sessions("0123abcd");
    assert_eq!(calls.len(), 1);
    assert_eq!(
        calls[0].call.arguments,
        vec!["--session", "herdr-0123abcd-2", "--json", "close"]
    );
    assert_eq!(calls[0].screenshot, "herdr-browser-herdr-0123abcd-2.png");
    assert!(!app.state.browser.actors.has(pane_id));
}
