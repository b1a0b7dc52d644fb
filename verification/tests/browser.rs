//! Sessions, keys and actors of browser panes.

use std::collections::hash_map::DefaultHasher;
use std::collections::VecDeque;
use std::hash::{Hash, Hasher};

use herdr::app::state::PaneId;
use herdr::browser::actor::{
    backed_off, coalesce, frame_fingerprint, opened, session_looks_dead, Captured, Poll,
    MAX_BATCHED_COMMANDS, MAX_CONSECUTIVE_SCREENSHOT_FAILURES, POLL_INTERVAL_MAX_MS,
    POLL_INTERVAL_MS,
};
use herdr::browser::client::{screenshot_file, CallError, Response};
use herdr::browser::command::BrowserCommand;
use herdr::browser::daemon::{
    applied, apply, apply_begin, is_complete_png, navigate, non_empty, ok_or_err, open, page_info,
    page_info_call, read_page, screenshot, screenshot_png, server_token, session_name, stop,
    Applying, ACTION_TIMEOUT_SECONDS, NAVIGATE_TIMEOUT_SECONDS, STOP_TIMEOUT_SECONDS,
};
use herdr::browser::keys::{command_for_key, KeyCode, KeyEvent, KeyEventKind, KeyModifiers};
use herdr::events::AppEvent;

const NONE: KeyModifiers =
    KeyModifiers { control: false, alt: false, shift: false, super_key: false, other: false };
const SHIFT: KeyModifiers =
    KeyModifiers { control: false, alt: false, shift: true, super_key: false, other: false };
const CONTROL: KeyModifiers =
    KeyModifiers { control: true, alt: false, shift: false, super_key: false, other: false };
const CONTROL_SHIFT: KeyModifiers =
    KeyModifiers { control: true, alt: false, shift: true, super_key: false, other: false };

fn key(code: KeyCode, modifiers: KeyModifiers) -> KeyEvent {
    KeyEvent { code, modifiers, kind: KeyEventKind::Press }
}

fn typed(code: KeyCode, mods: KeyModifiers) -> Option<String> {
    match command_for_key(&key(code, mods)) {
        Some(BrowserCommand::TypeText(text)) => Some(text),
        _ => None,
    }
}

fn pressed(code: KeyCode, mods: KeyModifiers) -> Option<String> {
    match command_for_key(&key(code, mods)) {
        Some(BrowserCommand::PressKey(name)) => Some(name),
        _ => None,
    }
}

fn text(value: &str) -> BrowserCommand {
    BrowserCommand::TypeText(value.to_string())
}

fn press(value: &str) -> BrowserCommand {
    BrowserCommand::PressKey(value.to_string())
}

#[test]
fn printable_characters_are_typed_not_pressed() {
    assert_eq!(typed(KeyCode::Char('a'), NONE).as_deref(), Some("a"));
    assert_eq!(typed(KeyCode::Char(' '), NONE).as_deref(), Some(" "));
    // Shift is already folded into the character; a chord would apply it twice.
    assert_eq!(typed(KeyCode::Char('A'), SHIFT).as_deref(), Some("A"));
}

#[test]
fn chords_become_named_presses() {
    assert_eq!(pressed(KeyCode::Char('a'), CONTROL).as_deref(), Some("Control+a"));
    assert_eq!(
        pressed(KeyCode::Char('c'), CONTROL_SHIFT).as_deref(),
        Some("Control+Shift+c")
    );
}

#[test]
fn special_keys_use_playwright_names() {
    assert_eq!(pressed(KeyCode::Enter, NONE).as_deref(), Some("Enter"));
    assert_eq!(pressed(KeyCode::Esc, NONE).as_deref(), Some("Escape"));
    assert_eq!(pressed(KeyCode::Left, NONE).as_deref(), Some("ArrowLeft"));
    assert_eq!(pressed(KeyCode::F(5), NONE).as_deref(), Some("F5"));
    // It arrives as a key of its own but means shift and tab.
    assert_eq!(pressed(KeyCode::BackTab, NONE).as_deref(), Some("Shift+Tab"));
}

#[test]
fn releases_and_unmapped_keys_produce_nothing() {
    let mut release = key(KeyCode::Char('a'), NONE);
    release.kind = KeyEventKind::Release;
    assert!(command_for_key(&release).is_none());
    assert!(command_for_key(&key(KeyCode::Other, NONE)).is_none());
}

#[test]
fn typing_bursts_merge_into_one_call() {
    let mut queue: VecDeque<BrowserCommand> = VecDeque::new();
    for c in ["e", "l", "l", "o"] {
        queue.push_back(text(c));
    }
    let batch = coalesce(text("h"), &mut queue);
    assert_eq!(batch, vec![text("hello")]);
    assert!(queue.is_empty());
}

#[test]
fn non_text_commands_keep_their_order_and_split_typing() {
    let mut queue: VecDeque<BrowserCommand> = VecDeque::new();
    queue.push_back(text("i"));
    queue.push_back(press("Enter"));
    queue.push_back(text("b"));
    queue.push_back(text("c"));
    let batch = coalesce(text("h"), &mut queue);
    // Merging across the Enter would submit "hibc" instead of "hi".
    assert_eq!(batch, vec![text("hi"), press("Enter"), text("bc")]);
}

#[test]
fn batching_is_bounded_so_frames_keep_flowing() {
    let mut queue: VecDeque<BrowserCommand> = VecDeque::new();
    for _ in 0..(MAX_BATCHED_COMMANDS * 2) {
        queue.push_back(press("Tab"));
    }
    let batch = coalesce(press("Tab"), &mut queue);
    assert_eq!(batch.len(), MAX_BATCHED_COMMANDS);
    assert_eq!(queue.len(), MAX_BATCHED_COMMANDS + 1);
}

#[test]
fn identical_frames_have_identical_fingerprints() {
    assert_eq!(frame_fingerprint(b"frame"), frame_fingerprint(b"frame"));
    assert_ne!(frame_fingerprint(b"frame"), frame_fingerprint(b"other"));
    // It is the hash of the bytes as a slice: their number, then the bytes.
    for data in [&b"frame"[..], &b""[..]] {
        let mut hasher = DefaultHasher::new();
        data.hash(&mut hasher);
        assert_eq!(frame_fingerprint(data), hasher.finish());
    }
}

#[test]
fn a_single_screenshot_failure_does_not_report_the_session_dead() {
    assert!(!session_looks_dead(0));
    assert!(!session_looks_dead(1));
    assert!(!session_looks_dead(MAX_CONSECUTIVE_SCREENSHOT_FAILURES - 1));
    assert!(session_looks_dead(MAX_CONSECUTIVE_SCREENSHOT_FAILURES));
    assert!(session_looks_dead(u32::MAX));
}

#[test]
fn idle_backoff_doubles_up_to_the_ceiling() {
    let mut interval = POLL_INTERVAL_MS;
    for _ in 0..10 {
        interval = backed_off(interval);
        assert!(interval <= POLL_INTERVAL_MAX_MS);
    }
    assert_eq!(interval, POLL_INTERVAL_MAX_MS);
    assert!(backed_off(POLL_INTERVAL_MS) > POLL_INTERVAL_MS);
    assert_eq!(backed_off(200), 400);
    assert_eq!(backed_off(1600), 2000);
}

#[test]
fn session_names_are_scoped_to_this_server() {
    let token = server_token(4242, 1_700_000_000_000_000_000);
    let one = session_name(&token, PaneId::from_raw(1));
    let two = session_name(&token, PaneId::from_raw(2));
    assert_ne!(one, two);
    // Pane ids restart in each server, so the token is what keeps two servers off
    // each other's browser.
    assert!(one.starts_with("herdr-"), "{one}");
    assert!(one.ends_with("-1"), "{one}");
    assert_eq!(token, server_token(4242, 1_700_000_000_000_000_000));
    assert_eq!(token.len(), 8);
    assert!(token.chars().all(|c| c.is_ascii_hexdigit() && !c.is_ascii_uppercase()));
    assert_ne!(token, server_token(4243, 1_700_000_000_000_000_000));
    assert_ne!(token, server_token(4242, 1_700_000_000_000_000_001));
    assert_eq!(session_name("0123abcd", PaneId::from_raw(17)), "herdr-0123abcd-17");
    assert_eq!(screenshot_file("herdr-0123abcd-17"), "herdr-browser-herdr-0123abcd-17.png");
}

fn png() -> Vec<u8> {
    let mut complete = vec![0x89, b'P', b'N', b'G', 0x0d, 0x0a, 0x1a, 0x0a];
    complete.extend_from_slice(b"payload");
    complete.extend_from_slice(&[b'I', b'E', b'N', b'D', 0xae, 0x42, 0x60, 0x82]);
    complete
}

#[test]
fn truncated_screenshots_are_rejected() {
    let complete = png();
    assert!(is_complete_png(&complete));

    assert!(!is_complete_png(&complete[..complete.len() - 1]));
    assert!(!is_complete_png(&complete[1..]));
    assert!(!is_complete_png(&[]));
}

fn success(data: Option<serde_json::Value>) -> Response {
    Response { success: true, data, error: None }
}

#[test]
fn a_capture_is_the_file_when_all_went_well() {
    assert_eq!(screenshot_png(Ok(success(None)), Ok(png())), Ok(png()));
    assert_eq!(
        screenshot_png(Ok(success(None)), Ok(vec![1, 2, 3])),
        Err("screenshot file is not a complete PNG".to_string())
    );
    assert_eq!(
        screenshot_png(Ok(success(None)), Err("gone".to_string())),
        Err("read screenshot: gone".to_string())
    );
    assert_eq!(
        screenshot_png(
            Ok(Response { success: false, data: None, error: None }),
            Ok(png())
        ),
        Err("screenshot failed".to_string())
    );
}

#[test]
fn a_failed_run_says_why() {
    assert_eq!(
        ok_or_err("navigate", Ok(Response { success: false, data: None, error: Some("no host".to_string()) })),
        Err("no host".to_string())
    );
    assert_eq!(
        ok_or_err("navigate", Err(CallError::Spawn("not found".to_string()))),
        Err("failed to run agent-browser: not found".to_string())
    );
    assert_eq!(
        CallError::Timeout { seconds: 15 }.message(),
        "agent-browser did not respond within 15s"
    );
    let decode = |stderr: &str| CallError::Decode {
        status: "exit status: 1".to_string(),
        stderr: stderr.to_string(),
        source: "EOF".to_string(),
    };
    assert_eq!(
        decode("").message(),
        "failed to decode agent-browser output (exit status: 1): EOF"
    );
    assert_eq!(
        decode("boom").message(),
        "failed to decode agent-browser output (exit status: 1): EOF; stderr: boom"
    );
}

#[test]
fn every_action_is_one_run_in_its_session() {
    let run = open("s");
    assert_eq!(run.arguments, vec!["--session", "s", "--json", "open"]);
    assert_eq!(run.timeout_seconds, NAVIGATE_TIMEOUT_SECONDS);
    let stopping = stop("s");
    assert_eq!(stopping.screenshot, "herdr-browser-s.png");
    let run = stopping.call;
    assert_eq!(run.arguments, vec!["--session", "s", "--json", "close"]);
    assert_eq!(run.timeout_seconds, STOP_TIMEOUT_SECONDS);
    let run = screenshot("s", "/tmp/a.png");
    assert_eq!(
        run.arguments,
        vec!["--session", "s", "--json", "--screenshot-format", "png", "screenshot", "/tmp/a.png"]
    );
    assert_eq!(run.timeout_seconds, ACTION_TIMEOUT_SECONDS);
    assert_eq!(
        page_info_call("s").arguments[3..],
        ["eval".to_string(), "JSON.stringify([location.href, document.title])".to_string()]
    );
}

fn actions(command: BrowserCommand) -> (String, Vec<Vec<String>>) {
    let (name, calls) = apply("s", &command);
    let calls = calls.expect("a command that may be applied");
    (
        name.to_string(),
        calls.into_iter().map(|call| call.arguments[3..].to_vec()).collect(),
    )
}

fn words(list: &[&str]) -> Vec<String> {
    list.iter().map(|word| word.to_string()).collect()
}

#[test]
fn commands_are_applied_by_their_runs() {
    assert_eq!(
        actions(BrowserCommand::Navigate("https://a".to_string())),
        ("navigate".to_string(), vec![words(&["goto", "https://a"])])
    );
    assert_eq!(
        actions(BrowserCommand::SetViewport { width: 800, height: 600 }),
        ("set viewport".to_string(), vec![words(&["set", "viewport", "800", "600"])])
    );
    // A button is pressed where the pointer was moved to.
    assert_eq!(
        actions(BrowserCommand::MouseDown { x: 3, y: -4 }),
        (
            "mouse down".to_string(),
            vec![words(&["mouse", "move", "3", "-4"]), words(&["mouse", "down", "left"])]
        )
    );
    assert_eq!(
        actions(BrowserCommand::MouseUp { x: 3, y: 4 }),
        (
            "mouse up".to_string(),
            vec![words(&["mouse", "move", "3", "4"]), words(&["mouse", "up", "left"])]
        )
    );
    assert_eq!(
        actions(BrowserCommand::MouseMove { x: 0, y: i32::MIN }),
        ("mouse move".to_string(), vec![words(&["mouse", "move", "0", "-2147483648"])])
    );
    // The program takes the vertical delta first.
    assert_eq!(
        actions(BrowserCommand::Scroll { delta_x: 1, delta_y: 2 }),
        ("scroll".to_string(), vec![words(&["mouse", "wheel", "2", "1"])])
    );
    assert_eq!(actions(text("hi")), ("type".to_string(), vec![words(&["keyboard", "type", "hi"])]));
    assert_eq!(actions(press("Enter")), ("press".to_string(), vec![words(&["press", "Enter"])]));
    assert_eq!(actions(BrowserCommand::Reload), ("reload".to_string(), vec![words(&["reload"])]));
    assert_eq!(actions(BrowserCommand::Back), ("back".to_string(), vec![words(&["back"])]));
    assert_eq!(
        actions(BrowserCommand::Forward),
        ("forward".to_string(), vec![words(&["forward"])])
    );
}

#[test]
fn a_refused_url_is_never_an_argument() {
    let (name, calls) = apply("s", &BrowserCommand::Navigate("--version".to_string()));
    assert_eq!(name, "navigate");
    assert_eq!(calls, Err("url must not start with '-': --version".to_string()));
    assert_eq!(
        actions(BrowserCommand::Navigate("localhost:3000".to_string())),
        ("navigate".to_string(), vec![words(&["goto", "https://localhost:3000"])])
    );
    assert_eq!(navigate("s", ""), Err("url is empty".to_string()));
}

fn page(result: &str) -> Response {
    let mut object = serde_json::Map::new();
    object.insert("result".to_string(), serde_json::Value::String(result.to_string()));
    success(Some(serde_json::Value::Object(object)))
}

#[test]
fn a_page_tells_its_address_and_title() {
    assert_eq!(
        page_info(Ok(page("[\"https://a/\",\"A page\"]"))),
        Ok((Some("https://a/".to_string()), Some("A page".to_string())))
    );
    // A blank one is none at all.
    assert_eq!(page_info(Ok(page("[\"about:blank\",\"  \"]"))), Ok((Some("about:blank".to_string()), None)));
    let refused = page_info(Ok(page("not a pair"))).expect_err("not a pair");
    assert!(refused.starts_with("decode page info: "), "{refused}");
    let refused = page_info(Ok(page("[\"one\"]"))).expect_err("too short");
    assert!(refused.starts_with("decode page info: "), "{refused}");
    assert_eq!(
        page_info(Ok(success(None))),
        Err("page info response had no result".to_string())
    );
    assert_eq!(
        page_info(Ok(success(Some(serde_json::Value::Null)))),
        Err("page info response had no result".to_string())
    );
    assert_eq!(
        page_info(Err(CallError::Timeout { seconds: 1 })),
        Err("agent-browser did not respond within 1s".to_string())
    );
    assert_eq!(
        read_page(Err("bad".to_string())),
        Err("decode page info: bad".to_string())
    );
    assert_eq!(
        read_page(Ok((" ".to_string(), "t".to_string()))),
        Ok((None, Some("t".to_string())))
    );
    assert_eq!(non_empty("x".to_string()), Some("x".to_string()));
}

#[test]
fn an_unchanged_page_is_reported_once_and_polled_less() {
    let pane = PaneId::from_raw(7);
    let mut poll = Poll::new();
    assert_eq!(poll.interval_ms, POLL_INTERVAL_MS);
    assert_eq!(
        poll.captured(pane, Ok(b"a".to_vec())),
        Captured::Report(AppEvent::BrowserFrame { pane_id: pane, data: b"a".to_vec() })
    );
    assert_eq!(poll.captured(pane, Ok(b"a".to_vec())), Captured::Quiet);
    assert_eq!(poll.interval_ms, 400);
    assert_eq!(poll.captured(pane, Ok(b"a".to_vec())), Captured::Quiet);
    assert_eq!(poll.interval_ms, 800);
    poll.received();
    assert_eq!(poll.interval_ms, POLL_INTERVAL_MS);
    assert_eq!(poll.captured(pane, Ok(b"a".to_vec())), Captured::Quiet);
    assert!(matches!(poll.captured(pane, Ok(b"b".to_vec())), Captured::Report(_)));
    assert_eq!(poll.interval_ms, POLL_INTERVAL_MS);
}

#[test]
fn only_failures_in_a_row_end_an_actor() {
    let pane = PaneId::from_raw(7);
    let mut poll = Poll::new();
    let fail = || Err("busy".to_string());
    for _ in 0..4 {
        assert_eq!(poll.captured(pane, fail()), Captured::Quiet);
    }
    assert!(matches!(poll.captured(pane, Ok(b"a".to_vec())), Captured::Report(_)));
    assert_eq!(poll.consecutive_failures, 0);
    for _ in 0..4 {
        assert_eq!(poll.captured(pane, fail()), Captured::Quiet);
    }
    assert_eq!(
        poll.captured(pane, fail()),
        Captured::Stop(AppEvent::BrowserDaemonExited { pane_id: pane, reason: "busy".to_string() })
    );
}

#[test]
fn a_session_that_cannot_be_opened_is_reported() {
    let pane = PaneId::from_raw(7);
    assert_eq!(opened(pane, Ok(())), None);
    assert_eq!(
        opened(pane, Err("no browser".to_string())),
        Some(AppEvent::BrowserDaemonExited { pane_id: pane, reason: "no browser".to_string() })
    );
}

#[test]
fn a_run_is_only_made_when_the_one_before_succeeded() {
    let (action, calls) = apply("s", &BrowserCommand::MouseDown { x: 1, y: 2 });
    let calls = calls.expect("two runs");
    let answered = |success: bool| Ok(Response { success, data: None, error: None });
    assert_eq!(apply_begin(&calls), Applying::Run(0));
    assert_eq!(applied(action, &calls, 0, answered(true)), Applying::Run(1));
    assert_eq!(applied(action, &calls, 1, answered(true)), Applying::Finished);
    // The button is not pressed where the pointer did not get to.
    assert_eq!(
        applied(action, &calls, 0, answered(false)),
        Applying::Failed("mouse down failed".to_string())
    );
    assert_eq!(
        applied(action, &calls, 0, Err(CallError::Timeout { seconds: 15 })),
        Applying::Failed(CallError::Timeout { seconds: 15 }.message())
    );
    assert_eq!(apply_begin(&Vec::new()), Applying::Finished);
}
