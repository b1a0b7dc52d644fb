//! The client of the API.

use herdr::api::client::{
    parse_response_value, read_json_line, write_request, ApiClient, ApiClientError,
    ConnectionTarget, ErrorResponse, IoFailure, ResponseResult, RuntimeStatus, SessionPaths,
    SubscriptionStream, SuccessResponse, WireResponse,
};
use herdr::api::schema::responses::ErrorBody;

fn paths() -> SessionPaths {
    SessionPaths {
        default_socket: "/home/me/.config/herdr/herdr.sock".to_string(),
        base_dir: "/home/me/.config/herdr".to_string(),
    }
}

fn request() -> serde_json::Value {
    let mut object = serde_json::Map::new();
    object.insert("id".to_string(), serde_json::Value::String("test:subscribe".to_string()));
    object.insert("method".to_string(), serde_json::Value::String("events.subscribe".to_string()));
    serde_json::Value::Object(object)
}

#[test]
fn local_session_target_resolves_named_session_socket() {
    let client = ApiClient::for_target(ConnectionTarget::LocalSession(Some("work".into())));
    assert!(client.socket_path(&paths()).ends_with("sessions/work/herdr.sock"));
}

#[test]
fn socket_path_target_uses_explicit_path() {
    let path = "/tmp/herdr-test.sock".to_string();
    let client = ApiClient::for_target(ConnectionTarget::SocketPath(path.clone()));
    assert_eq!(client.socket_path(&paths()), path);
}

#[test]
fn the_default_session_has_its_own_socket() {
    assert_eq!(ApiClient::local().socket_path(&paths()), "/home/me/.config/herdr/herdr.sock");
}

#[test]
fn a_slow_subscription_reply_is_bounded_by_the_start_timeout() {
    let client = ApiClient::for_target(ConnectionTarget::SocketPath("/tmp/a.sock".to_string()));
    let (exchange, mut stream) = client.subscribe(request(), 5000, 50);
    assert_eq!(exchange.send_timeout_ms, Some(5000));
    assert_eq!(exchange.receive_timeout_ms, Some(5000));
    // The poll interval takes over once the stream is there: no event is coming,
    // and that reads as "not yet" rather than as a broken stream.
    let wait = stream
        .start(Ok(SuccessResponse {
            id: "test:subscribe".to_string(),
            result: ResponseResult::SubscriptionStarted,
        }))
        .expect("started");
    assert_eq!(wait, 50);
    assert!(stream.started);
    let idle = Err(IoFailure { timed_out: true, message: "timed out".to_string() });
    assert!(matches!(stream.next_event(idle), Ok(None)));
}

#[test]
fn the_poll_interval_alone_would_not_survive_the_handshake() {
    let client = ApiClient::for_target(ConnectionTarget::SocketPath("/tmp/slow.sock".to_string()));
    let (exchange, mut stream) = client.subscribe(request(), 50, 50);
    assert_eq!(exchange.receive_timeout_ms, Some(50));
    // A time-out of the handshake is a failure; only later ones are idle polls.
    let late = IoFailure { timed_out: true, message: "timed out".to_string() };
    let reply = read_json_line(Err(late));
    let error = reply.expect_err("a 50ms deadline must not survive a 300ms reply");
    match stream.start(Err(error)) {
        Err(ApiClientError::Io(failure)) => assert!(failure.timed_out),
        other => panic!("expected a timed-out handshake, got {other:?}"),
    }
    assert!(!stream.started);
}

#[test]
fn a_request_for_an_instance_names_it() {
    assert_eq!(
        write_request(request(), Some("abc")),
        "{\"id\":\"test:subscribe\",\"if_instance_id\":\"abc\",\"method\":\"events.subscribe\"}\n"
    );
    assert_eq!(
        write_request(request(), None),
        "{\"id\":\"test:subscribe\",\"method\":\"events.subscribe\"}\n"
    );
    let client = ApiClient::local();
    assert_eq!(client.request(request()).line, write_request(request(), None));
    assert_eq!(client.request(request()).receive_timeout_ms, None);
    let timed = client.request_value_with_timeout(request(), 7);
    assert_eq!((timed.send_timeout_ms, timed.receive_timeout_ms), (Some(7), Some(7)));
    let bound = client.request_value_for_instance_with_timeout(request(), "abc", 7);
    assert_eq!(bound.line, write_request(request(), Some("abc")));
    let (exchange, stream) = client.subscribe_for_instance(request(), "abc", 9, 2);
    assert_eq!(exchange.line, bound.line);
    assert_eq!(stream, SubscriptionStream { read_timeout_ms: 2, started: false });
}

#[test]
fn a_line_is_read_as_what_it_is() {
    let value = read_json_line(Ok("{\"a\":1}\n".to_string())).expect("an object");
    assert!(value.is_object());
    assert!(matches!(read_json_line(Ok(String::new())), Err(ApiClientError::EmptyResponse)));
    assert!(matches!(read_json_line(Ok("  \n".to_string())), Err(ApiClientError::EmptyResponse)));
    assert!(matches!(read_json_line(Ok("{".to_string())), Err(ApiClientError::Json(_))));
    let broken = Err(IoFailure { timed_out: false, message: "reset".to_string() });
    assert!(matches!(read_json_line(broken), Err(ApiClientError::Io(_))));
}

#[test]
fn an_event_is_a_line_and_a_closed_stream_is_empty() {
    let stream = SubscriptionStream { read_timeout_ms: 50, started: true };
    assert!(matches!(stream.next_event(Ok("{\"event\":\"x\"}\n".to_string())), Ok(Some(_))));
    assert!(matches!(stream.next_event(Ok(String::new())), Err(ApiClientError::EmptyResponse)));
    let broken = Err(IoFailure { timed_out: false, message: "reset".to_string() });
    assert!(matches!(stream.next_event(broken), Err(ApiClientError::Io(_))));
}

fn pong() -> SuccessResponse {
    SuccessResponse {
        id: "api-client:status".to_string(),
        result: ResponseResult::Pong {
            version: "0.7.5".to_string(),
            protocol: 20,
            capabilities: "{}".to_string(),
            instance_id: Some("abc".to_string()),
        },
    }
}

#[test]
fn a_pong_is_a_status_and_nothing_else_is() {
    assert_eq!(
        ApiClient::status(Ok(pong())),
        Ok(RuntimeStatus {
            version: Some("0.7.5".to_string()),
            protocol: Some(20),
            capabilities: "{}".to_string(),
            instance_id: Some("abc".to_string()),
        })
    );
    let other = SuccessResponse {
        id: "1".to_string(),
        result: ResponseResult::Other("Ok".to_string()),
    };
    assert_eq!(
        ApiClient::status(Ok(other)),
        Err(ApiClientError::UnexpectedResult("Ok".to_string()))
    );
    let mut stream = SubscriptionStream { read_timeout_ms: 50, started: false };
    assert_eq!(
        stream.start(Ok(pong())),
        Err(ApiClientError::UnexpectedResult(
            "Pong { version: \"0.7.5\", protocol: 20, capabilities: {}, instance_id: Some(\"abc\") }"
                .to_string()
        ))
    );
    assert!(!stream.started);
    // A text is shown in quotes, with what needs it escaped.
    let odd = SuccessResponse {
        id: "1".to_string(),
        result: ResponseResult::Pong {
            version: "a\"b".to_string(),
            protocol: 1,
            capabilities: "Caps".to_string(),
            instance_id: None,
        },
    };
    assert_eq!(
        stream.start(Ok(odd)),
        Err(ApiClientError::UnexpectedResult(
            "Pong { version: \"a\\\"b\", protocol: 1, capabilities: Caps, instance_id: None }"
                .to_string()
        ))
    );
}

#[test]
fn two_spellings_of_a_socket_are_one_target() {
    let at = |path: &str| ConnectionTarget::SocketPath(path.to_string());
    assert_eq!(at("/tmp/a.sock"), at("/tmp//a.sock"));
    assert_ne!(at("/tmp/a.sock"), at("tmp/a.sock"));
    assert_ne!(at("work"), ConnectionTarget::LocalSession(Some("work".to_string())));
    assert_eq!(at("/tmp/a.sock").clone(), at("/tmp/a.sock"));
}

#[test]
fn every_failure_has_a_message() {
    let refused = ErrorResponse {
        id: "1".to_string(),
        error: ErrorBody::of("not_found", "no such pane"),
    };
    assert_eq!(
        parse_response_value(Ok(WireResponse::Error(refused))).expect_err("refused").message(),
        "no such pane"
    );
    assert_eq!(
        parse_response_value(Err("bad shape".to_string())).expect_err("bad").message(),
        "bad shape"
    );
    assert_eq!(parse_response_value(Ok(WireResponse::Success(pong()))), Ok(pong()));
    assert_eq!(ApiClientError::EmptyResponse.message(), "empty api response");
    assert_eq!(
        ApiClientError::UnexpectedResult("Ok".to_string()).message(),
        "unexpected api result: Ok"
    );
    assert_eq!(
        ApiClientError::Io(IoFailure { timed_out: false, message: "reset".to_string() }).message(),
        "reset"
    );
}
