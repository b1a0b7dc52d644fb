//! What holds of the API's client and of the events it hands out.

use vstd::prelude::*;

use crate::api::client::{
    ApiClient, ApiClientError, ConnectionTarget, Exchange, IoFailure, RuntimeStatus, SessionPaths,
    SubscriptionStream, SuccessResponse, WireResponse,
};
use crate::api::event_hub::{EventBatch, EventHub};
use crate::api::schema::events::{EventEnvelope, EventKind};
use crate::json::json;

verus! {

/// A client connects to its own socket: the default session's, the named session's
/// under the sessions' directory, or the path it was given.
pub proof fn law_a_client_has_its_own_socket(
    client: ApiClient,
    paths: SessionPaths,
    r: String,
    local: ApiClient,
    made: ApiClient,
    target: ConnectionTarget,
)
    requires
        call_ensures(ApiClient::socket_path, (&client, &paths), r),
        call_ensures(ApiClient::local, (), local),
        call_ensures(ApiClient::for_target, (target,), made),
    ensures
        client.target == ConnectionTarget::LocalSession(None) ==> r@ == paths.default_socket@,
        client.target matches ConnectionTarget::LocalSession(Some(name)) ==> r@
            == paths.base_dir@ + "/sessions/"@ + name@ + "/herdr.sock"@,
        client.target matches ConnectionTarget::SocketPath(path) ==> r@ == path@,
        local.target == ConnectionTarget::LocalSession(None),
        made.target == target,
{
}

/// A request goes out as one line, the same whichever way it is sent; only what is
/// sent with a time is timed, in both directions alike.
pub proof fn law_requests_are_one_line(
    client: ApiClient,
    request: serde_json::Value,
    timeout: u64,
    wait: u64,
    id: &str,
    line: String,
    plain: Exchange,
    value: Exchange,
    timed: Exchange,
    opened: (Exchange, SubscriptionStream),
    guarded: Exchange,
    joined: (Exchange, SubscriptionStream),
    guarded_line: String,
)
    requires
        call_ensures(crate::api::client::write_request, (request, None), line),
        call_ensures(crate::api::client::write_request, (request, Some(id)), guarded_line),
        call_ensures(ApiClient::request, (&client, request), plain),
        call_ensures(ApiClient::request_value, (&client, request), value),
        call_ensures(ApiClient::request_value_with_timeout, (&client, request, timeout), timed),
        call_ensures(
            ApiClient::request_value_for_instance_with_timeout,
            (&client, request, id, timeout),
            guarded,
        ),
        call_ensures(ApiClient::subscribe, (&client, request, timeout, wait), opened),
        call_ensures(
            ApiClient::subscribe_for_instance,
            (&client, request, id, timeout, wait),
            joined,
        ),
    ensures
        line@ == crate::json::encoded(json(request)) + "\n"@,
        plain.line@ == line@ && value.line@ == line@ && timed.line@ == line@ && opened.0.line@
            == line@,
        guarded.line@ == guarded_line@ && joined.0.line@ == guarded_line@,
        guarded_line@ == crate::json::encoded(
            json(request).with("if_instance_id"@, crate::json::Json::Text(id@)),
        ) + "\n"@,
        plain.send_timeout_ms is None && plain.receive_timeout_ms is None,
        value.send_timeout_ms is None && value.receive_timeout_ms is None,
        timed.send_timeout_ms == Some(timeout) && timed.receive_timeout_ms == Some(timeout),
        guarded.send_timeout_ms == Some(timeout) && guarded.receive_timeout_ms == Some(timeout),
        opened.0.send_timeout_ms == Some(timeout) && opened.0.receive_timeout_ms == Some(timeout),
        joined.0.send_timeout_ms == Some(timeout) && joined.0.receive_timeout_ms == Some(timeout),
        opened.1.read_timeout_ms == wait && !opened.1.started,
        joined.1.read_timeout_ms == wait && !joined.1.started,
{
}

/// An answer that fulfils the request is handed on, one that refuses it is the error
/// it says, and one that cannot be read is told apart from both.
pub proof fn law_answers_are_told_apart(
    response: Result<WireResponse, String>,
    r: Result<SuccessResponse, ApiClientError>,
    text: String,
)
    requires
        call_ensures(crate::api::client::parse_response_value, (response,), r),
        r is Err ==> call_ensures(ApiClientError::message, (&r->Err_0,), text),
    ensures
        r is Ok == (response is Ok && response->Ok_0 is Success),
        response matches Ok(WireResponse::Success(success)) ==> r->Ok_0 == success,
        response matches Ok(WireResponse::Error(refusal)) ==> text@ == refusal.error.message@
            && r->Err_0 is ErrorResponse,
        response matches Err(error) ==> text@ == error@ && r->Err_0 is Json,
{
}

/// A line that was read is the value it says; an empty one is no answer, and a
/// failure stays the failure it was.
pub proof fn law_a_line_is_read(
    read: Result<String, IoFailure>,
    r: Result<serde_json::Value, ApiClientError>,
    text: String,
)
    requires
        call_ensures(crate::api::client::read_json_line, (read,), r),
        r is Err ==> call_ensures(ApiClientError::message, (&r->Err_0,), text),
    ensures
        read matches Err(failure) ==> r is Err && text@ == failure.message@,
        read matches Ok(line) ==> {
            &&& crate::text::trimmed(line@).len() == 0 ==> r is Err && text@
                == "empty api response"@
            &&& crate::text::trimmed(line@).len() > 0 ==> r is Ok == crate::json::parsed(
                line@,
            ) is Ok
            &&& r is Ok ==> crate::json::parsed(line@) == Ok::<crate::json::Json, Seq<char>>(
                json(r->Ok_0),
            )
        },
{
}

/// Only a pong says what a server is; it says it as it was sent.
pub proof fn law_only_a_pong_is_a_status(
    response: Result<SuccessResponse, ApiClientError>,
    r: Result<RuntimeStatus, ApiClientError>,
)
    requires
        call_ensures(ApiClient::status, (response,), r),
    ensures
        r is Ok == (response is Ok && response->Ok_0.result is Pong),
        r is Ok ==> r->Ok_0.version == Some(response->Ok_0.result->version) && r->Ok_0.protocol
            == Some(response->Ok_0.result->protocol) && r->Ok_0.instance_id
            == response->Ok_0.result->instance_id && r->Ok_0.capabilities
            == response->Ok_0.result->capabilities,
        response matches Err(error) ==> r == Err::<RuntimeStatus, ApiClientError>(error),
{
}

/// A subscription starts only when the server says so, and from then on reads wait
/// as long as was asked for.
pub proof fn law_a_subscription_starts_once_told(response: Result<SuccessResponse, ApiClientError>)
    ensures
        forall|stream: &mut SubscriptionStream, r: Result<u64, ApiClientError>| #[trigger]
            call_ensures(SubscriptionStream::start, (stream, response), r) ==> {
                &&& r is Ok == (response is Ok && response->Ok_0.result is SubscriptionStarted)
                &&& r is Ok ==> r->Ok_0 == (*stream).read_timeout_ms && (*final(stream)).started
                &&& r is Err ==> (*final(stream)).started == (*stream).started
                &&& (*final(stream)).read_timeout_ms == (*stream).read_timeout_ms
            },
{
}

/// A quiet stream is no failure: only a read that timed out gives no event.
pub proof fn law_a_quiet_stream_is_healthy(
    stream: SubscriptionStream,
    read: Result<String, IoFailure>,
    r: Result<Option<serde_json::Value>, ApiClientError>,
)
    requires
        call_ensures(SubscriptionStream::next_event, (&stream, read), r),
    ensures
        read is Err && read->Err_0.timed_out ==> r == Ok::<
            Option<serde_json::Value>,
            ApiClientError,
        >(None),
        read is Err && !read->Err_0.timed_out ==> r is Err && r->Err_0 is Io,
        read is Ok && crate::text::trimmed(read->Ok_0@).len() == 0 ==> r is Err
            && r->Err_0 is EmptyResponse,
        r is Ok && r->Ok_0 is Some ==> read is Ok && crate::json::parsed(read->Ok_0@) == Ok::<
            crate::json::Json,
            Seq<char>,
        >(json(r->Ok_0->0)),
{
}

/// A reader gets every retained event after the one it has read, in order and
/// numbered one after the other; how many there are is how many it has not read.
pub proof fn law_a_reader_gets_what_it_has_not_read(
    hub: EventHub,
    sequence: u64,
    now: u64,
    r: Vec<(u64, EventEnvelope)>,
    i: int,
)
    requires
        call_ensures(EventHub::current_sequence, (&hub,), now),
        call_ensures(EventHub::events_after, (&hub, sequence), r),
    ensures
        sequence >= now ==> r@.len() == 0,
        sequence < now && now - sequence <= 512 ==> r@.len() == now - sequence,
        sequence < now && now - sequence > 512 ==> r@.len() == 512,
        0 <= i < r@.len() ==> (r@[i]).0 == now - r@.len() + 1 + i,
        0 <= i < r@.len() ==> (r@[i]).1@ == hub@.retained[hub@.retained.len() - r@.len() + i],
{
    let entries = crate::api::event_hub::entries_view(r@);
    assert(entries.len() == r@.len());
    if 0 <= i < r@.len() {
        assert(entries[i] == ((r@[i]).0 as int, (r@[i]).1@));
    }
}

/// What is delivered is of the kind that was asked for, at most a batch of it, and
/// nothing is delivered to a reader that is current or too far behind.
pub proof fn law_a_batch_is_of_its_kind(
    hub: EventHub,
    sequence: u64,
    kind: EventKind,
    now: u64,
    r: Option<EventBatch>,
    i: int,
)
    requires
        call_ensures(EventHub::current_sequence, (&hub,), now),
        call_ensures(EventHub::matching_after, (&hub, sequence, kind), r),
    ensures
        r is None == (sequence >= now),
        (r is Some && r->0 is Gap) == (sequence < now && now - sequence > 512),
        r matches Some(EventBatch::Gap { oldest_retained, resume_at }) ==> oldest_retained
            == now - 511 && resume_at == now,
        r matches Some(EventBatch::Delivered { events, last_sequence }) ==> {
            &&& sequence < last_sequence <= now
            &&& events@.len() <= 64
            &&& last_sequence < now ==> events@.len() == 64
            &&& 0 <= i < events@.len() ==> events@[i]@.event == kind
        },
{
    if let Some(EventBatch::Delivered { events, last_sequence }) = r {
        crate::api::event_hub::law_polling_loses_nothing(hub@, sequence as int, kind);
        let view = crate::api::event_hub::events_view(events@);
        let tail = hub@.after(sequence as int);
        let n = crate::api::event_hub::scanned(tail, kind, 0);
        let p = crate::api::event_hub::of_kind(kind);
        assert(view == tail.take(n as int).filter(p));
        assert(view.len() == events@.len());
        if 0 <= i < events@.len() {
            tail.take(n as int).lemma_filter_pred(p, i);
            assert(view[i] == events@[i]@);
        }
    }
}

} // verus!
