//! A client of the line-by-line JSON API.
//!
//! A client says what is written to a fresh connection and how long it may take,
//! and what is made of the line that comes back. Connecting, writing and reading
//! are left to whoever holds the connection.

use vstd::prelude::*;
use vstd::std_specs::cmp::PartialEqSpecImpl;

use crate::api::schema::responses::ErrorBody;
use crate::json::{encode, insert, is_object, parse, string};
use crate::paths::same_path;
use crate::text::{cat2, cat3, cat4, opt_clone, opt_eq, quoted, to_decimal, trim};

verus! {

/// Where an API is reached. Two socket paths are equal however they are spelled.
#[derive(Debug, Eq)]
pub enum ConnectionTarget {
    /// A session of this machine; without a name, the default one.
    LocalSession(Option<String>),
    SocketPath(String),
}

impl Clone for ConnectionTarget {
    fn clone(&self) -> (r: Self)
        ensures
            r == *self,
    {
        match self {
            ConnectionTarget::LocalSession(name) => ConnectionTarget::LocalSession(
                opt_clone(name),
            ),
            ConnectionTarget::SocketPath(path) => ConnectionTarget::SocketPath(path.clone()),
        }
    }
}

impl PartialEq for ConnectionTarget {
    fn eq(&self, other: &Self) -> (r: bool) {
        match (self, other) {
            (ConnectionTarget::LocalSession(a), ConnectionTarget::LocalSession(b)) => opt_eq(a, b),
            (ConnectionTarget::SocketPath(a), ConnectionTarget::SocketPath(b)) => same_path(
                a.as_str(),
                b.as_str(),
            ),
            _ => false,
        }
    }
}

impl PartialEqSpecImpl for ConnectionTarget {
    open spec fn obeys_eq_spec() -> bool {
        true
    }

    open spec fn eq_spec(&self, other: &Self) -> bool {
        match (*self, *other) {
            (
                ConnectionTarget::LocalSession(a),
                ConnectionTarget::LocalSession(b),
            ) => crate::text::opt_view(a) == crate::text::opt_view(b),
            (
                ConnectionTarget::SocketPath(a),
                ConnectionTarget::SocketPath(b),
            ) => crate::paths::is_same_path(a@, b@),
            _ => false,
        }
    }
}

/// Where the sockets of this machine's sessions are.
#[derive(Debug, PartialEq, Eq)]
pub struct SessionPaths {
    /// The default session's socket.
    pub default_socket: String,
    /// The directory the named sessions' directories are in.
    pub base_dir: String,
}

impl ConnectionTarget {
    /// The path of the target's socket.
    pub open spec fn path(self, paths: SessionPaths) -> Seq<char> {
        match self {
            ConnectionTarget::LocalSession(None) => paths.default_socket@,
            ConnectionTarget::LocalSession(Some(name)) => paths.base_dir@ + "/sessions/"@ + name@
                + "/herdr.sock"@,
            ConnectionTarget::SocketPath(path) => path@,
        }
    }
}

/// What went wrong with a connection.
#[derive(Debug, PartialEq, Eq)]
pub struct IoFailure {
    /// Whether nothing arrived in time, and nothing else is wrong.
    pub timed_out: bool,
    pub message: String,
}

/// An answer that refuses a request.
#[derive(Debug, PartialEq, Eq)]
pub struct ErrorResponse {
    pub id: String,
    pub error: ErrorBody,
}

/// What a request came to, as far as a client looks at it.
#[derive(Debug, PartialEq, Eq)]
pub enum ResponseResult {
    Pong {
        version: String,
        protocol: u32,
        /// What the server can do, as it was sent.
        capabilities: String,
        instance_id: Option<String>,
    },
    SubscriptionStarted,
    /// Any other result, as it reads.
    Other(String),
}

/// An answer that fulfils a request.
#[derive(Debug, PartialEq, Eq)]
pub struct SuccessResponse {
    pub id: String,
    pub result: ResponseResult,
}

/// An answer of either kind.
#[derive(Debug, PartialEq, Eq)]
pub enum WireResponse {
    Success(SuccessResponse),
    Error(ErrorResponse),
}

/// Why a request has no result.
#[derive(Debug, PartialEq, Eq)]
pub enum ApiClientError {
    Io(IoFailure),
    Json(String),
    ErrorResponse(ErrorResponse),
    EmptyResponse,
    UnexpectedResult(String),
}

impl ApiClientError {
    /// The message's text.
    pub open spec fn text(self) -> Seq<char> {
        match self {
            ApiClientError::Io(failure) => failure.message@,
            ApiClientError::Json(error) => error@,
            ApiClientError::ErrorResponse(response) => response.error.message@,
            ApiClientError::EmptyResponse => "empty api response"@,
            ApiClientError::UnexpectedResult(result) => "unexpected api result: "@ + result@,
        }
    }

    /// Why there is no result, for a reader.
    pub fn message(&self) -> (r: String)
        ensures
            r@ == self.text(),
    {
        match self {
            ApiClientError::Io(failure) => failure.message.clone(),
            ApiClientError::Json(error) => error.clone(),
            ApiClientError::ErrorResponse(response) => response.error.message.clone(),
            ApiClientError::EmptyResponse => "empty api response".to_owned(),
            ApiClientError::UnexpectedResult(result) => cat2(
                "unexpected api result: ",
                result.as_str(),
            ),
        }
    }
}

/// What a server says of itself.
#[derive(Debug, PartialEq, Eq)]
pub struct RuntimeStatus {
    pub version: Option<String>,
    pub protocol: Option<u32>,
    pub capabilities: String,
    pub instance_id: Option<String>,
}

/// What is done with a fresh connection: a line is written, and a line is read.
/// Times are in milliseconds; without one nothing is timed.
#[derive(Debug, PartialEq, Eq)]
pub struct Exchange {
    pub line: String,
    pub send_timeout_ms: Option<u64>,
    pub receive_timeout_ms: Option<u64>,
}

/// A request, for one instance only when one is named: a server that is another
/// instance refuses it.
pub open spec fn envelope(request: crate::json::Json, instance: Option<Seq<char>>) -> crate::json::Json {
    match instance {
        Some(id) => request.with("if_instance_id"@, crate::json::Json::Text(id)),
        None => request,
    }
}

/// The line a request is sent as.
pub open spec fn request_text(request: crate::json::Json, instance: Option<Seq<char>>) -> Seq<char> {
    crate::json::encoded(envelope(request, instance)) + "\n"@
}

/// The line a request is sent as.
pub fn write_request(request: serde_json::Value, if_instance_id: Option<&str>) -> (r: String)
    ensures
        r@ == request_text(
            crate::json::json(request),
            match if_instance_id {
                Some(id) => Some(id@),
                None => None,
            },
        ),
{
    let mut envelope = request;
    if let Some(id) = if_instance_id {
        if is_object(&envelope) {
            insert(&mut envelope, "if_instance_id", string(id));
        }
    }
    match encode(&envelope) {
        Ok(text) => cat2(text.as_str(), "\n"),
        Err(text) => text,
    }
}

/// A request for an instance names it, and says everything else the same request
/// says without it.
pub proof fn law_a_request_for_an_instance_names_it(
    fields: Map<Seq<char>, crate::json::Json>,
    id: Seq<char>,
    key: Seq<char>,
)
    ensures
        ({
            let request = crate::json::Json::Object(fields);
            let sent = envelope(request, Some(id));
            &&& sent.member("if_instance_id"@) == Some(crate::json::Json::Text(id))
            &&& key != "if_instance_id"@ ==> sent.member(key) == request.member(key)
            &&& envelope(request, None) == request
        }),
{
}

/// What is made of a line that was read, or of why none was.
pub open spec fn line_reads(
    read: Result<String, IoFailure>,
    r: Result<serde_json::Value, ApiClientError>,
) -> bool {
    match read {
        Err(failure) => r == Err::<serde_json::Value, ApiClientError>(ApiClientError::Io(failure)),
        Ok(line) => if crate::text::trimmed(line@).len() == 0 {
            r == Err::<serde_json::Value, ApiClientError>(ApiClientError::EmptyResponse)
        } else {
            match crate::json::parsed(line@) {
                Ok(value) => r is Ok && crate::json::json(r->Ok_0) == value,
                Err(error) => r is Err && r->Err_0 is Json && (r->Err_0)->Json_0@ == error,
            }
        },
    }
}

/// What is made of a line that was read. A closed connection gives an empty one.
pub fn read_json_line(read: Result<String, IoFailure>) -> (r: Result<
    serde_json::Value,
    ApiClientError,
>)
    ensures
        line_reads(read, r),
{
    let line = match read {
        Ok(line) => line,
        Err(failure) => {
            return Err(ApiClientError::Io(failure));
        },
    };
    if trim(line.as_str()).is_empty() {
        return Err(ApiClientError::EmptyResponse);
    }
    match parse(line.as_str()) {
        Ok(value) => Ok(value),
        Err(error) => Err(ApiClientError::Json(error)),
    }
}

/// What an answer comes to, once it was read as one.
pub fn parse_response_value(response: Result<WireResponse, String>) -> (r: Result<
    SuccessResponse,
    ApiClientError,
>)
    ensures
        r == match response {
            Ok(WireResponse::Success(success)) => Ok::<SuccessResponse, ApiClientError>(success),
            Ok(WireResponse::Error(error)) => Err::<SuccessResponse, ApiClientError>(
                ApiClientError::ErrorResponse(error),
            ),
            Err(error) => Err::<SuccessResponse, ApiClientError>(ApiClientError::Json(error)),
        },
{
    match response {
        Ok(WireResponse::Success(success)) => Ok(success),
        Ok(WireResponse::Error(error)) => Err(ApiClientError::ErrorResponse(error)),
        Err(error) => Err(ApiClientError::Json(error)),
    }
}

/// A result that was not the one asked for, as it reads: its name and its fields.
pub open spec fn result_text(result: ResponseResult) -> Seq<char> {
    match result {
        ResponseResult::Pong { version, protocol, capabilities, instance_id } => "Pong { version: "@
            + crate::text::debug_text(version@) + ", protocol: "@ + crate::text::decimal(
            protocol as nat,
        ) + ", capabilities: "@ + capabilities@ + ", instance_id: "@ + (match instance_id {
            Some(id) => "Some("@ + crate::text::debug_text(id@) + ")"@,
            None => "None"@,
        }) + " }"@,
        ResponseResult::SubscriptionStarted => "SubscriptionStarted"@,
        ResponseResult::Other(text) => text@,
    }
}

fn unexpected(result: ResponseResult) -> (r: ApiClientError)
    ensures
        r is UnexpectedResult,
        (r->UnexpectedResult_0)@ == result_text(result),
{
    ApiClientError::UnexpectedResult(
        match result {
            ResponseResult::Pong { version, protocol, capabilities, instance_id } => {
                let version = quoted(version.as_str());
                let protocol = to_decimal(protocol as u64);
                let id = match instance_id {
                    Some(id) => cat3("Some(", quoted(id.as_str()).as_str(), ")"),
                    None => "None".to_owned(),
                };
                let head = cat4(
                    "Pong { version: ",
                    version.as_str(),
                    ", protocol: ",
                    protocol.as_str(),
                );
                let head = cat3(head.as_str(), ", capabilities: ", capabilities.as_str());
                cat4(head.as_str(), ", instance_id: ", id.as_str(), " }")
            },
            ResponseResult::SubscriptionStarted => "SubscriptionStarted".to_owned(),
            ResponseResult::Other(text) => text,
        },
    )
}

/// A client of one API.
#[derive(Debug, PartialEq, Eq)]
pub struct ApiClient {
    pub target: ConnectionTarget,
}

impl Clone for ApiClient {
    fn clone(&self) -> (r: Self)
        ensures
            r == *self,
    {
        ApiClient { target: self.target.clone() }
    }
}

impl ApiClient {
    /// The client of this machine's default session.
    pub fn local() -> (r: Self)
        ensures
            r.target == ConnectionTarget::LocalSession(None),
    {
        Self::for_target(ConnectionTarget::LocalSession(None))
    }

    pub fn for_target(target: ConnectionTarget) -> (r: Self)
        ensures
            r.target == target,
    {
        ApiClient { target }
    }

    /// The path of the socket to connect to.
    pub fn socket_path(&self, paths: &SessionPaths) -> (r: String)
        ensures
            r@ == self.target.path(*paths),
    {
        match &self.target {
            ConnectionTarget::LocalSession(None) => paths.default_socket.clone(),
            ConnectionTarget::LocalSession(Some(name)) => cat4(
                paths.base_dir.as_str(),
                "/sessions/",
                name.as_str(),
                "/herdr.sock",
            ),
            ConnectionTarget::SocketPath(path) => path.clone(),
        }
    }

    /// A request that may take as long as it takes.
    pub fn request(&self, request: serde_json::Value) -> (r: Exchange)
        ensures
            r.line@ == request_text(crate::json::json(request), None),
            r.send_timeout_ms is None,
            r.receive_timeout_ms is None,
    {
        self.request_value(request)
    }

    /// An exchange without deadlines, whose answer is taken as it is.
    pub fn request_value(&self, request: serde_json::Value) -> (r: Exchange)
        ensures
            r.line@ == request_text(crate::json::json(request), None),
            r.send_timeout_ms is None,
            r.receive_timeout_ms is None,
    {
        Exchange {
            line: write_request(request, None),
            send_timeout_ms: None,
            receive_timeout_ms: None,
        }
    }

    /// A request that is given up when either direction takes too long.
    pub fn request_value_with_timeout(&self, request: serde_json::Value, timeout_ms: u64) -> (r:
        Exchange)
        ensures
            r.line@ == request_text(crate::json::json(request), None),
            r.send_timeout_ms == Some(timeout_ms),
            r.receive_timeout_ms == Some(timeout_ms),
    {
        Exchange {
            line: write_request(request, None),
            send_timeout_ms: Some(timeout_ms),
            receive_timeout_ms: Some(timeout_ms),
        }
    }

    /// A request that is answered only if the socket still belongs to this
    /// instance.
    pub fn request_value_for_instance_with_timeout(
        &self,
        request: serde_json::Value,
        instance_id: &str,
        timeout_ms: u64,
    ) -> (r: Exchange)
        ensures
            r.line@ == request_text(crate::json::json(request), Some(instance_id@)),
            r.send_timeout_ms == Some(timeout_ms),
            r.receive_timeout_ms == Some(timeout_ms),
    {
        Exchange {
            line: write_request(request, Some(instance_id)),
            send_timeout_ms: Some(timeout_ms),
            receive_timeout_ms: Some(timeout_ms),
        }
    }

    /// What a server says of itself, from its answer to a ping.
    pub fn status(response: Result<SuccessResponse, ApiClientError>) -> (r: Result<
        RuntimeStatus,
        ApiClientError,
    >)
        ensures
            match response {
                Err(error) => r == Err::<RuntimeStatus, ApiClientError>(error),
                Ok(success) => match success.result {
                    ResponseResult::Pong { version, protocol, capabilities, instance_id } => r
                        == Ok::<RuntimeStatus, ApiClientError>(
                        RuntimeStatus {
                            version: Some(version),
                            protocol: Some(protocol),
                            capabilities,
                            instance_id,
                        },
                    ),
                    _ => r is Err && r->Err_0 is UnexpectedResult
                        && (r->Err_0)->UnexpectedResult_0@ == result_text(success.result),
                },
            },
    {
        let success = match response {
            Ok(success) => success,
            Err(error) => {
                return Err(error);
            },
        };
        match success.result {
            ResponseResult::Pong { version, protocol, capabilities, instance_id } => Ok(
                RuntimeStatus {
                    version: Some(version),
                    protocol: Some(protocol),
                    capabilities,
                    instance_id,
                },
            ),
            other => Err(unexpected(other)),
        }
    }

    /// Opens a subscription. The connection stays open, and each event is a line
    /// of its own.
    ///
    /// The two times mean different things. The first is a deadline for the
    /// answer, which is an ordinary round trip; the second is how long a read
    /// waits after that before it looks around, and is no deadline at all.
    pub fn subscribe(
        &self,
        request: serde_json::Value,
        start_timeout_ms: u64,
        read_timeout_ms: u64,
    ) -> (r: (Exchange, SubscriptionStream))
        ensures
            r.0.line@ == request_text(crate::json::json(request), None),
            r.0.send_timeout_ms == Some(start_timeout_ms),
            r.0.receive_timeout_ms == Some(start_timeout_ms),
            r.1 == (SubscriptionStream { read_timeout_ms, started: false }),
    {
        (
            self.request_value_with_timeout(request, start_timeout_ms),
            SubscriptionStream { read_timeout_ms, started: false },
        )
    }

    /// Opens a subscription only if the socket still belongs to this instance.
    pub fn subscribe_for_instance(
        &self,
        request: serde_json::Value,
        instance_id: &str,
        start_timeout_ms: u64,
        read_timeout_ms: u64,
    ) -> (r: (Exchange, SubscriptionStream))
        ensures
            r.0.line@ == request_text(crate::json::json(request), Some(instance_id@)),
            r.0.send_timeout_ms == Some(start_timeout_ms),
            r.0.receive_timeout_ms == Some(start_timeout_ms),
            r.1 == (SubscriptionStream { read_timeout_ms, started: false }),
    {
        (
            self.request_value_for_instance_with_timeout(request, instance_id, start_timeout_ms),
            SubscriptionStream { read_timeout_ms, started: false },
        )
    }
}

/// A subscription's connection.
#[derive(Debug, PartialEq, Eq)]
pub struct SubscriptionStream {
    /// How long a read waits for an event.
    pub read_timeout_ms: u64,
    pub started: bool,
}

impl SubscriptionStream {
    /// Takes in the answer to the subscription. Returns how long each read after
    /// it waits: only now is the time for reads the one for events.
    pub fn start(&mut self, response: Result<SuccessResponse, ApiClientError>) -> (r: Result<
        u64,
        ApiClientError,
    >)
        ensures
            match response {
                Err(error) => r == Err::<u64, ApiClientError>(error) && *final(self) == *old(self),
                Ok(success) => if success.result is SubscriptionStarted {
                    r == Ok::<u64, ApiClientError>(old(self).read_timeout_ms) && *final(self) == (
                    SubscriptionStream { started: true, ..*old(self) })
                } else {
                    r is Err && r->Err_0 is UnexpectedResult && (r->Err_0)->UnexpectedResult_0@
                        == result_text(success.result) && *final(self) == *old(self)
                },
            },
    {
        let success = match response {
            Ok(success) => success,
            Err(error) => {
                return Err(error);
            },
        };
        match success.result {
            ResponseResult::SubscriptionStarted => {
                self.started = true;
                Ok(self.read_timeout_ms)
            },
            other => Err(unexpected(other)),
        }
    }

    /// What the next read gives. None means that no event arrived in time and the
    /// stream is healthy; a closed one is an empty answer.
    pub fn next_event(&self, read: Result<String, IoFailure>) -> (r: Result<
        Option<serde_json::Value>,
        ApiClientError,
    >)
        ensures
            match read {
                Err(failure) if failure.timed_out => r == Ok::<
                    Option<serde_json::Value>,
                    ApiClientError,
                >(None),
                _ => match r {
                    Ok(event) => event is Some && line_reads(
                        read,
                        Ok::<serde_json::Value, ApiClientError>(event->0),
                    ),
                    Err(error) => line_reads(read, Err::<serde_json::Value, ApiClientError>(error)),
                },
            },
    {
        match read_json_line(read) {
            Ok(event) => Ok(Some(event)),
            Err(ApiClientError::Io(failure)) => if failure.timed_out {
                Ok(None)
            } else {
                Err(ApiClientError::Io(failure))
            },
            Err(error) => Err(error),
        }
    }
}

} // verus!
