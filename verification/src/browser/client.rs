//! Calls of the `agent-browser` program.
//!
//! Every action is one run of the program, scoped to one pane's browser by a
//! session name.

use vstd::prelude::*;

use crate::text::{cat3, to_decimal};

verus! {

/// The program that is run.
pub const BINARY: &'static str = "agent-browser";

/// What the program answered.
#[derive(Debug, PartialEq, Eq)]
pub struct Response {
    pub success: bool,
    /// Action-specific payload.
    pub data: Option<serde_json::Value>,
    pub error: Option<String>,
}

/// Why a run gave no answer.
#[derive(Debug, PartialEq, Eq)]
pub enum CallError {
    /// The program could not be started.
    Spawn(String),
    /// The program did not exit in time and was killed. Without this the calling
    /// thread would block forever on a wedged program.
    Timeout { seconds: u64 },
    /// The program printed something other than its answer. Carries the exit
    /// status and what was printed as an error, because the common case — a
    /// failure that printed nothing — says nothing by itself.
    Decode { status: String, stderr: String, source: String },
}

impl CallError {
    /// The message's text.
    pub open spec fn text(self) -> Seq<char> {
        match self {
            CallError::Spawn(error) => "failed to run agent-browser: "@ + error@,
            CallError::Timeout { seconds } => "agent-browser did not respond within "@
                + crate::text::decimal(seconds as nat) + "s"@,
            CallError::Decode { status, stderr, source } => {
                let head = "failed to decode agent-browser output ("@ + status@ + "): "@ + source@;
                if stderr@.len() == 0 {
                    head
                } else {
                    head + "; stderr: "@ + stderr@
                }
            },
        }
    }

    /// Why the run gave no answer, for a reader.
    pub fn message(&self) -> (r: String)
        ensures
            r@ == self.text(),
    {
        match self {
            CallError::Spawn(error) => crate::text::cat2(
                "failed to run agent-browser: ",
                error.as_str(),
            ),
            CallError::Timeout { seconds } => cat3(
                "agent-browser did not respond within ",
                to_decimal(*seconds).as_str(),
                "s",
            ),
            CallError::Decode { status, stderr, source } => {
                let mut out = crate::text::cat4(
                    "failed to decode agent-browser output (",
                    status.as_str(),
                    "): ",
                    source.as_str(),
                );
                if !stderr.as_str().is_empty() {
                    out.append("; stderr: ");
                    out.append(stderr.as_str());
                }
                out
            },
        }
    }
}

/// One run of the program: its arguments, and how long it may take.
#[derive(Debug, PartialEq, Eq)]
pub struct Call {
    pub arguments: Vec<String>,
    pub timeout_seconds: u64,
}

/// The contents of a list of texts.
pub open spec fn texts(list: Seq<String>) -> Seq<Seq<char>> {
    list.map_values(|s: String| s@)
}

/// The arguments of a run: the session, the answer's format, the global flags and
/// then the action. The flags come before the action because the program reads
/// them as its own and not as the action's.
pub open spec fn arguments(
    session: Seq<char>,
    flags: Seq<Seq<char>>,
    action: Seq<Seq<char>>,
) -> Seq<Seq<char>> {
    seq!["--session"@, session, "--json"@] + flags + action
}

fn push_all(out: &mut Vec<String>, more: Vec<String>)
    ensures
        texts(final(out)@) == texts(old(out)@) + texts(more@),
{
    let mut more = more;
    let ghost added = more@;
    out.append(&mut more);
    assert(texts(out@) =~= texts(old(out)@) + texts(added));
}

/// The run of an action in a session.
pub fn call(session: &str, flags: Vec<String>, action: Vec<String>, timeout_seconds: u64) -> (r: Call)
    ensures
        texts(r.arguments@) == arguments(session@, texts(flags@), texts(action@)),
        r.timeout_seconds == timeout_seconds,
{
    let mut out: Vec<String> = Vec::new();
    out.push("--session".to_owned());
    out.push(session.to_owned());
    out.push("--json".to_owned());
    assert(texts(out@) =~= seq!["--session"@, session@, "--json"@]);
    push_all(&mut out, flags);
    push_all(&mut out, action);
    Call { arguments: out, timeout_seconds }
}

/// The name of a session's screenshot file.
pub open spec fn screenshot_name(session: Seq<char>) -> Seq<char> {
    "herdr-browser-"@ + session + ".png"@
}

/// The name of the file a session's screenshots go to, one per session so that
/// polling leaves nothing behind. A session's name carries its server, so two
/// servers never share a file.
pub fn screenshot_file(session: &str) -> (r: String)
    ensures
        r@ == screenshot_name(session@),
{
    cat3("herdr-browser-", session, ".png")
}

} // verus!
