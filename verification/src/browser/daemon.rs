//! Actions on one pane's browser session.
//!
//! A session runs on its own once it was opened, so it is started and stopped
//! explicitly and ends with nothing else.

use std::collections::hash_map::DefaultHasher;
use std::hash::Hasher;

use vstd::prelude::*;
use vstd::std_specs::hash::DefaultHasherAdditionalSpecFns;

use crate::app::state::PaneId;
use crate::browser::client::{call, Call, CallError, Response};
use crate::browser::command::BrowserCommand;
use crate::browser::url::normalize;
use crate::json::{as_str, get, parse_string_pair};
use crate::text::{cat2, cat4, to_decimal, to_signed_decimal, trim};

verus! {

/// Bound for input and capture actions, in seconds. These normally return in tens
/// of milliseconds; anything near this is a wedged session, not slow work.
pub const ACTION_TIMEOUT_SECONDS: u64 = 15;

/// Bound for actions that wait on a page load, in seconds.
pub const NAVIGATE_TIMEOUT_SECONDS: u64 = 60;

/// Bound for stopping, in seconds. Deliberately short: it runs once per live pane
/// while the server shuts down.
pub const STOP_TIMEOUT_SECONDS: u64 = 5;

/// The bytes of a number, the highest first.
pub open spec fn big_endian(n: u32) -> Seq<u8> {
    seq![
        (n / 0x100_0000) as u8,
        (n / 0x1_0000 % 0x100) as u8,
        (n / 0x100 % 0x100) as u8,
        (n % 0x100) as u8,
    ]
}

/// What tells servers apart: eight digits that depend on the process and on when
/// it started.
pub open spec fn token(pid: u32, nanos: u128) -> Seq<char> {
    let hash = DefaultHasher::spec_finish(
        seq![
            vstd::bytes::spec_u32_to_le_bytes(pid),
            vstd::bytes::spec_u128_to_le_bytes(nanos),
        ],
    );
    crate::instance_id::hex(big_endian((hash % 0x1_0000_0000) as u32))
}

/// The name of a pane's session on the server with this token.
pub open spec fn session(token: Seq<char>, pane: u32) -> Seq<char> {
    "herdr-"@ + token + "-"@ + crate::text::decimal(pane as nat)
}

/// The token mixed into every session name of one server.
///
/// Pane ids restart in each server, so a name derived from the pane id alone
/// collides across two servers: both would drive the same browser. The time keeps
/// a recycled process id from adopting a crashed server's session.
pub fn server_token(pid: u32, nanos: u128) -> (r: String)
    ensures
        r@ == token(pid, nanos),
        r@.len() == 8,
{
    let mut hasher = DefaultHasher::new();
    let pid_bytes = vstd::bytes::u32_to_le_bytes(pid);
    let nanos_bytes = vstd::bytes::u128_to_le_bytes(nanos);
    hasher.write(pid_bytes.as_slice());
    hasher.write(nanos_bytes.as_slice());
    assert(hasher@ =~= seq![
        vstd::bytes::spec_u32_to_le_bytes(pid),
        vstd::bytes::spec_u128_to_le_bytes(nanos),
    ]);
    let n: u32 = (hasher.finish() % 0x1_0000_0000) as u32;
    let mut bytes: Vec<u8> = Vec::new();
    bytes.push((n / 0x100_0000) as u8);
    bytes.push((n / 0x1_0000 % 0x100) as u8);
    bytes.push((n / 0x100 % 0x100) as u8);
    bytes.push((n % 0x100) as u8);
    assert(bytes@ =~= big_endian(n));
    assert(bytes@.take(4) =~= bytes@);
    crate::instance_id::hex_of(&bytes, 4)
}

/// The name of a pane's session on the server with this token.
pub fn session_name(token: &str, pane_id: PaneId) -> (r: String)
    ensures
        r@ == session(token@, pane_id.number()),
{
    cat4("herdr-", token, "-", to_decimal(pane_id.raw() as u64).as_str())
}

/// Two sessions have one name only when they are one pane's on one server.
pub proof fn law_session_names_are_distinct(a: Seq<char>, i: u32, b: Seq<char>, j: u32)
    requires
        a.len() == b.len(),
        session(a, i) == session(b, j),
    ensures
        a == b && i == j,
{
    reveal_strlit("herdr-");
    reveal_strlit("-");
    let s = session(a, i);
    let t = session(b, j);
    let n = a.len() as int;
    assert(s.subrange(6, 6 + n) =~= a);
    assert(t.subrange(6, 6 + n) =~= b);
    assert(s.skip(7 + n) =~= crate::text::decimal(i as nat));
    assert(t.skip(7 + n) =~= crate::text::decimal(j as nat));
    crate::text::law_decimals_are_unique(i as nat, j as nat);
}

/// What a run came to: the answer when it reports success, else what is said of
/// the failure.
pub open spec fn succeeded(
    action: Seq<char>,
    result: Result<Response, CallError>,
) -> Option<Seq<char>> {
    match result {
        Ok(response) => if response.success {
            None
        } else {
            Some(
                match response.error {
                    Some(error) => error@,
                    None => action + " failed"@,
                },
            )
        },
        Err(error) => Some(error.text()),
    }
}

/// The answer of a run, or why it failed.
pub fn ok_or_err(action: &str, result: Result<Response, CallError>) -> (r: Result<Response, String>)
    ensures
        match succeeded(action@, result) {
            None => result is Ok && r == Ok::<Response, String>(result->Ok_0),
            Some(reason) => r matches Err(text) && text@ == reason,
        },
{
    match result {
        Ok(response) => if response.success {
            Ok(response)
        } else {
            match response.error {
                Some(error) => Err(error),
                None => Err(cat2(action, " failed")),
            }
        },
        Err(error) => Err(error.message()),
    }
}

fn words1(a: &str) -> (r: Vec<String>)
    ensures
        crate::browser::client::texts(r@) == seq![a@],
{
    let mut out: Vec<String> = Vec::new();
    out.push(a.to_owned());
    assert(crate::browser::client::texts(out@) =~= seq![a@]);
    out
}

fn words2(a: &str, b: &str) -> (r: Vec<String>)
    ensures
        crate::browser::client::texts(r@) == seq![a@, b@],
{
    let mut out = words1(a);
    let ghost before = out@;
    out.push(b.to_owned());
    assert(crate::browser::client::texts(out@) =~= crate::browser::client::texts(before).push(b@));
    out
}

fn words3(a: &str, b: &str, c: &str) -> (r: Vec<String>)
    ensures
        crate::browser::client::texts(r@) == seq![a@, b@, c@],
{
    let mut out = words2(a, b);
    let ghost before = out@;
    out.push(c.to_owned());
    assert(crate::browser::client::texts(out@) =~= crate::browser::client::texts(before).push(c@));
    out
}

fn words4(a: &str, b: &str, c: &str, d: &str) -> (r: Vec<String>)
    ensures
        crate::browser::client::texts(r@) == seq![a@, b@, c@, d@],
{
    let mut out = words3(a, b, c);
    let ghost before = out@;
    out.push(d.to_owned());
    assert(crate::browser::client::texts(out@) =~= crate::browser::client::texts(before).push(d@));
    out
}

/// The call runs this action in this session, within this time.
pub open spec fn runs(call: Call, session: Seq<char>, action: Seq<Seq<char>>, seconds: u64) -> bool {
    &&& crate::browser::client::texts(call.arguments@) == crate::browser::client::arguments(
        session,
        Seq::empty(),
        action,
    )
    &&& call.timeout_seconds == seconds
}

fn plain_call(session: &str, action: Vec<String>, seconds: u64) -> (r: Call)
    ensures
        runs(r, session@, crate::browser::client::texts(action@), seconds),
{
    let flags: Vec<String> = Vec::new();
    assert(crate::browser::client::texts(flags@) =~= Seq::empty());
    call(session, flags, action, seconds)
}

/// Launches the browser for this session, on a blank page.
pub fn open(session: &str) -> (r: Call)
    ensures
        runs(r, session@, seq!["open"@], NAVIGATE_TIMEOUT_SECONDS),
{
    plain_call(session, words1("open"), NAVIGATE_TIMEOUT_SECONDS)
}

/// Navigates a session that was launched. `goto` is another name of `open` with a
/// URL, without what `open` does to launch.
///
/// The URL is checked here whoever it came from, because this is where it becomes
/// an argument of the program: a refused one is not run.
pub fn navigate(session: &str, url: &str) -> (r: Result<Call, String>)
    ensures
        match crate::browser::url::normalized(url@) {
            Ok(page) => r is Ok && runs(
                r->Ok_0,
                session@,
                seq!["goto"@, page],
                NAVIGATE_TIMEOUT_SECONDS,
            ),
            Err(reason) => r is Err && r->Err_0@ == reason,
        },
{
    match normalize(url) {
        Ok(page) => Ok(
            plain_call(session, words2("goto", page.as_str()), NAVIGATE_TIMEOUT_SECONDS),
        ),
        Err(reason) => Err(reason),
    }
}

pub fn reload(session: &str) -> (r: Call)
    ensures
        runs(r, session@, seq!["reload"@], NAVIGATE_TIMEOUT_SECONDS),
{
    plain_call(session, words1("reload"), NAVIGATE_TIMEOUT_SECONDS)
}

pub fn back(session: &str) -> (r: Call)
    ensures
        runs(r, session@, seq!["back"@], NAVIGATE_TIMEOUT_SECONDS),
{
    plain_call(session, words1("back"), NAVIGATE_TIMEOUT_SECONDS)
}

pub fn forward(session: &str) -> (r: Call)
    ensures
        runs(r, session@, seq!["forward"@], NAVIGATE_TIMEOUT_SECONDS),
{
    plain_call(session, words1("forward"), NAVIGATE_TIMEOUT_SECONDS)
}

/// Asks for the page's URL and title in one run, since each action is a run of
/// its own.
pub fn page_info_call(session: &str) -> (r: Call)
    ensures
        runs(
            r,
            session@,
            seq!["eval"@, "JSON.stringify([location.href, document.title])"@],
            ACTION_TIMEOUT_SECONDS,
        ),
{
    plain_call(
        session,
        words2("eval", "JSON.stringify([location.href, document.title])"),
        ACTION_TIMEOUT_SECONDS,
    )
}

/// Resizes the page itself so its aspect ratio matches the pane's.
pub fn set_viewport(session: &str, width: u32, height: u32) -> (r: Call)
    ensures
        runs(
            r,
            session@,
            seq![
                "set"@,
                "viewport"@,
                crate::text::decimal(width as nat),
                crate::text::decimal(height as nat),
            ],
            ACTION_TIMEOUT_SECONDS,
        ),
{
    let width = to_decimal(width as u64);
    let height = to_decimal(height as u64);
    plain_call(
        session,
        words4("set", "viewport", width.as_str(), height.as_str()),
        ACTION_TIMEOUT_SECONDS,
    )
}

pub fn mouse_move(session: &str, x: i32, y: i32) -> (r: Call)
    ensures
        runs(
            r,
            session@,
            seq![
                "mouse"@,
                "move"@,
                crate::text::signed_decimal(x as int),
                crate::text::signed_decimal(y as int),
            ],
            ACTION_TIMEOUT_SECONDS,
        ),
{
    let x = to_signed_decimal(x);
    let y = to_signed_decimal(y);
    plain_call(
        session,
        words4("mouse", "move", x.as_str(), y.as_str()),
        ACTION_TIMEOUT_SECONDS,
    )
}

pub fn mouse_button(session: &str, down: bool) -> (r: Call)
    ensures
        runs(
            r,
            session@,
            seq![
                "mouse"@,
                if down {
                    "down"@
                } else {
                    "up"@
                },
                "left"@,
            ],
            ACTION_TIMEOUT_SECONDS,
        ),
{
    let sub = if down {
        "down"
    } else {
        "up"
    };
    plain_call(session, words3("mouse", sub, "left"), ACTION_TIMEOUT_SECONDS)
}

/// Scrolls. The program takes the vertical delta first, the opposite of this
/// function's order and of a mouse move's.
pub fn wheel(session: &str, delta_x: i32, delta_y: i32) -> (r: Call)
    ensures
        runs(
            r,
            session@,
            seq![
                "mouse"@,
                "wheel"@,
                crate::text::signed_decimal(delta_y as int),
                crate::text::signed_decimal(delta_x as int),
            ],
            ACTION_TIMEOUT_SECONDS,
        ),
{
    let dx = to_signed_decimal(delta_x);
    let dy = to_signed_decimal(delta_y);
    plain_call(
        session,
        words4("mouse", "wheel", dy.as_str(), dx.as_str()),
        ACTION_TIMEOUT_SECONDS,
    )
}

/// Types text into whatever the page currently has focused.
pub fn type_text(session: &str, text: &str) -> (r: Call)
    ensures
        runs(r, session@, seq!["keyboard"@, "type"@, text@], ACTION_TIMEOUT_SECONDS),
{
    plain_call(session, words3("keyboard", "type", text), ACTION_TIMEOUT_SECONDS)
}

/// Presses a named key or modifier chord on the current focus.
pub fn press_key(session: &str, key: &str) -> (r: Call)
    ensures
        runs(r, session@, seq!["press"@, key@], ACTION_TIMEOUT_SECONDS),
{
    plain_call(session, words2("press", key), ACTION_TIMEOUT_SECONDS)
}

/// Captures the page to a file. The program has no way to print a capture, only
/// to write one.
pub fn screenshot(session: &str, path: &str) -> (r: Call)
    ensures
        crate::browser::client::texts(r.arguments@) == crate::browser::client::arguments(
            session@,
            seq!["--screenshot-format"@, "png"@],
            seq!["screenshot"@, path@],
        ),
        r.timeout_seconds == ACTION_TIMEOUT_SECONDS,
{
    call(
        session,
        words2("--screenshot-format", "png"),
        words2("screenshot", path),
        ACTION_TIMEOUT_SECONDS,
    )
}

/// How a session is stopped: the run that ends it, and the file of its
/// screenshots, which is removed whatever the run came to.
#[derive(Debug, PartialEq, Eq)]
pub struct Stopping {
    pub call: Call,
    pub screenshot: String,
}

impl Stopping {
    /// This session is stopped, and its file named.
    pub open spec fn stops(self, session: Seq<char>) -> bool {
        &&& runs(self.call, session, seq!["close"@], STOP_TIMEOUT_SECONDS)
        &&& self.screenshot@ == crate::browser::client::screenshot_name(session)
    }
}

/// Stops this session, and no other.
pub fn stop(session: &str) -> (r: Stopping)
    ensures
        r.stops(session@),
{
    Stopping {
        call: plain_call(session, words1("close"), STOP_TIMEOUT_SECONDS),
        screenshot: crate::browser::client::screenshot_file(session),
    }
}

/// A text, unless it is blank.
pub open spec fn unless_blank(value: Seq<char>) -> Option<Seq<char>> {
    if crate::text::trimmed(value).len() == 0 {
        None
    } else {
        Some(value)
    }
}

/// A text, unless it is blank.
pub fn non_empty(value: String) -> (r: Option<String>)
    ensures
        crate::text::opt_view(r) == unless_blank(value@),
{
    if trim(value.as_str()).is_empty() {
        None
    } else {
        Some(value)
    }
}

/// The text a page-info answer carries.
pub open spec fn page_text(response: Response) -> Option<Seq<char>> {
    match response.data {
        Some(data) => crate::json::json(data).text_member("result"@),
        None => None,
    }
}

/// The URL and title in a page-info text.
pub open spec fn page_of(
    pair: Result<(Seq<char>, Seq<char>), Seq<char>>,
) -> Result<(Option<Seq<char>>, Option<Seq<char>>), Seq<char>> {
    match pair {
        Ok((url, title)) => Ok((unless_blank(url), unless_blank(title))),
        Err(error) => Err("decode page info: "@ + error),
    }
}

/// Reads the URL and title from what was decoded of a page-info text.
pub fn read_page(pair: Result<(String, String), String>) -> (r: Result<
    (Option<String>, Option<String>),
    String,
>)
    ensures
        match pair {
            Ok((url, title)) => r matches Ok(page) && crate::text::opt_view(page.0) == unless_blank(
                url@,
            ) && crate::text::opt_view(page.1) == unless_blank(title@),
            Err(error) => r matches Err(reason) && reason@ == "decode page info: "@ + error@,
        },
{
    match pair {
        Ok((url, title)) => Ok((non_empty(url), non_empty(title))),
        Err(error) => Err(cat2("decode page info: ", error.as_str())),
    }
}

/// The page's URL and title, from what the run came to.
pub fn page_info(result: Result<Response, CallError>) -> (r: Result<
    (Option<String>, Option<String>),
    String,
>)
    ensures
        match succeeded("page info"@, result) {
            Some(reason) => r matches Err(text) && text@ == reason,
            None => match page_text(result->Ok_0) {
                None => r matches Err(text) && text@ == "page info response had no result"@,
                Some(raw) => match page_of(crate::json::string_pair(raw)) {
                    Ok((url, title)) => r matches Ok(page) && crate::text::opt_view(page.0) == url
                        && crate::text::opt_view(page.1) == title,
                    Err(reason) => r matches Err(text) && text@ == reason,
                },
            },
        },
{
    let response = match ok_or_err("page info", result) {
        Ok(response) => response,
        Err(reason) => {
            return Err(reason);
        },
    };
    let missing = "page info response had no result";
    let data = match &response.data {
        Some(data) => data,
        None => {
            return Err(missing.to_owned());
        },
    };
    let raw = match get(data, "result") {
        Some(value) => match as_str(value) {
            Some(raw) => raw,
            None => {
                return Err(missing.to_owned());
            },
        },
        None => {
            return Err(missing.to_owned());
        },
    };
    read_page(parse_string_pair(raw))
}

/// The first bytes of a PNG file.
pub open spec fn png_signature() -> Seq<u8> {
    seq![0x89u8, 0x50u8, 0x4eu8, 0x47u8, 0x0du8, 0x0au8, 0x1au8, 0x0au8]
}

/// The last bytes of a PNG file: the name and checksum of its closing chunk.
pub open spec fn png_end() -> Seq<u8> {
    seq![0x49u8, 0x45u8, 0x4eu8, 0x44u8, 0xaeu8, 0x42u8, 0x60u8, 0x82u8]
}

/// The bytes begin and end as a PNG file does.
pub open spec fn complete_png(data: Seq<u8>) -> bool {
    &&& data.len() >= 8
    &&& data.take(8) == png_signature()
    &&& data.skip(data.len() - 8) == png_end()
}

fn signature_at(data: &[u8], at: usize, expected: &Vec<u8>) -> (r: bool)
    requires
        at + expected@.len() <= data@.len(),
    ensures
        r == (data@.subrange(at as int, at + expected@.len()) == expected@),
{
    let total: usize = data.len();
    let mut i: usize = 0;
    while i < expected.len()
        invariant
            i <= expected.len(),
            at + expected@.len() <= total,
            total == data@.len(),
            forall|j: int| 0 <= j < i ==> data@[at + j] == #[trigger] expected@[j],
        decreases expected.len() - i,
    {
        if data[at + i] != expected[i] {
            assert(data@.subrange(at as int, at + expected@.len())[i as int] != expected@[i as int]);
            return false;
        }
        i += 1;
    }
    assert(data@.subrange(at as int, at + expected@.len()) =~= expected@);
    true
}

/// Checks the PNG signature and the closing chunk, which together mean the file
/// was written all the way through.
pub fn is_complete_png(data: &[u8]) -> (r: bool)
    ensures
        r == complete_png(data@),
{
    if data.len() < 8 {
        return false;
    }
    let signature: Vec<u8> = vec![0x89u8, 0x50u8, 0x4eu8, 0x47u8, 0x0du8, 0x0au8, 0x1au8, 0x0au8];
    let end: Vec<u8> = vec![0x49u8, 0x45u8, 0x4eu8, 0x44u8, 0xaeu8, 0x42u8, 0x60u8, 0x82u8];
    assert(signature@ =~= png_signature());
    assert(end@ =~= png_end());
    let tail: usize = data.len() - 8;
    assert(data@.subrange(0, 8) =~= data@.take(8));
    assert(data@.subrange(tail as int, tail + 8) =~= data@.skip(tail as int));
    signature_at(data, 0, &signature) && signature_at(data, tail, &end)
}

/// What a capture came to: the frame, when the run succeeded, the file could be
/// read and the file is whole.
///
/// The writer is another program, so a killed or timed-out capture can leave a
/// half-written file behind. Rejecting it keeps a torn frame out of the picture;
/// the next poll captures again.
pub fn screenshot_png(result: Result<Response, CallError>, file: Result<Vec<u8>, String>) -> (r:
    Result<Vec<u8>, String>)
    ensures
        match succeeded("screenshot"@, result) {
            Some(reason) => r matches Err(text) && text@ == reason,
            None => match file {
                Err(error) => r matches Err(text) && text@ == "read screenshot: "@ + error@,
                Ok(data) => if complete_png(data@) {
                    r == Ok::<Vec<u8>, String>(data)
                } else {
                    r matches Err(text) && text@ == "screenshot file is not a complete PNG"@
                },
            },
        },
{
    match ok_or_err("screenshot", result) {
        Ok(_) => {},
        Err(reason) => {
            return Err(reason);
        },
    }
    let data = match file {
        Ok(data) => data,
        Err(error) => {
            return Err(cat2("read screenshot: ", error.as_str()));
        },
    };
    if is_complete_png(data.as_slice()) {
        Ok(data)
    } else {
        Err("screenshot file is not a complete PNG".to_owned())
    }
}

/// What a command is called when it fails.
pub open spec fn command_name(command: crate::browser::command::CommandView) -> Seq<char> {
    match command {
        crate::browser::command::CommandView::Navigate(_) => "navigate"@,
        crate::browser::command::CommandView::SetViewport { .. } => "set viewport"@,
        crate::browser::command::CommandView::MouseDown { .. } => "mouse down"@,
        crate::browser::command::CommandView::MouseMove { .. } => "mouse move"@,
        crate::browser::command::CommandView::MouseUp { .. } => "mouse up"@,
        crate::browser::command::CommandView::Reload => "reload"@,
        crate::browser::command::CommandView::Back => "back"@,
        crate::browser::command::CommandView::Forward => "forward"@,
        crate::browser::command::CommandView::Scroll { .. } => "scroll"@,
        crate::browser::command::CommandView::TypeText(_) => "type"@,
        crate::browser::command::CommandView::PressKey(_) => "press"@,
    }
}

/// The runs that apply a command: one, except that a button is pressed and
/// released where the pointer was moved to.
pub open spec fn applies(
    calls: Seq<Call>,
    session: Seq<char>,
    command: crate::browser::command::CommandView,
) -> bool {
    let moved = |x: i32, y: i32|
        seq![
            "mouse"@,
            "move"@,
            crate::text::signed_decimal(x as int),
            crate::text::signed_decimal(y as int),
        ];
    match command {
        crate::browser::command::CommandView::Navigate(url) => calls.len() == 1
            && crate::browser::url::normalized(url) is Ok && runs(
            calls[0],
            session,
            seq!["goto"@, crate::browser::url::normalized(url)->Ok_0],
            NAVIGATE_TIMEOUT_SECONDS,
        ),
        crate::browser::command::CommandView::SetViewport { width, height } => calls.len() == 1
            && runs(
            calls[0],
            session,
            seq![
                "set"@,
                "viewport"@,
                crate::text::decimal(width as nat),
                crate::text::decimal(height as nat),
            ],
            ACTION_TIMEOUT_SECONDS,
        ),
        crate::browser::command::CommandView::MouseDown { x, y } => calls.len() == 2 && runs(
            calls[0],
            session,
            moved(x, y),
            ACTION_TIMEOUT_SECONDS,
        ) && runs(calls[1], session, seq!["mouse"@, "down"@, "left"@], ACTION_TIMEOUT_SECONDS),
        crate::browser::command::CommandView::MouseMove { x, y } => calls.len() == 1 && runs(
            calls[0],
            session,
            moved(x, y),
            ACTION_TIMEOUT_SECONDS,
        ),
        crate::browser::command::CommandView::MouseUp { x, y } => calls.len() == 2 && runs(
            calls[0],
            session,
            moved(x, y),
            ACTION_TIMEOUT_SECONDS,
        ) && runs(calls[1], session, seq!["mouse"@, "up"@, "left"@], ACTION_TIMEOUT_SECONDS),
        crate::browser::command::CommandView::Reload => calls.len() == 1 && runs(
            calls[0],
            session,
            seq!["reload"@],
            NAVIGATE_TIMEOUT_SECONDS,
        ),
        crate::browser::command::CommandView::Back => calls.len() == 1 && runs(
            calls[0],
            session,
            seq!["back"@],
            NAVIGATE_TIMEOUT_SECONDS,
        ),
        crate::browser::command::CommandView::Forward => calls.len() == 1 && runs(
            calls[0],
            session,
            seq!["forward"@],
            NAVIGATE_TIMEOUT_SECONDS,
        ),
        crate::browser::command::CommandView::Scroll { delta_x, delta_y } => calls.len() == 1
            && runs(
            calls[0],
            session,
            seq![
                "mouse"@,
                "wheel"@,
                crate::text::signed_decimal(delta_y as int),
                crate::text::signed_decimal(delta_x as int),
            ],
            ACTION_TIMEOUT_SECONDS,
        ),
        crate::browser::command::CommandView::TypeText(text) => calls.len() == 1 && runs(
            calls[0],
            session,
            seq!["keyboard"@, "type"@, text],
            ACTION_TIMEOUT_SECONDS,
        ),
        crate::browser::command::CommandView::PressKey(key) => calls.len() == 1 && runs(
            calls[0],
            session,
            seq!["press"@, key],
            ACTION_TIMEOUT_SECONDS,
        ),
    }
}

/// Why a command is not applied: it would navigate to what is refused.
pub open spec fn command_refused(command: crate::browser::command::CommandView) -> Option<
    Seq<char>,
> {
    match command {
        crate::browser::command::CommandView::Navigate(
            url,
        ) => match crate::browser::url::normalized(url) {
            Err(reason) => Some(reason),
            Ok(_) => None,
        },
        _ => None,
    }
}

/// What a command is called, and the runs that apply it, in order, or why there
/// are none. A run is only made when the one before it succeeded.
pub fn apply(session: &str, command: &BrowserCommand) -> (r: (
    &'static str,
    Result<Vec<Call>, String>,
))
    ensures
        r.0@ == command_name(command@),
        match command_refused(command@) {
            Some(reason) => r.1 is Err && r.1->Err_0@ == reason,
            None => r.1 is Ok && applies(r.1->Ok_0@, session@, command@),
        },
{
    let mut calls: Vec<Call> = Vec::new();
    let name = match command {
        BrowserCommand::Navigate(url) => {
            match navigate(session, url.as_str()) {
                Ok(call) => {
                    calls.push(call);
                },
                Err(reason) => {
                    return ("navigate", Err(reason));
                },
            }
            "navigate"
        },
        BrowserCommand::SetViewport { width, height } => {
            calls.push(set_viewport(session, *width, *height));
            "set viewport"
        },
        BrowserCommand::MouseDown { x, y } => {
            calls.push(mouse_move(session, *x, *y));
            calls.push(mouse_button(session, true));
            "mouse down"
        },
        BrowserCommand::MouseMove { x, y } => {
            calls.push(mouse_move(session, *x, *y));
            "mouse move"
        },
        BrowserCommand::MouseUp { x, y } => {
            calls.push(mouse_move(session, *x, *y));
            calls.push(mouse_button(session, false));
            "mouse up"
        },
        BrowserCommand::Reload => {
            calls.push(reload(session));
            "reload"
        },
        BrowserCommand::Back => {
            calls.push(back(session));
            "back"
        },
        BrowserCommand::Forward => {
            calls.push(forward(session));
            "forward"
        },
        BrowserCommand::Scroll { delta_x, delta_y } => {
            calls.push(wheel(session, *delta_x, *delta_y));
            "scroll"
        },
        BrowserCommand::TypeText(text) => {
            calls.push(type_text(session, text.as_str()));
            "type"
        },
        BrowserCommand::PressKey(key) => {
            calls.push(press_key(session, key.as_str()));
            "press"
        },
    };
    (name, Ok(calls))
}

/// What is done next to apply a command.
#[derive(Debug, PartialEq, Eq)]
pub enum Applying {
    /// Make the run at this place in the list.
    Run(usize),
    /// Every run was made.
    Finished,
    /// A run failed, so none after it is made.
    Failed(String),
}

/// What is done after so many of the runs were made.
pub open spec fn next_run(made: int, runs: nat) -> Applying {
    if made < runs {
        Applying::Run(made as usize)
    } else {
        Applying::Finished
    }
}

/// What is done first to apply a command.
pub fn apply_begin(calls: &Vec<Call>) -> (r: Applying)
    ensures
        r == next_run(0, calls@.len()),
{
    if calls.len() > 0 {
        Applying::Run(0)
    } else {
        Applying::Finished
    }
}

/// What is done once the run at `made` came to `result`: the next one, when it
/// succeeded and there is one, and nothing after a failure.
pub fn applied(
    action: &str,
    calls: &Vec<Call>,
    made: usize,
    result: Result<Response, CallError>,
) -> (r: Applying)
    requires
        made < calls@.len(),
    ensures
        match succeeded(action@, result) {
            None => r == next_run(made + 1, calls@.len()),
            Some(reason) => r matches Applying::Failed(text) && text@ == reason,
        },
{
    match ok_or_err(action, result) {
        Ok(_) => if made < calls.len() - 1 {
            Applying::Run(made + 1)
        } else {
            Applying::Finished
        },
        Err(reason) => Applying::Failed(reason),
    }
}

/// A button is never pressed or released where the pointer was not moved to: the
/// run that does it follows on the move's success alone.
pub proof fn law_a_button_follows_a_successful_move(
    calls: Seq<Call>,
    session: Seq<char>,
    x: i32,
    y: i32,
    down: bool,
)
    requires
        applies(
            calls,
            session,
            if down {
                crate::browser::command::CommandView::MouseDown { x, y }
            } else {
                crate::browser::command::CommandView::MouseUp { x, y }
            },
        ),
    ensures
        next_run(0, calls.len()) == Applying::Run(0),
        next_run(1, calls.len()) == Applying::Run(1),
        next_run(2, calls.len()) == Applying::Finished,
        runs(
            calls[0],
            session,
            seq![
                "mouse"@,
                "move"@,
                crate::text::signed_decimal(x as int),
                crate::text::signed_decimal(y as int),
            ],
            ACTION_TIMEOUT_SECONDS,
        ),
        runs(
            calls[1],
            session,
            seq![
                "mouse"@,
                if down {
                    "down"@
                } else {
                    "up"@
                },
                "left"@,
            ],
            ACTION_TIMEOUT_SECONDS,
        ),
{
}

/// A page never reaches the program in the place of a flag: what a navigation hands
/// it last is what the URL was normalized to, which is not empty and does not begin
/// with a dash.
pub proof fn law_a_page_is_never_read_as_a_flag(
    calls: Seq<Call>,
    session: Seq<char>,
    url: Seq<char>,
)
    requires
        applies(calls, session, crate::browser::command::CommandView::Navigate(url)),
    ensures
        ({
            let words = crate::browser::client::texts(calls[0].arguments@);
            &&& calls.len() == 1
            &&& crate::browser::url::normalized(url) == Ok::<Seq<char>, Seq<char>>(words.last())
            &&& words.last().len() > 0
            &&& words.last()[0] != '-'
        }),
{
    crate::browser::url::law_normalized_urls_are_final(url);
}

} // verus!
