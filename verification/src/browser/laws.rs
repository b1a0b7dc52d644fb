//! What holds of browser panes' keys, pages, runs and captures as a whole.

use vstd::prelude::*;

use crate::app::state::PaneId;
use crate::browser::client::{Call, CallError, Response};
use crate::browser::command::{BrowserCommand, CommandView};
use crate::browser::daemon::Applying;
use crate::browser::keys::{KeyCode, KeyEvent, KeyEventKind, KeyModifiers};

verus! {

/// No modifier is held.
pub open spec fn bare(mods: KeyModifiers) -> bool {
    !mods.control && !mods.alt && !mods.shift && !mods.super_key
}

/// Every key that has a name is pressed under that name when nothing is held with
/// it, whether it was pressed or repeats; a key without one, and a release, do
/// nothing.
pub proof fn law_keys_are_pressed_by_name(key: KeyEvent, r: Option<BrowserCommand>)
    requires
        call_ensures(crate::browser::keys::command_for_key, (&key,), r),
        bare(key.modifiers),
        !(key.code is Char),
    ensures
        key.kind == KeyEventKind::Release ==> r is None,
        key.kind != KeyEventKind::Release ==> match key.code {
            KeyCode::Enter => r is Some && r->0@ == CommandView::PressKey("Enter"@),
            KeyCode::Tab => r is Some && r->0@ == CommandView::PressKey("Tab"@),
            KeyCode::BackTab => r is Some && r->0@ == CommandView::PressKey("Shift+Tab"@),
            KeyCode::Backspace => r is Some && r->0@ == CommandView::PressKey("Backspace"@),
            KeyCode::Delete => r is Some && r->0@ == CommandView::PressKey("Delete"@),
            KeyCode::Esc => r is Some && r->0@ == CommandView::PressKey("Escape"@),
            KeyCode::Left => r is Some && r->0@ == CommandView::PressKey("ArrowLeft"@),
            KeyCode::Right => r is Some && r->0@ == CommandView::PressKey("ArrowRight"@),
            KeyCode::Up => r is Some && r->0@ == CommandView::PressKey("ArrowUp"@),
            KeyCode::Down => r is Some && r->0@ == CommandView::PressKey("ArrowDown"@),
            KeyCode::Home => r is Some && r->0@ == CommandView::PressKey("Home"@),
            KeyCode::End => r is Some && r->0@ == CommandView::PressKey("End"@),
            KeyCode::PageUp => r is Some && r->0@ == CommandView::PressKey("PageUp"@),
            KeyCode::PageDown => r is Some && r->0@ == CommandView::PressKey("PageDown"@),
            KeyCode::Insert => r is Some && r->0@ == CommandView::PressKey("Insert"@),
            KeyCode::F(n) => if 1 <= n <= 9 {
                r is Some && r->0@ == CommandView::PressKey(
                    seq!['F', (('0' as int) + n as int) as char],
                )
            } else if 10 <= n <= 12 {
                r is Some && r->0@ == CommandView::PressKey(
                    seq!['F', '1', (('0' as int) + n as int - 10) as char],
                )
            } else {
                r is None
            },
            KeyCode::Char(_) => true,
            KeyCode::Other => r is None,
        },
{
    let empty = Seq::<char>::empty();
    let name = crate::browser::keys::named(key.code);
    if name is Some {
        assert(empty + empty + empty + empty + (name->0).0 =~= (name->0).0);
    }
    if key.code is BackTab {
        reveal_strlit("Shift+Tab");
        reveal_strlit("Shift+");
        reveal_strlit("Tab");
        assert(empty + empty + "Shift+"@ + empty + "Tab"@ =~= "Shift+Tab"@);
    }
    if let KeyCode::F(n) = key.code {
        reveal_strlit("F");
        reveal_with_fuel(crate::text::decimal, 3);
        if 1 <= n <= 9 {
            assert("F"@ + crate::text::decimal(n as nat) =~= seq![
                'F',
                (('0' as int) + n as int) as char,
            ]);
        } else if 10 <= n <= 12 {
            assert(n as nat / 10 == 1 && n as nat % 10 == n - 10);
            assert("F"@ + crate::text::decimal(n as nat) =~= seq![
                'F',
                '1',
                (('0' as int) + n as int - 10) as char,
            ]);
        }
    }
}

/// A character is typed as it is, unless it is held with a modifier other than
/// shift: then it is pressed, and what is pressed ends with it.
pub proof fn law_characters_are_typed(key: KeyEvent, r: Option<BrowserCommand>, c: char)
    requires
        call_ensures(crate::browser::keys::command_for_key, (&key,), r),
        key.code == KeyCode::Char(c),
        key.kind != KeyEventKind::Release,
    ensures
        r is Some,
        !key.modifiers.control && !key.modifiers.alt && !key.modifiers.super_key ==> r->0@
            == CommandView::TypeText(seq![c]),
        key.modifiers.control || key.modifiers.alt || key.modifiers.super_key ==> r->0@ is PressKey
            && r->0@->PressKey_0.len() > 1 && r->0@->PressKey_0.last() == c,
        key.modifiers.control && !key.modifiers.alt && !key.modifiers.shift
            && !key.modifiers.super_key ==> r->0@ == CommandView::PressKey("Control+"@ + seq![c]),
{
    reveal_strlit("Control+");
    reveal_strlit("Alt+");
    reveal_strlit("Shift+");
    reveal_strlit("Meta+");
    let empty = Seq::<char>::empty();
    assert("Control+"@ + empty + empty + empty + seq![c] =~= "Control+"@ + seq![c]);
}

/// Each modifier that is held stands once before the key, in one order: what is
/// pressed with control is `Control+` and what is pressed without, and so on for
/// the others.
pub proof fn law_held_modifiers_stand_before_the_key(
    with: KeyEvent,
    without: KeyEvent,
    r: Option<BrowserCommand>,
    s: Option<BrowserCommand>,
)
    requires
        call_ensures(crate::browser::keys::command_for_key, (&with,), r),
        call_ensures(crate::browser::keys::command_for_key, (&without,), s),
        with.kind == without.kind,
        with.code == without.code,
        !(with.code is Char),
        s is Some,
        s->0@ is PressKey,
    ensures
        with.modifiers.control && without.modifiers == (KeyModifiers {
            control: false,
            ..with.modifiers
        }) ==> r is Some && r->0@ == CommandView::PressKey("Control+"@ + s->0@->PressKey_0),
        with.modifiers.alt && !with.modifiers.control && without.modifiers == (KeyModifiers {
            alt: false,
            ..with.modifiers
        }) ==> r is Some && r->0@ == CommandView::PressKey("Alt+"@ + s->0@->PressKey_0),
        with.modifiers.shift && !with.modifiers.control && !with.modifiers.alt && !(
        with.code is BackTab) && without.modifiers == (KeyModifiers {
            shift: false,
            ..with.modifiers
        }) ==> r is Some && r->0@ == CommandView::PressKey("Shift+"@ + s->0@->PressKey_0),
        with.modifiers.super_key && bare(without.modifiers) && !(with.code is BackTab)
            && without.modifiers == (KeyModifiers { super_key: false, ..with.modifiers }) ==> r
            is Some && r->0@ == CommandView::PressKey("Meta+"@ + s->0@->PressKey_0),
{
    let name = (crate::browser::keys::named(with.code)->0).0;
    let force = (crate::browser::keys::named(with.code)->0).1;
    let a = with.modifiers;
    let empty = Seq::<char>::empty();
    let x = crate::browser::keys::chord(name, a, force);
    let y = crate::browser::keys::chord(name, without.modifiers, force);
    if a.control && without.modifiers == (KeyModifiers { control: false, ..a }) {
        assert(x =~= "Control+"@ + y);
    }
    if a.alt && !a.control && without.modifiers == (KeyModifiers { alt: false, ..a }) {
        assert(x =~= "Alt+"@ + y);
    }
    if a.shift && !a.control && !a.alt && !(with.code is BackTab) && without.modifiers == (
    KeyModifiers { shift: false, ..a }) {
        assert(x =~= "Shift+"@ + y);
    }
    if a.super_key && bare(without.modifiers) && !(with.code is BackTab) && without.modifiers == (
    KeyModifiers { super_key: false, ..a }) {
        assert(x =~= "Meta+"@ + y);
    }
}

/// The text begins with this one, whatever the case of its letters.
pub open spec fn begins_like(text: Seq<char>, scheme: Seq<char>) -> bool {
    &&& scheme.len() <= text.len()
    &&& forall|i: int|
        0 <= i < scheme.len() ==> (#[trigger] text[i]) == scheme[i] || ('A' <= text[i] <= 'Z'
            && text[i] as int + 32 == scheme[i] as int)
}

/// The schemes a browser pane goes to.
pub open spec fn may_be_browsed(url: Seq<char>) -> bool {
    begins_like(url, "http://"@) || begins_like(url, "https://"@) || begins_like(url, "file://"@)
        || begins_like(url, "about:"@)
}

/// The text holds no whitespace: no space, tab or line break, nor any other.
pub open spec fn unbroken(text: Seq<char>) -> bool {
    forall|i: int|
        0 <= i < text.len() ==> !crate::text::is_whitespace(#[trigger] text[i]) && text[i] != ' '
            && text[i] != '\t' && text[i] != '\n' && text[i] != '\r'
}

proof fn lemma_begins_like(url: Seq<char>, scheme: Seq<char>)
    requires
        forall|i: int| 0 <= i < scheme.len() ==> !('A' <= #[trigger] scheme[i] <= 'Z'),
    ensures
        begins_like(url, scheme) == crate::text::has_prefix(crate::text::lowered(url), scheme),
{
    let low = crate::text::lowered(url);
    if begins_like(url, scheme) {
        assert forall|i: int| 0 <= i < scheme.len() implies low.take(scheme.len() as int)[i]
            == scheme[i] by {
            assert(url[i] == scheme[i] || ('A' <= url[i] <= 'Z' && url[i] as int + 32
                == scheme[i] as int));
        }
        assert(low.take(scheme.len() as int) =~= scheme);
    }
    if crate::text::has_prefix(low, scheme) {
        assert forall|i: int| 0 <= i < scheme.len() implies (#[trigger] url[i]) == scheme[i] || (
        'A' <= url[i] <= 'Z' && url[i] as int + 32 == scheme[i] as int) by {
            assert(low.take(scheme.len() as int)[i] == scheme[i]);
            assert(low[i] == crate::text::lower(url[i]));
        }
    }
}

proof fn lemma_schemes(url: Seq<char>)
    ensures
        may_be_browsed(url) == crate::browser::url::allowed(crate::text::lowered(url)),
{
    reveal_strlit("http://");
    reveal_strlit("https://");
    reveal_strlit("file://");
    reveal_strlit("about:");
    lemma_begins_like(url, "http://"@);
    lemma_begins_like(url, "https://"@);
    lemma_begins_like(url, "file://"@);
    lemma_begins_like(url, "about:"@);
}

/// A URL with a scheme that may be browsed is gone to as it is.
pub proof fn law_a_browsable_url_is_kept(url: Seq<char>)
    requires
        unbroken(url),
        may_be_browsed(url),
    ensures
        crate::browser::url::normalized(url) == Ok::<Seq<char>, Seq<char>>(url),
{
    reveal_strlit("http://");
    reveal_strlit("https://");
    reveal_strlit("file://");
    reveal_strlit("about:");
    lemma_schemes(url);
    crate::text::lemma_trim_fixed(url);
    assert(!crate::browser::url::has_whitespace(url));
    assert(url[0] == 'h' || url[0] == 'H' || url[0] == 'f' || url[0] == 'F' || url[0] == 'a'
        || url[0] == 'A');
}

/// What a url is made to is what these laws say of it: a page that may be browsed
/// comes back as it is.
pub proof fn law_a_browsable_url_comes_back(url: &str, r: Result<String, String>)
    requires
        call_ensures(crate::browser::url::normalize, (url,), r),
        unbroken(url@),
        may_be_browsed(url@),
    ensures
        r is Ok,
        r->Ok_0@ == url@,
{
    law_a_browsable_url_is_kept(url@);
}

/// A host without a scheme, with a port or without, is gone to over `https`.
pub proof fn law_a_host_is_gone_to_over_https(url: Seq<char>, colon: int)
    requires
        unbroken(url),
        !may_be_browsed(url),
        url.len() > 0,
        url[0] != '-',
        0 < colon <= url.len(),
        forall|i: int| 0 <= i < colon ==> (#[trigger] url[i]) != ':',
        colon < url.len() ==> url[colon] == ':' && colon + 1 < url.len() && '0' <= url[colon + 1]
            <= '9',
    ensures
        crate::browser::url::normalized(url) == Ok::<Seq<char>, Seq<char>>("https://"@ + url),
{
    reveal_strlit("http://");
    reveal_strlit("https://");
    reveal_strlit("file://");
    reveal_strlit("about:");
    lemma_schemes(url);
    crate::text::lemma_trim_fixed(url);
    assert(!crate::browser::url::has_whitespace(url));
    let low = crate::text::lowered(url);
    assert forall|i: int| 0 <= i < colon implies low[i] != ':' by {
        assert(url[i] != ':');
    }
    crate::text::lemma_find_is(low, ':', 0, colon);
}

/// A scheme that must not be browsed is refused, and said to be: a letter, then
/// letters, digits, `+`, `-` or `.`, then a colon that no port follows.
pub proof fn law_other_schemes_are_refused(url: Seq<char>, colon: int)
    requires
        unbroken(url),
        !may_be_browsed(url),
        0 < colon < url.len(),
        url[colon] == ':',
        'a' <= url[0] <= 'z' || 'A' <= url[0] <= 'Z',
        forall|i: int|
            0 <= i < colon ==> 'a' <= #[trigger] url[i] <= 'z' || 'A' <= url[i] <= 'Z' || '0'
                <= url[i] <= '9' || url[i] == '+' || url[i] == '-' || url[i] == '.',
        colon + 1 < url.len() ==> !('0' <= url[colon + 1] <= '9'),
    ensures
        crate::browser::url::normalized(url) == Err::<Seq<char>, Seq<char>>(
            "unsupported url scheme: "@ + url
                + " (allowed: http://, https://, file://, about:)"@,
        ),
{
    lemma_schemes(url);
    crate::text::lemma_trim_fixed(url);
    assert(!crate::browser::url::has_whitespace(url));
    let low = crate::text::lowered(url);
    assert forall|i: int| 0 <= i < colon implies low[i] != ':'
        && crate::browser::url::is_scheme_char(#[trigger] low[i]) by {
        assert(url[i] != ':');
    }
    crate::text::lemma_find_is(low, ':', 0, colon);
    assert(crate::browser::url::scheme_shape(low));
}

/// Nothing, a flag and a text with whitespace in it are refused, each for its own
/// reason.
pub proof fn law_unusable_urls_are_refused(url: Seq<char>)
    requires
        url.len() > 0 ==> !crate::text::is_whitespace(url[0]) && !crate::text::is_whitespace(
            url.last(),
        ),
    ensures
        url.len() == 0 ==> crate::browser::url::normalized(url) == Err::<Seq<char>, Seq<char>>(
            "url is empty"@,
        ),
        url.len() > 0 && url[0] == '-' ==> crate::browser::url::normalized(url) == Err::<
            Seq<char>,
            Seq<char>,
        >("url must not start with '-': "@ + url),
        url.len() > 0 && url[0] != '-' && (exists|i: int|
            0 <= i < url.len() && (url[i] == ' ' || url[i] == '\t' || #[trigger] url[i] == '\n'))
            ==> crate::browser::url::normalized(url) == Err::<Seq<char>, Seq<char>>(
            "url must not contain whitespace: "@ + url,
        ),
{
    crate::text::lemma_trim_fixed(url);
    if exists|i: int|
        0 <= i < url.len() && (url[i] == ' ' || url[i] == '\t' || #[trigger] url[i] == '\n') {
        let i = choose|i: int|
            0 <= i < url.len() && (url[i] == ' ' || url[i] == '\t' || #[trigger] url[i] == '\n');
        assert(crate::text::is_whitespace(url[i]));
    }
}

/// The words a run hands the program after the session and the format: what is done.
pub open spec fn says(call: Call, session: Seq<char>, action: Seq<Seq<char>>) -> bool {
    let words = crate::browser::client::texts(call.arguments@);
    &&& words.len() == 3 + action.len()
    &&& words[0] == "--session"@
    &&& words[1] == session
    &&& words[2] == "--json"@
    &&& forall|i: int| 0 <= i < action.len() ==> words[3 + i] == #[trigger] action[i]
}

/// Every command reaches the program as what it is, in the session it is for: input
/// within seconds, a page within a minute.
pub proof fn law_commands_reach_their_session(
    session: &str,
    command: BrowserCommand,
    r: (&'static str, Result<Vec<Call>, String>),
)
    requires
        call_ensures(crate::browser::daemon::apply, (session, &command), r),
    ensures
        !(command is Navigate) ==> r.1 is Ok,
        r.1 is Ok ==> {
            let calls = r.1->Ok_0@;
            &&& calls.len() >= 1
            &&& forall|i: int|
                0 <= i < calls.len() ==> (#[trigger] calls[i]).timeout_seconds == if command
                    is Navigate || command is Reload || command is Back || command is Forward {
                    60u64
                } else {
                    15u64
                }
            &&& match command {
                BrowserCommand::Navigate(_) => crate::browser::client::texts(
                    calls[0].arguments@,
                )[3] == "goto"@,
                BrowserCommand::SetViewport { width, height } => says(
                    calls[0],
                    session@,
                    seq![
                        "set"@,
                        "viewport"@,
                        crate::text::decimal(width as nat),
                        crate::text::decimal(height as nat),
                    ],
                ),
                BrowserCommand::MouseMove { x, y } => calls.len() == 1 && says(
                    calls[0],
                    session@,
                    seq![
                        "mouse"@,
                        "move"@,
                        crate::text::signed_decimal(x as int),
                        crate::text::signed_decimal(y as int),
                    ],
                ),
                BrowserCommand::MouseDown { x, y } => calls.len() == 2 && says(
                    calls[0],
                    session@,
                    seq![
                        "mouse"@,
                        "move"@,
                        crate::text::signed_decimal(x as int),
                        crate::text::signed_decimal(y as int),
                    ],
                ) && says(calls[1], session@, seq!["mouse"@, "down"@, "left"@]),
                BrowserCommand::MouseUp { x, y } => calls.len() == 2 && says(
                    calls[0],
                    session@,
                    seq![
                        "mouse"@,
                        "move"@,
                        crate::text::signed_decimal(x as int),
                        crate::text::signed_decimal(y as int),
                    ],
                ) && says(calls[1], session@, seq!["mouse"@, "up"@, "left"@]),
                BrowserCommand::Reload => calls.len() == 1 && says(
                    calls[0],
                    session@,
                    seq!["reload"@],
                ),
                BrowserCommand::Back => calls.len() == 1 && says(
                    calls[0],
                    session@,
                    seq!["back"@],
                ),
                BrowserCommand::Forward => calls.len() == 1 && says(
                    calls[0],
                    session@,
                    seq!["forward"@],
                ),
                BrowserCommand::Scroll { delta_x, delta_y } => calls.len() == 1 && says(
                    calls[0],
                    session@,
                    seq![
                        "mouse"@,
                        "wheel"@,
                        crate::text::signed_decimal(delta_y as int),
                        crate::text::signed_decimal(delta_x as int),
                    ],
                ),
                BrowserCommand::TypeText(text) => calls.len() == 1 && says(
                    calls[0],
                    session@,
                    seq!["keyboard"@, "type"@, text@],
                ),
                BrowserCommand::PressKey(key) => calls.len() == 1 && says(
                    calls[0],
                    session@,
                    seq!["press"@, key@],
                ),
            }
        },
{
    if r.1 is Ok {
        let calls = r.1->Ok_0@;
        assert(crate::browser::daemon::applies(calls, session@, command@));
    }
}

/// A number is said as what it counts: its last digit and the number before that,
/// and a minus sign when it is below zero.
pub proof fn law_numbers_are_said_in_decimal(n: nat, d: nat)
    requires
        d < 10,
    ensures
        n > 0 ==> crate::text::decimal(10 * n + d) == crate::text::decimal(n).push(
            (('0' as int) + d) as char,
        ),
        crate::text::decimal(d) == seq![(('0' as int) + d) as char],
        crate::text::signed_decimal(n as int) == crate::text::decimal(n),
        n > 0 ==> crate::text::signed_decimal(-(n as int)) == seq!['-'] + crate::text::decimal(n),
{
    assert((10 * n + d) / 10 == n && (10 * n + d) % 10 == d);
}

/// What a command is called in a report.
pub proof fn law_commands_are_named(
    session: &str,
    command: BrowserCommand,
    r: (&'static str, Result<Vec<Call>, String>),
)
    requires
        call_ensures(crate::browser::daemon::apply, (session, &command), r),
    ensures
        command is Navigate ==> r.0@ == "navigate"@,
        command is SetViewport ==> r.0@ == "set viewport"@,
        command is MouseDown ==> r.0@ == "mouse down"@,
        command is MouseMove ==> r.0@ == "mouse move"@,
        command is MouseUp ==> r.0@ == "mouse up"@,
        command is Reload ==> r.0@ == "reload"@,
        command is Back ==> r.0@ == "back"@,
        command is Forward ==> r.0@ == "forward"@,
        command is Scroll ==> r.0@ == "scroll"@,
        command is TypeText ==> r.0@ == "type"@,
        command is PressKey ==> r.0@ == "press"@,
{
}

/// A page is opened, and a browser is gone back and forth in and reloaded, within a
/// minute.
pub proof fn law_pages_are_opened_in_their_session(
    session: &str,
    opened: Call,
    reloaded: Call,
    back: Call,
    forward: Call,
    info: Call,
)
    requires
        call_ensures(crate::browser::daemon::open, (session,), opened),
        call_ensures(crate::browser::daemon::reload, (session,), reloaded),
        call_ensures(crate::browser::daemon::back, (session,), back),
        call_ensures(crate::browser::daemon::forward, (session,), forward),
        call_ensures(crate::browser::daemon::page_info_call, (session,), info),
    ensures
        says(opened, session@, seq!["open"@]) && opened.timeout_seconds == 60,
        says(reloaded, session@, seq!["reload"@]) && reloaded.timeout_seconds == 60,
        says(back, session@, seq!["back"@]) && back.timeout_seconds == 60,
        says(forward, session@, seq!["forward"@]) && forward.timeout_seconds == 60,
        says(
            info,
            session@,
            seq!["eval"@, "JSON.stringify([location.href, document.title])"@],
        ) && info.timeout_seconds == 15,
{
}

/// A browser is sent to the page that its url stands for, or not at all.
pub proof fn law_a_browser_is_sent_to_its_page(
    session: &str,
    url: &str,
    r: Result<Call, String>,
)
    requires
        call_ensures(crate::browser::daemon::navigate, (session, url), r),
    ensures
        r is Ok == crate::browser::url::normalized(url@) is Ok,
        r matches Ok(call) ==> says(
            call,
            session@,
            seq!["goto"@, crate::browser::url::normalized(url@)->Ok_0],
        ) && call.timeout_seconds == 60,
        r matches Err(reason) ==> reason@ == crate::browser::url::normalized(url@)->Err_0,
{
}

/// Input is handed on as it is: a size by width and height, a point by its column and
/// its row, a wheel by its rows first, a text as text and a key as a key.
pub proof fn law_input_is_handed_on(
    session: &str,
    width: u32,
    height: u32,
    x: i32,
    y: i32,
    down: bool,
    text: &str,
    sized: Call,
    moved: Call,
    pressed: Call,
    scrolled: Call,
    typed: Call,
    keyed: Call,
)
    requires
        call_ensures(crate::browser::daemon::set_viewport, (session, width, height), sized),
        call_ensures(crate::browser::daemon::mouse_move, (session, x, y), moved),
        call_ensures(crate::browser::daemon::mouse_button, (session, down), pressed),
        call_ensures(crate::browser::daemon::wheel, (session, x, y), scrolled),
        call_ensures(crate::browser::daemon::type_text, (session, text), typed),
        call_ensures(crate::browser::daemon::press_key, (session, text), keyed),
    ensures
        says(
            sized,
            session@,
            seq![
                "set"@,
                "viewport"@,
                crate::text::decimal(width as nat),
                crate::text::decimal(height as nat),
            ],
        ),
        says(
            moved,
            session@,
            seq![
                "mouse"@,
                "move"@,
                crate::text::signed_decimal(x as int),
                crate::text::signed_decimal(y as int),
            ],
        ),
        down ==> says(pressed, session@, seq!["mouse"@, "down"@, "left"@]),
        !down ==> says(pressed, session@, seq!["mouse"@, "up"@, "left"@]),
        says(
            scrolled,
            session@,
            seq![
                "mouse"@,
                "wheel"@,
                crate::text::signed_decimal(y as int),
                crate::text::signed_decimal(x as int),
            ],
        ),
        says(typed, session@, seq!["keyboard"@, "type"@, text@]),
        says(keyed, session@, seq!["press"@, text@]),
        sized.timeout_seconds == 15 && moved.timeout_seconds == 15 && pressed.timeout_seconds == 15,
        scrolled.timeout_seconds == 15 && typed.timeout_seconds == 15 && keyed.timeout_seconds
            == 15,
{
}

/// A picture is asked for as a PNG in the file it is to be read from, and a browser
/// is closed by its session, with its file named after it.
pub proof fn law_pictures_and_closes_name_their_file(
    session: &str,
    path: &str,
    picture: Call,
    stopping: crate::browser::daemon::Stopping,
    file: String,
)
    requires
        call_ensures(crate::browser::daemon::screenshot, (session, path), picture),
        call_ensures(crate::browser::daemon::stop, (session,), stopping),
        call_ensures(crate::browser::client::screenshot_file, (session,), file),
    ensures
        says(picture, session@, seq!["--screenshot-format"@, "png"@, "screenshot"@, path@]),
        picture.timeout_seconds == 15,
        says(stopping.call, session@, seq!["close"@]),
        stopping.call.timeout_seconds == 5,
        stopping.screenshot@ == "herdr-browser-"@ + session@ + ".png"@,
        file@ == "herdr-browser-"@ + session@ + ".png"@,
{
}

/// A session is named after the server and the pane it belongs to.
pub proof fn law_a_session_is_named_after_its_pane(token: &str, pane: PaneId, r: String)
    requires
        call_ensures(crate::browser::daemon::session_name, (token, pane), r),
    ensures
        r@ == "herdr-"@ + token@ + "-"@ + crate::text::decimal(pane.number() as nat),
{
}

/// A run that succeeded hands its answer on; one that failed says why: in the
/// program's words, or by the action's name, or by what went wrong with the run.
pub proof fn law_a_run_succeeds_or_says_why(
    action: &str,
    result: Result<Response, CallError>,
    r: Result<Response, String>,
)
    requires
        call_ensures(crate::browser::daemon::ok_or_err, (action, result), r),
    ensures
        r is Ok == (result is Ok && result->Ok_0.success),
        r is Ok ==> r->Ok_0 == result->Ok_0,
        result matches Ok(response) ==> {
            &&& !response.success && response.error is Some ==> r->Err_0@ == response.error->0@
            &&& !response.success && response.error is None ==> r->Err_0@ == action@ + " failed"@
        },
        result matches Err(CallError::Spawn(error)) ==> r->Err_0@ == "failed to run agent-browser: "@
            + error@,
        result matches Err(CallError::Timeout { seconds }) ==> r->Err_0@
            == "agent-browser did not respond within "@ + crate::text::decimal(seconds as nat)
            + "s"@,
{
}

/// What went wrong with a run, in words.
pub proof fn law_run_errors_are_told(error: CallError, r: String)
    requires
        call_ensures(CallError::message, (&error,), r),
    ensures
        error matches CallError::Spawn(why) ==> r@ == "failed to run agent-browser: "@ + why@,
        error matches CallError::Timeout { seconds } ==> r@
            == "agent-browser did not respond within "@ + crate::text::decimal(seconds as nat)
            + "s"@,
        error matches CallError::Decode { status, stderr, source } ==> {
            let head = "failed to decode agent-browser output ("@ + status@ + "): "@ + source@;
            &&& stderr@.len() == 0 ==> r@ == head
            &&& stderr@.len() > 0 ==> r@ == head + "; stderr: "@ + stderr@
        },
{
}

/// The calls of a command are made one after the other, each only when the one before
/// succeeded; the first failure ends the command.
pub proof fn law_calls_are_made_in_turn(
    action: &str,
    calls: &Vec<Call>,
    made: usize,
    result: Result<Response, CallError>,
    first: Applying,
    next: Applying,
)
    requires
        made < calls@.len(),
        call_ensures(crate::browser::daemon::apply_begin, (calls,), first),
        call_ensures(crate::browser::daemon::applied, (action, calls, made, result), next),
    ensures
        first == Applying::Run(0),
        result is Ok && result->Ok_0.success ==> {
            &&& made + 1 < calls@.len() ==> next == Applying::Run((made + 1) as usize)
            &&& made + 1 == calls@.len() ==> next is Finished
        },
        !(result is Ok && result->Ok_0.success) ==> next is Failed,
{
}

/// A page's address and title are told where they say anything.
pub proof fn law_a_page_is_told_where_it_says_anything(
    url: String,
    title: String,
    error: String,
    r: Result<(Option<String>, Option<String>), String>,
    bad: Result<(Option<String>, Option<String>), String>,
)
    requires
        call_ensures(
            crate::browser::daemon::read_page,
            (Ok::<(String, String), String>((url, title)),),
            r,
        ),
        call_ensures(
            crate::browser::daemon::read_page,
            (Err::<(String, String), String>(error),),
            bad,
        ),
    ensures
        r is Ok,
        (r->Ok_0).0 is Some == (crate::text::trimmed(url@).len() > 0),
        (r->Ok_0).0 is Some ==> (r->Ok_0).0->0@ == url@,
        (r->Ok_0).1 is Some == (crate::text::trimmed(title@).len() > 0),
        (r->Ok_0).1 is Some ==> (r->Ok_0).1->0@ == title@,
        bad matches Err(reason) && reason@ == "decode page info: "@ + error@,
{
}

/// A page whose run failed, or that came back without a result, is not told.
pub proof fn law_a_page_without_an_answer_is_not_told(
    result: Result<Response, CallError>,
    r: Result<(Option<String>, Option<String>), String>,
)
    requires
        call_ensures(crate::browser::daemon::page_info, (result,), r),
    ensures
        !(result is Ok && result->Ok_0.success) ==> r is Err,
        result is Ok && result->Ok_0.success && result->Ok_0.data is None ==> r is Err && r->Err_0@
            == "page info response had no result"@,
{
}

/// A picture is complete when it begins and ends as a PNG does.
pub proof fn law_a_picture_is_complete_from_end_to_end(data: &[u8], r: bool)
    requires
        call_ensures(crate::browser::daemon::is_complete_png, (data,), r),
    ensures
        data@.len() < 8 ==> !r,
        data@.len() >= 8 ==> r == ({
            let n = data@.len() as int;
            &&& data@[0] == 0x89 && data@[1] == 0x50 && data@[2] == 0x4e && data@[3] == 0x47
            &&& data@[4] == 0x0d && data@[5] == 0x0a && data@[6] == 0x1a && data@[7] == 0x0a
            &&& data@[n - 8] == 0x49 && data@[n - 7] == 0x45 && data@[n - 6] == 0x4e && data@[n - 5]
                == 0x44
            &&& data@[n - 4] == 0xae && data@[n - 3] == 0x42 && data@[n - 2] == 0x60 && data@[n - 1]
                == 0x82
        }),
{
    if data@.len() >= 8 {
        let head = crate::browser::daemon::png_signature();
        let tail = crate::browser::daemon::png_end();
        let n = data@.len() as int;
        assert(head.len() == 8 && tail.len() == 8);
        if crate::browser::daemon::complete_png(data@) {
            assert(data@.skip(n - 8)[0] == tail[0] && data@.skip(n - 8)[1] == tail[1]
                && data@.skip(n - 8)[2] == tail[2] && data@.skip(n - 8)[3] == tail[3]
                && data@.skip(n - 8)[4] == tail[4] && data@.skip(n - 8)[5] == tail[5]
                && data@.skip(n - 8)[6] == tail[6] && data@.skip(n - 8)[7] == tail[7]);
            assert(data@.take(8)[0] == head[0] && data@.take(8)[1] == head[1] && data@.take(8)[2]
                == head[2] && data@.take(8)[3] == head[3] && data@.take(8)[4] == head[4]
                && data@.take(8)[5] == head[5] && data@.take(8)[6] == head[6] && data@.take(8)[7]
                == head[7]);
        } else {
            if data@[0] == 0x89 && data@[1] == 0x50 && data@[2] == 0x4e && data@[3] == 0x47
                && data@[4] == 0x0d && data@[5] == 0x0a && data@[6] == 0x1a && data@[7] == 0x0a {
                assert(data@.take(8) =~= head);
            }
            if data@[n - 8] == 0x49 && data@[n - 7] == 0x45 && data@[n - 6] == 0x4e && data@[n - 5]
                == 0x44 && data@[n - 4] == 0xae && data@[n - 3] == 0x42 && data@[n - 2] == 0x60
                && data@[n - 1] == 0x82 {
                assert(data@.skip(n - 8) =~= tail);
            }
        }
    }
}

/// A picture is handed on when the run succeeded, the file could be read and holds a
/// whole PNG.
pub proof fn law_only_a_whole_picture_is_handed_on(
    result: Result<Response, CallError>,
    file: Result<Vec<u8>, String>,
    r: Result<Vec<u8>, String>,
)
    requires
        call_ensures(crate::browser::daemon::screenshot_png, (result, file), r),
    ensures
        !(result is Ok && result->Ok_0.success) ==> r is Err,
        r matches Ok(data) ==> file == Ok::<Vec<u8>, String>(data)
            && crate::browser::daemon::complete_png(data@),
        result is Ok && result->Ok_0.success ==> {
            &&& file matches Err(error) ==> r is Err && r->Err_0@ == "read screenshot: "@ + error@
            &&& file matches Ok(data) ==> (r is Ok == crate::browser::daemon::complete_png(data@))
            &&& file is Ok && r is Err ==> r->Err_0@ == "screenshot file is not a complete PNG"@
        },
{
}

/// What a capture leads to: a new frame is reported and polled for at once again; the
/// same frame and a failure slow the polling down, up to two seconds; and the fifth
/// failure in a row ends the browser, saying why.
pub proof fn law_captures_are_reported_once(pane: PaneId, result: Result<Vec<u8>, String>)
    ensures
        forall|poll: &mut crate::browser::actor::Poll, r: crate::browser::actor::Captured|
            #[trigger]
            call_ensures(crate::browser::actor::Poll::captured, (poll, pane, result), r)
                && 200 <= (*poll).interval_ms <= 2000 ==> capture_leads(
                *poll,
                *final(poll),
                pane,
                result,
                r,
            ),
        forall|poll: &mut crate::browser::actor::Poll| #[trigger]
            call_ensures(crate::browser::actor::Poll::received, (poll,), ()) ==> (*final(poll)).interval_ms == 200 && (*final(poll)).last_frame == (*poll).last_frame && (*final(poll)).consecutive_failures == (*poll).consecutive_failures,
{
}

/// What a capture leaves, and what it is answered with.
pub open spec fn capture_leads(
    before: crate::browser::actor::Poll,
    after: crate::browser::actor::Poll,
    pane: PaneId,
    result: Result<Vec<u8>, String>,
    r: crate::browser::actor::Captured,
) -> bool {
    let slower = if before.interval_ms >= 1000 {
        2000
    } else {
        2 * before.interval_ms
    };
    match result {
        Ok(data) => {
            let seen = Some(crate::browser::actor::fingerprint(data@));
            &&& after.last_frame == seen
            &&& after.consecutive_failures == 0
            &&& before.last_frame == seen ==> r is Quiet && after.interval_ms == slower
            &&& before.last_frame != seen ==> after.interval_ms == 200 && r
                == crate::browser::actor::Captured::Report(
                crate::events::AppEvent::BrowserFrame { pane_id: pane, data },
            )
        },
        Err(reason) => {
            &&& after.last_frame == before.last_frame
            &&& after.interval_ms == slower
            &&& before.consecutive_failures < 0xffff_ffff ==> after.consecutive_failures
                == before.consecutive_failures + 1
            &&& before.consecutive_failures >= 4 ==> r == crate::browser::actor::Captured::Stop(
                crate::events::AppEvent::BrowserDaemonExited { pane_id: pane, reason },
            )
            &&& before.consecutive_failures < 4 ==> r is Quiet
        },
    }
}

/// Polling begins at once, with nothing seen and nothing failed; a session is given up
/// after five failures in a row; and a browser that did not open says why.
pub proof fn law_polling_begins_at_once(
    poll: crate::browser::actor::Poll,
    failures: u32,
    dead: bool,
    pane: PaneId,
    result: Result<(), String>,
    told: Option<crate::events::AppEvent>,
    interval: u64,
    slower: u64,
)
    requires
        call_ensures(crate::browser::actor::Poll::new, (), poll),
        call_ensures(crate::browser::actor::session_looks_dead, (failures,), dead),
        call_ensures(crate::browser::actor::opened, (pane, result), told),
        call_ensures(crate::browser::actor::backed_off, (interval,), slower),
    ensures
        poll.interval_ms == 200,
        poll.last_frame is None,
        poll.consecutive_failures == 0,
        dead == (failures >= 5),
        result is Ok ==> told is None,
        result matches Err(reason) ==> told == Some(
            crate::events::AppEvent::BrowserDaemonExited { pane_id: pane, reason },
        ),
        interval <= 1000 ==> slower == 2 * interval,
        interval >= 1000 ==> slower == 2000,
{
}

} // verus!
