//! Dialog for adding a peer server.
//!
//! Everything an ssh peer needs before it can be added may have to ask the user
//! something, and a server has no terminal to ask on. So the dialog does not add
//! the peer: it collects a destination, and a pane runs the command that connects,
//! where it can prompt. A successful connect exits the shell, which closes the
//! pane; a failed one stays on screen.

use vstd::prelude::*;

use crate::app::state::{App, Mode, PeerHistoryEntry};
use crate::browser::keys::{KeyCode, KeyEvent};
use crate::text::{
    before_first_char, cat2, chars_of, drop_last_char, is_control_char, starts_with,
    strip_prefix, trim,
};

verus! {

/// What the keys of the dialog go to.
#[derive(Debug, Clone, Copy, PartialEq, Eq, Structural)]
pub enum AddPeerField {
    Destination,
    Name,
    /// The list of peers that were added before.
    Recent,
}

/// The dialog while it is open.
#[derive(Debug, PartialEq, Eq)]
pub struct AddPeerState {
    pub destination: String,
    pub name: String,
    pub field: AddPeerField,
    pub recent_selected: usize,
    pub error: Option<String>,
}

/// The contents of an [`AddPeerState`].
pub struct AddPeerView {
    pub destination: Seq<char>,
    pub name: Seq<char>,
    pub field: AddPeerField,
    pub recent_selected: usize,
    pub error: Option<Seq<char>>,
}

impl View for AddPeerState {
    type V = AddPeerView;

    open spec fn view(&self) -> AddPeerView {
        AddPeerView {
            destination: self.destination@,
            name: self.name@,
            field: self.field,
            recent_selected: self.recent_selected,
            error: crate::text::opt_view(self.error),
        }
    }
}

/// The contents of the dialog, if it is open.
pub open spec fn dialog_view(add: Option<AddPeerState>) -> Option<AddPeerView> {
    match add {
        Some(add) => Some(add@),
        None => None,
    }
}

/// An empty dialog.
pub open spec fn empty_dialog() -> AddPeerView {
    AddPeerView {
        destination: Seq::empty(),
        name: Seq::empty(),
        field: AddPeerField::Destination,
        recent_selected: 0,
        error: None,
    }
}

impl Default for AddPeerState {
    fn default() -> (r: Self)
        ensures
            r@ == empty_dialog(),
    {
        AddPeerState {
            destination: String::new(),
            name: String::new(),
            field: AddPeerField::Destination,
            recent_selected: 0,
            error: None,
        }
    }
}

/// The destination a history target was made from.
pub open spec fn destination_of(target: Seq<char>) -> Seq<char> {
    let rest = if crate::text::has_prefix(target, "ssh://"@) {
        target.skip("ssh://"@.len() as int)
    } else {
        target
    };
    let at = crate::text::find_from(rest, '#', 0);
    rest.take(at)
}

/// The peer was reached over ssh.
pub open spec fn is_ssh() -> spec_fn(PeerHistoryEntry) -> bool {
    |e: PeerHistoryEntry| crate::text::has_prefix(e.target@, "ssh://"@)
}

/// The peers the dialog offers again.
pub open spec fn recent(history: Seq<PeerHistoryEntry>) -> Seq<PeerHistoryEntry> {
    history.filter(is_ssh())
}

impl AddPeerView {
    /// The keys go to the next field; the list counts only when there is one.
    pub open spec fn toggled(self, has_recent: bool) -> AddPeerView {
        AddPeerView {
            field: match self.field {
                AddPeerField::Destination => AddPeerField::Name,
                AddPeerField::Name => if has_recent {
                    AddPeerField::Recent
                } else {
                    AddPeerField::Destination
                },
                AddPeerField::Recent => AddPeerField::Destination,
            },
            ..self
        }
    }

    /// Typing leaves the list.
    pub open spec fn typing(self) -> AddPeerView {
        AddPeerView {
            field: if self.field == AddPeerField::Recent {
                AddPeerField::Destination
            } else {
                self.field
            },
            ..self
        }
    }

    /// The text that is typed into.
    pub open spec fn input(self) -> Seq<char> {
        if self.field == AddPeerField::Name {
            self.name
        } else {
            self.destination
        }
    }

    /// The text that is typed into is this one.
    pub open spec fn with_input(self, text: Seq<char>) -> AddPeerView {
        if self.field == AddPeerField::Name {
            AddPeerView { name: text, ..self }
        } else {
            AddPeerView { destination: text, ..self }
        }
    }

    /// The dialog holds what was added before.
    pub open spec fn filled(self, entry: PeerHistoryEntry) -> AddPeerView {
        AddPeerView {
            destination: destination_of(entry.target@),
            name: entry.name@,
            field: AddPeerField::Destination,
            ..self
        }
    }

    /// The entry of the list that the selection is on, when the keys go to the
    /// list.
    pub open spec fn chosen(self, history: Seq<PeerHistoryEntry>) -> Option<PeerHistoryEntry> {
        if self.field == AddPeerField::Recent && self.recent_selected < recent(history).len() {
            Some(recent(history)[self.recent_selected as int])
        } else {
            None
        }
    }

    /// What a key other than those that close or submit does.
    pub open spec fn after_key(self, key: KeyEvent, history: Seq<PeerHistoryEntry>) -> AddPeerView {
        let count = recent(history).len();
        let in_list = self.field == AddPeerField::Recent && count > 0;
        match key.code {
            KeyCode::Tab => self.toggled(count > 0),
            KeyCode::Up => if in_list {
                AddPeerView {
                    recent_selected: if self.recent_selected == 0 {
                        0
                    } else {
                        (self.recent_selected - 1) as usize
                    },
                    ..self
                }
            } else {
                self.toggled(count > 0)
            },
            KeyCode::Down => if in_list {
                AddPeerView {
                    recent_selected: if self.recent_selected + 1 < count {
                        (self.recent_selected + 1) as usize
                    } else {
                        (count - 1) as usize
                    },
                    ..self
                }
            } else {
                self.toggled(count > 0)
            },
            KeyCode::Backspace => self.typing().with_input(
                crate::text::without_last(self.typing().input()),
            ),
            KeyCode::Char(c) => if key.modifiers.plain() && !crate::text::is_control(c) {
                self.typing().with_input(self.typing().input() + seq![c])
            } else {
                self
            },
            _ => self,
        }
    }
}

/// The destination a history target was made from.
pub fn peer_history_destination(target: &str) -> (r: &str)
    ensures
        r@ == destination_of(target@),
{
    let rest = match strip_prefix(target, "ssh://") {
        Some(rest) => rest,
        None => target,
    };
    before_first_char(rest, '#')
}

impl AddPeerState {
    /// Moves to the next field.
    pub fn toggle_field(&mut self, has_recent: bool)
        ensures
            final(self)@ == old(self)@.toggled(has_recent),
    {
        self.field = match self.field {
            AddPeerField::Destination => AddPeerField::Name,
            AddPeerField::Name => if has_recent {
                AddPeerField::Recent
            } else {
                AddPeerField::Destination
            },
            AddPeerField::Recent => AddPeerField::Destination,
        };
    }

    /// The text that is typed into.
    pub fn active_input_mut(&mut self) -> (r: &mut String)
        ensures
            r@ == old(self)@.input(),
            final(self)@ == old(self)@.with_input(final(r)@),
    {
        match self.field {
            AddPeerField::Name => &mut self.name,
            _ => &mut self.destination,
        }
    }

    /// Takes what was added before.
    pub fn fill_from_history(&mut self, entry: &PeerHistoryEntry)
        ensures
            final(self)@ == old(self)@.filled(*entry),
    {
        self.destination = peer_history_destination(entry.target.as_str()).to_owned();
        self.name = entry.name.clone();
        self.field = AddPeerField::Destination;
    }
}

/// A character that means nothing to a shell.
pub open spec fn is_safe(c: char) -> bool {
    ||| '0' <= c <= '9'
    ||| 'a' <= c <= 'z'
    ||| 'A' <= c <= 'Z'
    ||| c == '@'
    ||| c == '%'
    ||| c == '_'
    ||| c == '+'
    ||| c == '='
    ||| c == ':'
    ||| c == ','
    ||| c == '.'
    ||| c == '/'
    ||| c == '-'
}

/// How a character stands between quotes: a quote is closed, written by itself
/// and opened again.
pub open spec fn escape(c: char) -> Seq<char> {
    if c == '\'' {
        seq!['\'', '\\', '\'', '\'']
    } else {
        seq![c]
    }
}

/// How a text stands between quotes.
pub open spec fn escaped(value: Seq<char>) -> Seq<char>
    decreases value.len(),
{
    if value.len() == 0 {
        Seq::empty()
    } else {
        escaped(value.drop_last()) + escape(value.last())
    }
}

/// A text as one word of a shell.
pub open spec fn quoted(value: Seq<char>) -> Seq<char> {
    if value.len() > 0 && (forall|i: int| 0 <= i < value.len() ==> is_safe(#[trigger] value[i])) {
        value
    } else {
        seq!['\''] + escaped(value) + seq!['\'']
    }
}

/// What a shell reads from `s` as one word: the text, or nothing when the word
/// ends early or a quote stays open. Between quotes every character stands for
/// itself, and behind a backslash the next one does.
pub open spec fn shell_word(s: Seq<char>, in_quotes: bool) -> Option<Seq<char>>
    decreases s.len(),
{
    if s.len() == 0 {
        if in_quotes {
            None
        } else {
            Some(Seq::empty())
        }
    } else if s[0] == '\'' {
        shell_word(s.skip(1), !in_quotes)
    } else if in_quotes || is_safe(s[0]) {
        match shell_word(s.skip(1), in_quotes) {
            Some(rest) => Some(seq![s[0]] + rest),
            None => None,
        }
    } else if s[0] == '\\' && s.len() > 1 {
        match shell_word(s.skip(2), false) {
            Some(rest) => Some(seq![s[1]] + rest),
            None => None,
        }
    } else {
        None
    }
}

proof fn lemma_escaped_front(value: Seq<char>)
    requires
        value.len() > 0,
    ensures
        escaped(value) == escape(value[0]) + escaped(value.skip(1)),
    decreases value.len(),
{
    let shorter = value.drop_last();
    if value.len() == 1 {
        assert(shorter =~= Seq::empty());
        assert(value.skip(1) =~= Seq::empty());
        assert(escaped(value) =~= escape(value[0]) + escaped(value.skip(1)));
    } else {
        lemma_escaped_front(shorter);
        assert(value.skip(1).drop_last() =~= shorter.skip(1));
        assert(escaped(value) =~= escape(value[0]) + escaped(value.skip(1)));
    }
}

proof fn lemma_reads_escaped(value: Seq<char>)
    ensures
        shell_word(escaped(value) + seq!['\''], true) == Some(value),
    decreases value.len(),
{
    let end = seq!['\''];
    if value.len() == 0 {
        let s = escaped(value) + end;
        assert(s.skip(1) =~= Seq::empty());
        assert(value =~= Seq::empty());
        assert(shell_word(s, true) == shell_word(s.skip(1), false));
    } else {
        let rest = value.skip(1);
        lemma_escaped_front(value);
        lemma_reads_escaped(rest);
        let tail = escaped(rest) + end;
        let s = escaped(value) + end;
        if value[0] == '\'' {
            assert(s =~= seq!['\'', '\\', '\'', '\''] + tail);
            let after_close = s.skip(1);
            assert(after_close =~= seq!['\\', '\'', '\''] + tail);
            assert(after_close.skip(2) =~= seq!['\''] + tail);
            assert(after_close.skip(2).skip(1) =~= tail);
            assert(shell_word(after_close.skip(2), false) == shell_word(tail, true));
            assert(after_close[0] == '\\' && after_close[1] == '\'');
            assert(shell_word(after_close, false) == Some(seq!['\''] + rest));
            assert(shell_word(s, true) == shell_word(after_close, false));
        } else {
            assert(s =~= seq![value[0]] + tail);
            assert(s.skip(1) =~= tail);
        }
        assert(value =~= seq![value[0]] + rest);
    }
}

proof fn lemma_reads_safe(value: Seq<char>)
    requires
        forall|i: int| 0 <= i < value.len() ==> is_safe(#[trigger] value[i]),
    ensures
        shell_word(value, false) == Some(value),
    decreases value.len(),
{
    if value.len() > 0 {
        assert forall|i: int| 0 <= i < value.skip(1).len() implies is_safe(
            #[trigger] value.skip(1)[i],
        ) by {
            assert(value.skip(1)[i] == value[i + 1]);
        }
        lemma_reads_safe(value.skip(1));
        assert(is_safe(value[0]));
        assert(value =~= seq![value[0]] + value.skip(1));
    } else {
        assert(value =~= Seq::empty());
    }
}

/// A shell reads a quoted text back as exactly that text, whatever it holds: it is
/// one word, and nothing in it can end the word.
pub proof fn law_a_quoted_text_is_one_word(value: Seq<char>)
    ensures
        shell_word(quoted(value), false) == Some(value),
{
    if value.len() > 0 && (forall|i: int| 0 <= i < value.len() ==> is_safe(#[trigger] value[i])) {
        lemma_reads_safe(value);
    } else {
        lemma_reads_escaped(value);
        let s = quoted(value);
        assert(s.skip(1) =~= escaped(value) + seq!['\'']);
    }
}

fn is_safe_char(c: char) -> (r: bool)
    ensures
        r == is_safe(c),
{
    ('0' <= c && c <= '9') || ('a' <= c && c <= 'z') || ('A' <= c && c <= 'Z') || c == '@' || c
        == '%' || c == '_' || c == '+' || c == '=' || c == ':' || c == ',' || c == '.' || c == '/'
        || c == '-'
}

/// A text as one word of a shell. A destination is typed by a user and heads for a
/// shell, so it is quoted and not just put in.
pub fn shell_quote(value: &str) -> (r: String)
    ensures
        r@ == quoted(value@),
{
    let chars = chars_of(value);
    let mut safe = chars.len() > 0;
    let mut i: usize = 0;
    while i < chars.len() && safe
        invariant
            i <= chars@.len(),
            chars@ == value@,
            safe ==> chars@.len() > 0 && forall|j: int| 0 <= j < i ==> is_safe(#[trigger] chars@[j]),
            !safe ==> !(chars@.len() > 0 && forall|j: int|
                0 <= j < chars@.len() ==> is_safe(#[trigger] chars@[j])),
        decreases chars@.len() - i + if safe {
            1int
        } else {
            0int
        },
    {
        if is_safe_char(chars[i]) {
            i += 1;
        } else {
            assert(!is_safe(chars@[i as int]));
            safe = false;
        }
    }
    if safe {
        return value.to_owned();
    }
    let mut out = String::new();
    out.push('\'');
    let mut k: usize = 0;
    assert(chars@.take(0) =~= Seq::empty());
    assert(out@ =~= seq!['\''] + escaped(chars@.take(0)));
    while k < chars.len()
        invariant
            k <= chars@.len(),
            out@ == seq!['\''] + escaped(chars@.take(k as int)),
        decreases chars@.len() - k,
    {
        let ghost before = out@;
        if chars[k] == '\'' {
            out.push('\'');
            out.push('\\');
            out.push('\'');
            out.push('\'');
        } else {
            out.push(chars[k]);
        }
        assert(out@ =~= before + escape(chars@[k as int]));
        assert(chars@.take(k + 1).drop_last() =~= chars@.take(k as int));
        k += 1;
        assert(out@ =~= seq!['\''] + escaped(chars@.take(k as int)));
    }
    assert(chars@.take(k as int) =~= chars@);
    out.push('\'');
    assert(out@ =~= quoted(value@));
    out
}

/// The command line a pane runs to connect.
pub open spec fn connect_command(program: Seq<char>, destination: Seq<char>, name: Seq<char>) -> Seq<
    char,
> {
    let head = quoted(program) + " peer connect "@ + quoted(destination);
    let named = if name.len() == 0 {
        head
    } else {
        head + " --name "@ + quoted(name)
    };
    named + " && exit"@
}

/// Builds the command line a pane runs.
///
/// The exit is what retires the pane: its program is a shell, and without it a
/// successful connect would leave an idle prompt behind.
pub fn peer_connect_command(program: &str, destination: &str, name: &str) -> (r: String)
    ensures
        r@ == connect_command(program@, destination@, name@),
{
    let mut command = shell_quote(program);
    command.append(" peer connect ");
    command.append(shell_quote(destination).as_str());
    if !name.is_empty() {
        command.append(" --name ");
        command.append(shell_quote(name).as_str());
    }
    command.append(" && exit");
    command
}

/// What a new pane is to run, and what its workspace is called.
#[derive(Debug, PartialEq, Eq)]
pub struct PeerConnect {
    pub command: String,
    pub workspace_name: String,
}

/// Only the dialog and the mode changed.
pub open spec fn changes_dialog(before: App, after: App) -> bool {
    after == (App {
        state: crate::app::state::AppState {
            add_peer: after.state.add_peer,
            mode: after.state.mode,
            ..before.state
        },
        ..before
    })
}

/// The dialog is closed.
pub open spec fn closes_dialog(before: App, after: App) -> bool {
    &&& changes_dialog(before, after)
    &&& after.state.add_peer is None
    &&& after.state.mode == crate::app::peer_picker::mode_behind(before.state.active)
}

/// The dialog says why it could not go on.
pub open spec fn dialog_fails(before: App, after: App, error: Seq<char>) -> bool {
    &&& changes_dialog(before, after)
    &&& after.state.mode == before.state.mode
    &&& dialog_view(after.state.add_peer) == match dialog_view(before.state.add_peer) {
        Some(add) => Some(AddPeerView { error: Some(error), ..add }),
        None => None,
    }
}

/// What submitting the dialog comes to.
pub open spec fn submits_dialog(
    before: App,
    after: App,
    program: Seq<char>,
    r: Option<PeerConnect>,
) -> bool {
    match dialog_view(before.state.add_peer) {
        None => after == before && r is None,
        Some(add) => {
            let destination = crate::text::trimmed(add.destination);
            if destination.len() == 0 {
                r is None && dialog_fails(before, after, "enter an ssh destination"@)
            } else {
                &&& after == before
                &&& r is Some
                &&& r->0.command@ == connect_command(
                    program,
                    destination,
                    crate::text::trimmed(add.name),
                )
                &&& r->0.workspace_name@ == "connect "@ + destination
            }
        },
    }
}

/// The position of the `n`th entry of the list, or none.
fn nth_recent(history: &Vec<PeerHistoryEntry>, n: usize) -> (r: Option<&PeerHistoryEntry>)
    ensures
        match r {
            Some(entry) => n < recent(history@).len() && recent(history@)[n as int] == *entry,
            None => n >= recent(history@).len(),
        },
{
    let mut seen: usize = 0;
    let mut i: usize = 0;
    proof {
        reveal(Seq::filter);
        assert(history@.take(0) =~= Seq::empty());
    }
    while i < history.len()
        invariant
            seen <= i <= history@.len(),
            seen == history@.take(i as int).filter(is_ssh()).len(),
            seen <= n,
        decreases history@.len() - i,
    {
        proof {
            crate::search::lemma_filter_step(history@, is_ssh(), i as int);
        }
        if starts_with(history[i].target.as_str(), "ssh://") {
            if seen == n {
                proof {
                    let head = history@.take(i + 1);
                    let tail = history@.skip(i + 1);
                    assert(history@ =~= head + tail);
                    Seq::filter_distributes_over_add(head, tail, is_ssh());
                    assert(head.filter(is_ssh()).last() == history@[i as int]);
                }
                return Some(&history[i]);
            }
            seen += 1;
        }
        i += 1;
    }
    assert(history@.take(i as int) =~= history@);
    None
}

fn count_recent(history: &Vec<PeerHistoryEntry>) -> (r: usize)
    ensures
        r == recent(history@).len(),
{
    let mut seen: usize = 0;
    let mut i: usize = 0;
    proof {
        reveal(Seq::filter);
        assert(history@.take(0) =~= Seq::empty());
    }
    while i < history.len()
        invariant
            seen <= i <= history@.len(),
            seen == history@.take(i as int).filter(is_ssh()).len(),
        decreases history@.len() - i,
    {
        proof {
            crate::search::lemma_filter_step(history@, is_ssh(), i as int);
        }
        if starts_with(history[i].target.as_str(), "ssh://") {
            seen += 1;
        }
        i += 1;
    }
    assert(history@.take(i as int) =~= history@);
    seen
}

impl App {
    /// Opens the dialog.
    pub fn open_add_peer_dialog(&mut self)
        ensures
            changes_dialog(*old(self), *final(self)),
            dialog_view(final(self).state.add_peer) == Some(empty_dialog()),
            final(self).state.mode == Mode::AddPeer,
    {
        self.state.add_peer = Some(AddPeerState::default());
        self.state.mode = Mode::AddPeer;
    }

    /// Closes the dialog.
    pub fn close_add_peer_dialog(&mut self)
        ensures
            closes_dialog(*old(self), *final(self)),
    {
        self.state.add_peer = None;
        self.state.mode = self.mode_behind_dialog();
    }

    /// Takes a key for the dialog. `program` is this program's own path.
    pub fn handle_add_peer_key(&mut self, key: KeyEvent, program: &str) -> (r: Option<PeerConnect>)
        ensures
            match key.code {
                KeyCode::Esc => r is None && closes_dialog(*old(self), *final(self)),
                KeyCode::Enter => match dialog_view(old(self).state.add_peer) {
                    Some(add) if add.chosen(old(self).state.peer_history@) is Some => {
                        &&& r is None
                        &&& changes_dialog(*old(self), *final(self))
                        &&& final(self).state.mode == old(self).state.mode
                        &&& dialog_view(final(self).state.add_peer) == Some(
                            add.filled(add.chosen(old(self).state.peer_history@)->0),
                        )
                    },
                    _ => submits_dialog(*old(self), *final(self), program@, r),
                },
                _ => {
                    &&& r is None
                    &&& changes_dialog(*old(self), *final(self))
                    &&& final(self).state.mode == old(self).state.mode
                    &&& dialog_view(final(self).state.add_peer) == match dialog_view(
                        old(self).state.add_peer,
                    ) {
                        Some(add) => Some(add.after_key(key, old(self).state.peer_history@)),
                        None => None,
                    }
                },
            },
    {
        let count = count_recent(&self.state.peer_history);
        match key.code {
            KeyCode::Esc => {
                self.close_add_peer_dialog();
                return None;
            },
            KeyCode::Enter => {
                let history = &self.state.peer_history;
                if let Some(add) = &mut self.state.add_peer {
                    if add.field == AddPeerField::Recent {
                        if let Some(entry) = nth_recent(history, add.recent_selected) {
                            add.fill_from_history(entry);
                            return None;
                        }
                    }
                }
                return self.submit_add_peer(program);
            },
            _ => {},
        }
        if let Some(add) = &mut self.state.add_peer {
            let in_list = add.field == AddPeerField::Recent && count > 0;
            match key.code {
                KeyCode::Tab => add.toggle_field(count > 0),
                KeyCode::Up => {
                    if in_list {
                        if add.recent_selected > 0 {
                            add.recent_selected = add.recent_selected - 1;
                        }
                    } else {
                        add.toggle_field(count > 0);
                    }
                },
                KeyCode::Down => {
                    if in_list {
                        if add.recent_selected < count - 1 {
                            add.recent_selected = add.recent_selected + 1;
                        } else {
                            add.recent_selected = count - 1;
                        }
                    } else {
                        add.toggle_field(count > 0);
                    }
                },
                KeyCode::Backspace => {
                    if add.field == AddPeerField::Recent {
                        add.field = AddPeerField::Destination;
                    }
                    let input = add.active_input_mut();
                    *input = drop_last_char(input.as_str());
                },
                KeyCode::Char(c) => {
                    if key.modifiers.is_plain() && !is_control_char(c) {
                        if add.field == AddPeerField::Recent {
                            add.field = AddPeerField::Destination;
                        }
                        let input = add.active_input_mut();
                        let ghost before = input@;
                        input.push(c);
                        assert(input@ =~= before + seq![c]);
                    }
                },
                _ => {},
            }
        }
        None
    }

    /// Adds to the text that is typed into.
    pub fn insert_add_peer_text(&mut self, text: &str)
        ensures
            changes_dialog(*old(self), *final(self)),
            final(self).state.mode == old(self).state.mode,
            dialog_view(final(self).state.add_peer) == match dialog_view(
                old(self).state.add_peer,
            ) {
                Some(add) => Some(add.with_input(add.input() + text@)),
                None => None,
            },
    {
        if let Some(add) = &mut self.state.add_peer {
            add.active_input_mut().append(text);
        }
    }

    /// What a pane is to run for the typed destination. Whether the pane could be
    /// opened is handed to [`App::add_peer_opened`].
    pub fn submit_add_peer(&mut self, program: &str) -> (r: Option<PeerConnect>)
        ensures
            submits_dialog(*old(self), *final(self), program@, r),
    {
        if let Some(add) = &mut self.state.add_peer {
            let destination = trim(add.destination.as_str());
            if destination.is_empty() {
                add.error = Some("enter an ssh destination".to_owned());
                return None;
            }
            let command = peer_connect_command(program, destination, trim(add.name.as_str()));
            let workspace_name = cat2("connect ", destination);
            return Some(PeerConnect { command, workspace_name });
        }
        None
    }

    /// Closes the dialog once its pane is open, or says why it is not.
    pub fn add_peer_opened(&mut self, opened: Result<(), String>)
        ensures
            match opened {
                Ok(_) => closes_dialog(*old(self), *final(self)),
                Err(error) => dialog_fails(
                    *old(self),
                    *final(self),
                    "could not open a pane: "@ + error@,
                ),
            },
    {
        match opened {
            Ok(_) => self.close_add_peer_dialog(),
            Err(error) => {
                if let Some(add) = &mut self.state.add_peer {
                    add.error = Some(cat2("could not open a pane: ", error.as_str()));
                }
            },
        }
    }
}

} // verus!
