//! Keyboard actions for a browser pane.
//!
//! Printable characters are typed, so that they can be batched; everything else
//! is pressed as a named key or modifier chord.

use vstd::prelude::*;

use crate::browser::command::BrowserCommand;
use crate::text::{cat2, to_decimal};

verus! {

/// Which key an event is about.
#[derive(Debug, Clone, Copy, PartialEq, Eq, Structural)]
pub enum KeyCode {
    Char(char),
    Enter,
    Tab,
    /// Shift and tab, which arrives as a key of its own.
    BackTab,
    Backspace,
    Delete,
    Esc,
    Left,
    Right,
    Up,
    Down,
    Home,
    End,
    PageUp,
    PageDown,
    Insert,
    F(u8),
    /// Any key a page or a dialog has no use for.
    Other,
}

/// The modifiers held with a key.
#[derive(Debug, Clone, Copy, PartialEq, Eq, Structural)]
pub struct KeyModifiers {
    pub control: bool,
    pub alt: bool,
    pub shift: bool,
    pub super_key: bool,
    /// A modifier of another kind.
    pub other: bool,
}

#[derive(Debug, Clone, Copy, PartialEq, Eq, Structural)]
pub enum KeyEventKind {
    Press,
    Repeat,
    Release,
}

/// One event of the keyboard.
#[derive(Debug, Clone, Copy, PartialEq, Eq, Structural)]
pub struct KeyEvent {
    pub code: KeyCode,
    pub modifiers: KeyModifiers,
    pub kind: KeyEventKind,
}

impl KeyModifiers {
    /// No modifier that makes a chord is held.
    pub open spec fn types(self) -> bool {
        !self.control && !self.alt && !self.super_key
    }

    /// Nothing but perhaps shift is held.
    pub open spec fn plain(self) -> bool {
        self.types() && !self.other
    }

    /// Whether no modifier that makes a chord is held.
    pub fn is_text(&self) -> (r: bool)
        ensures
            r == self.types(),
    {
        !self.control && !self.alt && !self.super_key
    }

    /// Whether nothing but perhaps shift is held.
    pub fn is_plain(&self) -> (r: bool)
        ensures
            r == self.plain(),
    {
        self.is_text() && !self.other
    }
}

/// The name of a key, and whether the name implies shift.
pub open spec fn named(code: KeyCode) -> Option<(Seq<char>, bool)> {
    match code {
        KeyCode::Enter => Some(("Enter"@, false)),
        KeyCode::Tab => Some(("Tab"@, false)),
        KeyCode::BackTab => Some(("Tab"@, true)),
        KeyCode::Backspace => Some(("Backspace"@, false)),
        KeyCode::Delete => Some(("Delete"@, false)),
        KeyCode::Esc => Some(("Escape"@, false)),
        KeyCode::Left => Some(("ArrowLeft"@, false)),
        KeyCode::Right => Some(("ArrowRight"@, false)),
        KeyCode::Up => Some(("ArrowUp"@, false)),
        KeyCode::Down => Some(("ArrowDown"@, false)),
        KeyCode::Home => Some(("Home"@, false)),
        KeyCode::End => Some(("End"@, false)),
        KeyCode::PageUp => Some(("PageUp"@, false)),
        KeyCode::PageDown => Some(("PageDown"@, false)),
        KeyCode::Insert => Some(("Insert"@, false)),
        KeyCode::F(n) => if 1 <= n <= 12 {
            Some(("F"@ + crate::text::decimal(n as nat), false))
        } else {
            None
        },
        KeyCode::Char(c) => Some((seq![c], false)),
        KeyCode::Other => None,
    }
}

/// A key's name behind the modifiers held with it.
pub open spec fn chord(name: Seq<char>, mods: KeyModifiers, force_shift: bool) -> Seq<char> {
    let control = if mods.control {
        "Control+"@
    } else {
        Seq::empty()
    };
    let alt = if mods.alt {
        "Alt+"@
    } else {
        Seq::empty()
    };
    let shift = if force_shift || mods.shift {
        "Shift+"@
    } else {
        Seq::empty()
    };
    let meta = if mods.super_key {
        "Meta+"@
    } else {
        Seq::empty()
    };
    control + alt + shift + meta + name
}

/// What a key does in a browser pane.
pub open spec fn command_of(key: KeyEvent) -> Option<crate::browser::command::CommandView> {
    if key.kind == KeyEventKind::Release {
        None
    } else {
        match (key.code, named(key.code)) {
            (KeyCode::Char(c), _) if key.modifiers.types() => Some(
                crate::browser::command::CommandView::TypeText(seq![c]),
            ),
            (_, Some((name, force_shift))) => Some(
                crate::browser::command::CommandView::PressKey(
                    chord(name, key.modifiers, force_shift),
                ),
            ),
            _ => None,
        }
    }
}

fn char_text(c: char) -> (r: String)
    ensures
        r@ == seq![c],
{
    let mut out = String::new();
    out.push(c);
    assert(out@ =~= seq![c]);
    out
}

/// Returns the command a focused browser pane should run for `key`, or `None`
/// when the key carries nothing for the page.
///
/// Shift alone makes no chord: it is already folded into the character, and
/// pressing it as well would apply it twice.
pub fn command_for_key(key: &KeyEvent) -> (r: Option<BrowserCommand>)
    ensures
        match r {
            Some(command) => command_of(*key) == Some(command@),
            None => command_of(*key) is None,
        },
{
    if key.kind == KeyEventKind::Release {
        return None;
    }
    match key.code {
        KeyCode::Char(c) => {
            if key.modifiers.is_text() {
                return Some(BrowserCommand::TypeText(char_text(c)));
            }
        },
        _ => {},
    }
    match key_name(key.code) {
        Some((name, force_shift)) => Some(
            BrowserCommand::PressKey(with_modifiers(name.as_str(), key.modifiers, force_shift)),
        ),
        None => None,
    }
}

/// The name for `code`, plus whether the name implies shift.
pub fn key_name(code: KeyCode) -> (r: Option<(String, bool)>)
    ensures
        match r {
            Some((name, shift)) => named(code) == Some((name@, shift)),
            None => named(code) is None,
        },
{
    let name = match code {
        KeyCode::Enter => "Enter",
        KeyCode::Tab => "Tab",
        KeyCode::BackTab => {
            return Some(("Tab".to_owned(), true));
        },
        KeyCode::Backspace => "Backspace",
        KeyCode::Delete => "Delete",
        KeyCode::Esc => "Escape",
        KeyCode::Left => "ArrowLeft",
        KeyCode::Right => "ArrowRight",
        KeyCode::Up => "ArrowUp",
        KeyCode::Down => "ArrowDown",
        KeyCode::Home => "Home",
        KeyCode::End => "End",
        KeyCode::PageUp => "PageUp",
        KeyCode::PageDown => "PageDown",
        KeyCode::Insert => "Insert",
        KeyCode::F(n) => {
            return if 1 <= n && n <= 12 {
                Some((cat2("F", to_decimal(n as u64).as_str()), false))
            } else {
                None
            };
        },
        KeyCode::Char(c) => {
            return Some((char_text(c), false));
        },
        KeyCode::Other => {
            return None;
        },
    };
    Some((name.to_owned(), false))
}

/// A key's name behind the modifiers held with it.
pub fn with_modifiers(name: &str, mods: KeyModifiers, force_shift: bool) -> (r: String)
    ensures
        r@ == chord(name@, mods, force_shift),
{
    let mut out = String::new();
    if mods.control {
        out.append("Control+");
    }
    let ghost first = out@;
    if mods.alt {
        out.append("Alt+");
    }
    let ghost second = out@;
    if force_shift || mods.shift {
        out.append("Shift+");
    }
    let ghost third = out@;
    if mods.super_key {
        out.append("Meta+");
    }
    proof {
        let control = if mods.control {
            "Control+"@
        } else {
            Seq::empty()
        };
        let alt = if mods.alt {
            "Alt+"@
        } else {
            Seq::empty()
        };
        let shift = if force_shift || mods.shift {
            "Shift+"@
        } else {
            Seq::empty()
        };
        let meta = if mods.super_key {
            "Meta+"@
        } else {
            Seq::empty()
        };
        assert(first =~= control);
        assert(second =~= control + alt);
        assert(third =~= control + alt + shift);
        assert(out@ =~= control + alt + shift + meta);
    }
    out.append(name);
    out
}

} // verus!
