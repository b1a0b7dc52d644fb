//! What a pane hosts and how it is shown.

use vstd::prelude::*;

use crate::terminal::TerminalId;

verus! {

/// What a pane actually hosts.
///
/// Browser panes are driven by a browser session and drawn entirely through the
/// graphics overlay; they still carry a terminal id, which gives them a label
/// and an identity wherever panes are indexed by terminal.
#[derive(Clone, Copy, Debug, PartialEq, Eq, Structural)]
pub enum PaneKind {
    /// A terminal with a process behind it.
    Terminal,
    /// A browser session, with no process of its own.
    Browser,
}

impl Default for PaneKind {
    fn default() -> (r: Self)
        ensures
            r == PaneKind::Terminal,
    {
        PaneKind::Terminal
    }
}

impl PaneKind {
    pub fn is_browser(self) -> (r: bool)
        ensures
            r == (self == PaneKind::Browser),
    {
        matches!(self, PaneKind::Browser)
    }
}

/// Viewport state for a pane.
#[derive(Debug, PartialEq, Eq)]
pub struct PaneState {
    pub attached_terminal_id: TerminalId,
    /// What this pane hosts. It travels with the pane through splits, snapshots
    /// and restore, so nothing has to keep a parallel id set in sync.
    pub kind: PaneKind,
    /// Whether the user has seen this pane since its last state change to idle.
    pub seen: bool,
}

impl PaneState {
    pub fn new(attached_terminal_id: TerminalId) -> (r: Self)
        ensures
            r == (PaneState { attached_terminal_id, kind: PaneKind::Terminal, seen: true }),
    {
        PaneState { attached_terminal_id, kind: PaneKind::Terminal, seen: true }
    }

    pub fn new_browser(attached_terminal_id: TerminalId) -> (r: Self)
        ensures
            r == (PaneState { attached_terminal_id, kind: PaneKind::Browser, seen: true }),
    {
        PaneState { attached_terminal_id, kind: PaneKind::Browser, seen: true }
    }

    pub fn is_browser(&self) -> (r: bool)
        ensures
            r == (self.kind == PaneKind::Browser),
    {
        self.kind.is_browser()
    }
}

} // verus!
