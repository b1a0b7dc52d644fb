//! What subscribers are told about what was done.
//!
//! The events go out in the order they are listed, once the change they are about
//! is in place.

use vstd::prelude::*;

use crate::api::schema::events::EventKind;
use crate::api::schema::worktrees::WorktreeInfo;
use crate::app::api::peers::forward::Reply;
use crate::app::state::{PaneId, Workspace};

verus! {

/// One event that is to go out. A position is that in the state the change left
/// behind.
#[derive(Debug, PartialEq, Eq)]
pub enum Announcement {
    /// A tab was made, and its pane with it.
    TabCreated { ws_idx: usize, tab_idx: usize },
    PaneCreated { ws_idx: usize, pane_id: PaneId },
    LayoutUpdated { ws_idx: usize, tab_idx: usize },
    /// A workspace was closed; it is named by the id clients know it by.
    WorkspaceClosed { workspace_id: String },
    /// A checkout was made, and the workspace at this position views it.
    WorktreeCreated { ws_idx: usize, worktree: WorktreeInfo },
    /// A checkout was opened, and the workspace at this position views it.
    WorktreeOpened { ws_idx: usize, worktree: WorktreeInfo, already_open: bool },
    /// A checkout was removed; the workspace that viewed it went by this id.
    WorktreeRemoved { workspace_id: String, worktree: WorktreeInfo, forced: bool },
}

impl Announcement {
    /// What the event is an event of.
    pub open spec fn kind_view(self) -> EventKind {
        match self {
            Announcement::TabCreated { .. } => EventKind::TabCreated,
            Announcement::PaneCreated { .. } => EventKind::PaneCreated,
            Announcement::LayoutUpdated { .. } => EventKind::LayoutUpdated,
            Announcement::WorkspaceClosed { .. } => EventKind::WorkspaceClosed,
            Announcement::WorktreeCreated { .. } => EventKind::WorktreeCreated,
            Announcement::WorktreeOpened { .. } => EventKind::WorktreeOpened,
            Announcement::WorktreeRemoved { .. } => EventKind::WorktreeRemoved,
        }
    }

    /// What the event is an event of.
    pub fn kind(&self) -> (r: EventKind)
        ensures
            r == self.kind_view(),
    {
        match self {
            Announcement::TabCreated { .. } => EventKind::TabCreated,
            Announcement::PaneCreated { .. } => EventKind::PaneCreated,
            Announcement::LayoutUpdated { .. } => EventKind::LayoutUpdated,
            Announcement::WorkspaceClosed { .. } => EventKind::WorkspaceClosed,
            Announcement::WorktreeCreated { .. } => EventKind::WorktreeCreated,
            Announcement::WorktreeOpened { .. } => EventKind::WorktreeOpened,
            Announcement::WorktreeRemoved { .. } => EventKind::WorktreeRemoved,
        }
    }
}

/// What goes out with an answer: what it says is new, and nothing else.
pub open spec fn announced(reply: Reply) -> Seq<Announcement> {
    match reply {
        Reply::Tab { ws_idx, tab_idx } => seq![Announcement::TabCreated { ws_idx, tab_idx }],
        Reply::Pane { ws_idx, tab_idx, pane_id, .. } => seq![
            Announcement::PaneCreated { ws_idx, pane_id },
            Announcement::LayoutUpdated { ws_idx, tab_idx },
        ],
        Reply::WorktreeCreated { ws_idx, worktree, .. } => seq![
            Announcement::WorktreeCreated { ws_idx, worktree },
        ],
        Reply::WorktreeOpened { ws_idx, worktree, already_open, .. } => seq![
            Announcement::WorktreeOpened { ws_idx, worktree, already_open },
        ],
        _ => Seq::empty(),
    }
}

/// The closing of this workspace.
pub open spec fn announces_close(event: Announcement, workspace: Workspace) -> bool {
    event == (Announcement::WorkspaceClosed { workspace_id: workspace.public_id })
}

impl Reply {
    /// What goes out with this answer.
    pub fn announcements(&self) -> (r: Vec<Announcement>)
        ensures
            r@ == announced(*self),
    {
        let mut out: Vec<Announcement> = Vec::new();
        match self {
            Reply::Tab { ws_idx, tab_idx } => {
                out.push(Announcement::TabCreated { ws_idx: *ws_idx, tab_idx: *tab_idx });
            },
            Reply::Pane { ws_idx, tab_idx, pane_id, .. } => {
                out.push(Announcement::PaneCreated { ws_idx: *ws_idx, pane_id: *pane_id });
                out.push(Announcement::LayoutUpdated { ws_idx: *ws_idx, tab_idx: *tab_idx });
            },
            Reply::WorktreeCreated { ws_idx, worktree, .. } => {
                out.push(
                    Announcement::WorktreeCreated { ws_idx: *ws_idx, worktree: worktree.clone() },
                );
            },
            Reply::WorktreeOpened { ws_idx, worktree, already_open, .. } => {
                out.push(
                    Announcement::WorktreeOpened {
                        ws_idx: *ws_idx,
                        worktree: worktree.clone(),
                        already_open: *already_open,
                    },
                );
            },
            _ => {},
        }
        assert(out@ =~= announced(*self));
        out
    }
}

/// The closing events of these workspaces, in their order.
pub fn closing_announcements(workspaces: &Vec<Workspace>) -> (r: Vec<Announcement>)
    ensures
        r@.len() == workspaces@.len(),
        forall|i: int|
            0 <= i < r@.len() ==> announces_close(#[trigger] r@[i], workspaces@[i]),
{
    let mut out: Vec<Announcement> = Vec::new();
    let mut i: usize = 0;
    while i < workspaces.len()
        invariant
            i <= workspaces@.len(),
            out@.len() == i,
            forall|j: int| 0 <= j < i ==> announces_close(#[trigger] out@[j], workspaces@[j]),
        decreases workspaces@.len() - i,
    {
        out.push(Announcement::WorkspaceClosed { workspace_id: workspaces[i].public_id.clone() });
        i += 1;
    }
    out
}

} // verus!
