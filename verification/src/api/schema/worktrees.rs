//! What is said about Git checkouts.

use vstd::prelude::*;

verus! {

/// One checkout of a repository.
#[derive(Debug, PartialEq, Eq)]
pub struct WorktreeInfo {
    pub path: String,
    pub branch: Option<String>,
    pub is_bare: bool,
    pub is_detached: bool,
    pub is_prunable: bool,
    pub is_linked_worktree: bool,
    /// The workspace the checkout is open in.
    pub open_workspace_id: Option<String>,
    pub label: String,
}

/// The contents of a [`WorktreeInfo`].
pub struct WorktreeView {
    pub path: Seq<char>,
    pub branch: Option<Seq<char>>,
    pub is_bare: bool,
    pub is_detached: bool,
    pub is_prunable: bool,
    pub is_linked_worktree: bool,
    pub open_workspace_id: Option<Seq<char>>,
    pub label: Seq<char>,
}

impl View for WorktreeInfo {
    type V = WorktreeView;

    open spec fn view(&self) -> WorktreeView {
        WorktreeView {
            path: self.path@,
            branch: crate::text::opt_view(self.branch),
            is_bare: self.is_bare,
            is_detached: self.is_detached,
            is_prunable: self.is_prunable,
            is_linked_worktree: self.is_linked_worktree,
            open_workspace_id: crate::text::opt_view(self.open_workspace_id),
            label: self.label@,
        }
    }
}

impl Clone for WorktreeInfo {
    fn clone(&self) -> (r: Self)
        ensures
            r == *self,
    {
        WorktreeInfo {
            path: self.path.clone(),
            branch: crate::text::opt_clone(&self.branch),
            is_bare: self.is_bare,
            is_detached: self.is_detached,
            is_prunable: self.is_prunable,
            is_linked_worktree: self.is_linked_worktree,
            open_workspace_id: crate::text::opt_clone(&self.open_workspace_id),
            label: self.label.clone(),
        }
    }
}

/// The repository a list of checkouts is about.
#[derive(Debug, PartialEq, Eq)]
pub struct WorktreeSourceInfo {
    pub repo_key: String,
    pub repo_name: String,
    pub repo_root: String,
    pub source_checkout_path: String,
    pub source_workspace_id: Option<String>,
}

} // verus!
