//! What a server reports about its workspaces.

use vstd::prelude::*;
use vstd::std_specs::cmp::PartialEqSpecImpl;

use crate::pairs::{clone_pairs, same_pairs};
use crate::text::str_eq;

verus! {

/// The state of a workspace's agents, as it is shown.
#[derive(Debug, Clone, Copy, PartialEq, Eq, Structural)]
pub enum AgentStatus {
    Idle,
    Working,
    Blocked,
    Done,
    Unknown,
}

/// The checkout a workspace sits in.
#[derive(Debug, PartialEq, Eq)]
pub struct WorkspaceWorktreeInfo {
    pub repo_key: String,
    pub repo_name: String,
    pub repo_root: String,
    pub checkout_path: String,
    pub is_linked_worktree: bool,
}

/// The contents of a [`WorkspaceWorktreeInfo`].
pub struct WorkspaceWorktreeView {
    pub repo_key: Seq<char>,
    pub repo_name: Seq<char>,
    pub repo_root: Seq<char>,
    pub checkout_path: Seq<char>,
    pub is_linked_worktree: bool,
}

impl View for WorkspaceWorktreeInfo {
    type V = WorkspaceWorktreeView;

    open spec fn view(&self) -> WorkspaceWorktreeView {
        WorkspaceWorktreeView {
            repo_key: self.repo_key@,
            repo_name: self.repo_name@,
            repo_root: self.repo_root@,
            checkout_path: self.checkout_path@,
            is_linked_worktree: self.is_linked_worktree,
        }
    }
}

impl Clone for WorkspaceWorktreeInfo {
    fn clone(&self) -> (r: Self)
        ensures
            r@ == self@,
    {
        WorkspaceWorktreeInfo {
            repo_key: self.repo_key.clone(),
            repo_name: self.repo_name.clone(),
            repo_root: self.repo_root.clone(),
            checkout_path: self.checkout_path.clone(),
            is_linked_worktree: self.is_linked_worktree,
        }
    }
}

impl WorkspaceWorktreeInfo {
    /// Whether two accounts of a checkout say the same.
    pub fn same(&self, other: &Self) -> (r: bool)
        ensures
            r == (self@ == other@),
    {
        str_eq(self.repo_key.as_str(), other.repo_key.as_str()) && str_eq(
            self.repo_name.as_str(),
            other.repo_name.as_str(),
        ) && str_eq(self.repo_root.as_str(), other.repo_root.as_str()) && str_eq(
            self.checkout_path.as_str(),
            other.checkout_path.as_str(),
        ) && self.is_linked_worktree == other.is_linked_worktree
    }
}

/// A workspace as its server reports it.
#[derive(Debug, Eq)]
pub struct WorkspaceInfo {
    pub workspace_id: String,
    pub number: usize,
    pub label: String,
    pub focused: bool,
    pub pane_count: usize,
    pub tab_count: usize,
    pub active_tab_id: String,
    pub agent_status: AgentStatus,
    /// Display tokens by name.
    pub tokens: Vec<(String, String)>,
    pub worktree: Option<WorkspaceWorktreeInfo>,
}

/// The contents of a [`WorkspaceInfo`].
pub struct WorkspaceInfoView {
    pub workspace_id: Seq<char>,
    pub number: usize,
    pub label: Seq<char>,
    pub focused: bool,
    pub pane_count: usize,
    pub tab_count: usize,
    pub active_tab_id: Seq<char>,
    pub agent_status: AgentStatus,
    pub tokens: Map<Seq<char>, Seq<char>>,
    pub worktree: Option<WorkspaceWorktreeView>,
}

/// The contents of a list of workspaces.
pub open spec fn workspaces_view(workspaces: Seq<WorkspaceInfo>) -> Seq<WorkspaceInfoView> {
    workspaces.map_values(|w: WorkspaceInfo| w@)
}

impl View for WorkspaceInfo {
    type V = WorkspaceInfoView;

    open spec fn view(&self) -> WorkspaceInfoView {
        WorkspaceInfoView {
            workspace_id: self.workspace_id@,
            number: self.number,
            label: self.label@,
            focused: self.focused,
            pane_count: self.pane_count,
            tab_count: self.tab_count,
            active_tab_id: self.active_tab_id@,
            agent_status: self.agent_status,
            tokens: crate::pairs::pairs_view(self.tokens@),
            worktree: match self.worktree {
                Some(worktree) => Some(worktree@),
                None => None,
            },
        }
    }
}

impl Clone for WorkspaceInfo {
    fn clone(&self) -> (r: Self)
        ensures
            r@ == self@,
    {
        WorkspaceInfo {
            workspace_id: self.workspace_id.clone(),
            number: self.number,
            label: self.label.clone(),
            focused: self.focused,
            pane_count: self.pane_count,
            tab_count: self.tab_count,
            active_tab_id: self.active_tab_id.clone(),
            agent_status: self.agent_status,
            tokens: clone_pairs(&self.tokens),
            worktree: match &self.worktree {
                Some(worktree) => Some(worktree.clone()),
                None => None,
            },
        }
    }
}

impl WorkspaceInfo {
    /// Whether two reports of a workspace say the same.
    pub fn same(&self, other: &Self) -> (r: bool)
        ensures
            r == (self@ == other@),
    {
        let same_worktree = match (&self.worktree, &other.worktree) {
            (Some(a), Some(b)) => a.same(b),
            (None, None) => true,
            _ => false,
        };
        str_eq(self.workspace_id.as_str(), other.workspace_id.as_str()) && self.number
            == other.number && str_eq(self.label.as_str(), other.label.as_str()) && self.focused
            == other.focused && self.pane_count == other.pane_count && self.tab_count
            == other.tab_count && str_eq(self.active_tab_id.as_str(), other.active_tab_id.as_str())
            && self.agent_status == other.agent_status && same_pairs(&self.tokens, &other.tokens)
            && same_worktree
    }
}

impl PartialEq for WorkspaceInfo {
    fn eq(&self, other: &Self) -> (r: bool) {
        self.same(other)
    }
}

impl PartialEqSpecImpl for WorkspaceInfo {
    open spec fn obeys_eq_spec() -> bool {
        true
    }

    open spec fn eq_spec(&self, other: &Self) -> bool {
        self@ == other@
    }
}

/// A copy of a list of workspaces.
pub fn clone_workspaces(workspaces: &Vec<WorkspaceInfo>) -> (r: Vec<WorkspaceInfo>)
    ensures
        workspaces_view(r@) == workspaces_view(workspaces@),
{
    let mut out: Vec<WorkspaceInfo> = Vec::new();
    let mut i: usize = 0;
    while i < workspaces.len()
        invariant
            i <= workspaces.len(),
            out@.len() == i,
            forall|j: int| 0 <= j < i ==> (#[trigger] out@[j])@ == workspaces@[j]@,
        decreases workspaces.len() - i,
    {
        out.push(workspaces[i].clone());
        i += 1;
    }
    assert(workspaces_view(out@) =~= workspaces_view(workspaces@));
    out
}

/// Whether two lists of workspaces say the same, in the same order.
pub fn same_workspaces(a: &Vec<WorkspaceInfo>, b: &Vec<WorkspaceInfo>) -> (r: bool)
    ensures
        r == (workspaces_view(a@) == workspaces_view(b@)),
{
    if a.len() != b.len() {
        assert(workspaces_view(a@).len() != workspaces_view(b@).len());
        return false;
    }
    let mut i: usize = 0;
    while i < a.len()
        invariant
            i <= a.len() == b.len(),
            forall|j: int| 0 <= j < i ==> (#[trigger] a@[j])@ == b@[j]@,
        decreases a.len() - i,
    {
        if !a[i].same(&b[i]) {
            assert(workspaces_view(a@)[i as int] != workspaces_view(b@)[i as int]);
            return false;
        }
        i += 1;
    }
    assert(workspaces_view(a@) =~= workspaces_view(b@));
    true
}

} // verus!
