//! Requests about browser panes, and what is told of them.

use vstd::prelude::*;

verus! {

/// Opens a browser pane split from `pane_id`, or from the focused pane without
/// one. It goes to the right of the target, takes half its room and is focused.
#[derive(Debug, PartialEq, Eq)]
pub struct BrowserOpenParams {
    pub pane_id: Option<String>,
    pub url: Option<String>,
}

#[derive(Debug, PartialEq, Eq)]
pub struct BrowserNavigateParams {
    pub pane_id: String,
    pub url: String,
}

/// A browser pane, for an action that needs no other input.
#[derive(Debug, PartialEq, Eq)]
pub struct BrowserPaneTarget {
    pub pane_id: String,
}

/// What a browser pane is currently showing, as far as the last look at the page
/// could tell.
#[derive(Debug, PartialEq, Eq)]
pub struct BrowserPageInfo {
    pub pane_id: String,
    pub url: Option<String>,
    pub title: Option<String>,
    /// Set when the pane's session has failed and the pane waits for a retry.
    pub error: Option<String>,
}

} // verus!
