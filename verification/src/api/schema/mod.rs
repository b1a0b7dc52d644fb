//! The data that travels in requests, answers and events.

pub mod browser;
pub mod events;
pub mod peers;
pub mod requests;
pub mod responses;
pub mod workspaces;
pub mod worktrees;
