//! Requests that concern peers, and everything reached from them.

pub mod connection;
pub mod forward;
pub mod laws;
pub mod lifecycle;
pub mod answer_laws;
pub mod open_laws;
pub mod routing_laws;
pub mod panes;
pub mod registry;
pub mod resolve;
pub mod rewrite;
pub mod steps;
pub mod view_laws;
pub mod views;
pub mod worker;
pub mod worktrees;
