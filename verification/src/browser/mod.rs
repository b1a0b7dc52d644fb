//! Browser panes: what a pane's browser session is told, and what it answers.
//!
//! A browser pane shows a session of the `agent-browser` program, which is run
//! once per action. Each pane has an actor that applies commands and polls for
//! frames; this module holds every decision it makes.

pub mod actor;
pub mod client;
pub mod command;
pub mod daemon;
pub mod keys;
pub mod laws;
pub mod url;
