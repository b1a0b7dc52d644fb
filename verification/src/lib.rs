//! Peer federation and browser panes for a terminal multiplexer.
//!
//! One server connects out to others, its *peers*, and shows their workspaces
//! beside its own. This library holds what that takes to decide: the identity
//! servers know each other by, the registry of peers, the routing of requests
//! to the peer that owns their target, the restating of a peer's answers in
//! local ids, the keeping alive of views, and the rules of browser panes. It
//! does no input or output of its own: a function takes what was read and says
//! what is to be done.

pub mod api;
pub mod app;
pub mod browser;
pub mod cli;
pub mod client;
pub mod events;
pub mod identity_laws;
pub mod instance_id;
pub mod json;
pub mod pairs;
pub mod pane;
pub mod paths;
pub mod persist;
pub mod public_id;
pub mod search;
pub mod terminal;
pub mod text;
pub mod text_laws;
