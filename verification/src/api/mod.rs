//! The socket API: what requests and answers look like.

pub mod client;
pub mod event_hub;
pub mod laws;
pub mod schema;
