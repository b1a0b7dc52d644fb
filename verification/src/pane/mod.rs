//! Panes.

pub mod state;
