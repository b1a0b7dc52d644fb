//! The application's state and the decisions made on it.

pub mod api;
pub mod browser_panes;
pub mod dialog_laws;
pub mod hidden_peer_picker;
pub mod hitbox;
pub mod layout;
pub mod layout_laws;
pub mod pane_map;
pub mod peer_picker;
pub mod peer_setup_dialog;
pub mod peer_laws;
pub mod peers;
pub mod runtime_mutations;
pub mod session;
pub mod state;
