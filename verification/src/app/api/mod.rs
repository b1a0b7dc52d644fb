//! What the application does about API requests.

pub mod announce;
pub mod browser;
pub mod browser_laws;
pub mod peers;
