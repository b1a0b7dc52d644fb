//! What a client does with what it is sent.

pub mod frame_dump;
pub mod laws;
