//! What the commands of the command line ask for.
//!
//! A command's arguments are read into what is to be done, or into what is wrong
//! with them. Whoever runs a command prints that and exits with code 2.

pub mod browser;
pub mod laws;
pub mod peer;
