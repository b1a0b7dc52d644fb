[package]
name = "herdr"
version = "0.1.0"
edition = "2021"
publish = false

[dependencies]
bytes = "1"
crossterm = "0.29"
interprocess = "2"
ratatui = { version = "0.29", default-features = false, features = ["crossterm"] }
schemars = "1"
serde = { version = "1", features = ["derive"] }
serde_json = "1"
sha2 = "0.10"
tokio = { version = "1", features = ["rt", "sync", "time", "macros"] }
tracing = "0.1"
