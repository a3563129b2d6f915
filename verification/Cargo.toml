[package]
name = "stream_browser"
version = "0.1.0"
edition = "2021"
publish = false

[dependencies]
serde_json = "1"
eventstore = "2"
tokio = { version = "1", features = ["rt-multi-thread"] }
crossterm = "0.25"
tui = { version = "0.19", default-features = false, features = ["crossterm"] }
chrono = "0.4"
