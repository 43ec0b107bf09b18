[package]
name = "wtt"
version = "0.1.0"
edition = "2021"
publish = false

[dependencies]
anyhow = "1"
chrono = "0.4"
crossterm = { version = "=0.28.1", features = ["event-stream"] }
dirs = "=7.0.0"
dunce = "1"
futures = "0.3"
gix = { version = "=0.90.0", default-features = false, features = ["status", "revision", "sha1"] }
ratatui = "=0.29.0"
serde = { version = "1", features = ["derive"] }
serde_json = "1"
tokio = { version = "1", features = ["rt-multi-thread", "macros", "sync", "time"] }
tracing = "0.1"
tracing-appender = "0.2"
tracing-subscriber = { version = "0.3", features = ["env-filter"] }
unicode-width = "=0.2.0"
