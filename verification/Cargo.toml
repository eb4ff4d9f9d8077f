[package]
name = "rvm"
version = "0.1.0"
edition = "2021"
publish = false

[dependencies]
ansi_term = "0.12"
async-stream = "0.3"
bytes = "1"
crossterm = { version = "0.19", features = ["event-stream"] }
futures = "0.3"
scopeguard = "1"
serde = { version = "1", features = ["derive"] }
serde_cbor = "0.11"
strum = { version = "0.20", features = ["derive"] }
thiserror = "1"
tokio = { version = "1", features = ["full"] }
tokio-util = { version = "0.6", features = ["codec"] }
tracing = "0.1"
tracing-core = "0.1"
tracing-subscriber = { version = "0.2", default-features = false, features = ["fmt", "registry", "ansi"] }
tracing-log = "0.1"
tracing-appender = "0.1"
tui = { version = "0.14", default-features = false, features = ["crossterm"] }
