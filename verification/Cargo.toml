[package]
name = "resume_mainframe"
version = "0.1.0"
edition = "2021"
publish = false

[dependencies]
axum = "0.8"
futures-util = "0.3"
nix = { version = "0.30", features = ["process"] }
serde = { version = "1", features = ["derive"] }
serde_json = "1"
sqlx = { version = "0.8", default-features = false, features = ["runtime-tokio", "sqlite", "macros", "derive", "json"] }
tokio = { version = "1", features = ["rt-multi-thread", "macros", "sync", "fs", "net", "time"] }
tokio-stream = { version = "0.1", features = ["sync"] }
tower-http = { version = "0.6", features = ["compression-gzip"] }
tracing = "0.1"
tracing-subscriber = "0.3"
