[package]
name = "local-workflow-agent"
version = "0.1.0"
edition = "2021"
publish = false

[dependencies]
serde = { version = "1", features = ["derive"] }
serde_json = "1"
base64 = "0.22"
mime_guess = "2"
uuid = { version = "1", features = ["v4"] }
anyhow = "1"
dirs = "6"
chrono = "0.4"
tokio = { version = "1", features = ["rt-multi-thread", "sync", "macros", "time"] }
tokio-util = "0.7"
futures = "0.3"
async-channel = "2"
async-trait = "0.1"
parking_lot = "0.12"
tracing = "0.1"
reqwest = { version = "0.12", default-features = false }
rusqlite = { version = "0.32", features = ["bundled"] }
turso = "*"
