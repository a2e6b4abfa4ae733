[package]
name = "grok_privacy"
version = "0.1.0"
edition = "2021"
publish = false

[dependencies]
uuid = { version = "1", features = ["v5"] }
sha2 = "0.10"
blake3 = "1"
tokio = { version = "1", features = ["sync", "rt", "macros", "time"] }
tokio-util = "*"
serde = { version = "1", features = ["derive"] }
serde_json = "1"
fastrace = "*"
anyhow = "1"
thiserror = "*"
async-trait = "*"
strum = { version = "*", features = ["derive"] }
parking_lot = "*"
tracing = "*"
tracing-subscriber = "*"
chrono = { version = "*", default-features = false, features = ["clock", "std"] }
agent-client-protocol = "*"
reqwest = { version = "*", default-features = false }
reqwest-middleware = "*"
fastrace-reqwest = "*"
tonic = "*"
fastrace-tonic = "*"
tower = "*"
http = "*"
