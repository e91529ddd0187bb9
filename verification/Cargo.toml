[package]
name = "torque_harness"
version = "0.1.0"
edition = "2021"
publish = false

[dependencies]
anyhow = "1"
async-trait = "0.1"
async-stream = "0.3"
chrono = { version = "0.4", default-features = false, features = ["clock", "std"] }
futures = "0.3"
serde = { version = "1", features = ["derive"] }
serde_json = "1"
tokio = { version = "1", features = ["sync", "time", "rt", "macros"] }
tokio-stream = "0.1"
tracing = "0.1"
uuid = { version = "1", features = ["v4", "serde"] }
reqwest = { version = "0.12", default-features = false, features = ["json"] }
redis = { version = "0.27", default-features = false, features = ["aio", "tokio-comp", "connection-manager"] }
