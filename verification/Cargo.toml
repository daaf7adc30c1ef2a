[package]
name = "message_facade"
version = "0.1.0"
edition = "2021"
publish = false

[dependencies]
rand = "0.8"
uuid = { version = "1", features = ["v4"] }
serde = { version = "1", features = ["derive"] }
serde_json = "1"
tokio = { version = "1", features = ["full"] }
rdkafka = "0.36"
reqwest = { version = "0.11", default-features = false, features = ["json"] }
redis = { version = "0.25", features = ["cluster-async", "tokio-comp"] }
rocket = { version = "0.5", features = ["json"] }
log = "0.4"
env_logger = "0.11"
