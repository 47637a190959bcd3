[package]
name = "casper_sdk_rs"
version = "0.1.0"
edition = "2021"
publish = false

[dependencies]
serde_json = "*"
tokio = { version = "*", features = ["sync", "rt", "time", "macros"] }
reqwest = { version = "*", default-features = false, features = ["stream"] }
eventsource-stream = "*"
futures = "*"
