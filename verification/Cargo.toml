[package]
name = "brainrot_relay"
version = "0.1.0"
edition = "2021"
publish = false

[dependencies]
serde_json = "1"
anyhow = "1"
tokio = { version = "1", features = ["rt-multi-thread", "macros", "process", "io-util", "sync", "time"] }
