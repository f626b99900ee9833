[package]
name = "firehose_bench"
version = "0.1.0"
edition = "2021"
publish = false

[dependencies]
serde_json = "*"
tokio = { version = "*", features = ["rt-multi-thread", "macros"] }
tokio-tungstenite = "*"
futures-util = "*"
