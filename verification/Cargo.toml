[package]
name = "flow_bot"
version = "0.1.0"
edition = "2021"
publish = false

[dependencies]
serde = { version = "*", features = ["derive"] }
serde_json = "*"
tokio = { version = "*", features = ["rt", "rt-multi-thread", "sync", "time", "net", "macros"] }
tokio-tungstenite = "*"
futures = "*"
uuid = { version = "*", features = ["v4"] }
dashmap = "*"
async-trait = "*"
thiserror = "*"
