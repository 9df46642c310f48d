[package]
name = "market_feed"
version = "0.1.0"
edition = "2021"
publish = false

[dependencies]
serde_json = "1"
rand = "0.8"
chrono = "0.4"
tokio = { version = "1", features = ["rt-multi-thread", "macros", "sync", "time", "net"] }
axum = { version = "*", features = ["ws"] }
futures-util = "0.3"
tokio-tungstenite = "*"
