[package]
name = "market_feed"
version = "0.1.0"
edition = "2021"
publish = false

[dependencies]
serde_json = "*"
serde = "*"
futures = "*"
tokio = { version = "*", features = ["rt-multi-thread", "macros", "net"] }
tokio-tungstenite = "*"
url = "*"
reqwest = { version = "*", default-features = false, features = ["json"] }
