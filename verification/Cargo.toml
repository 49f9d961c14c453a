[package]
name = "tradingview"
version = "0.1.0"
edition = "2021"
publish = false

[dependencies]
tokio = { version = "=1.54.1", default-features = false, features = ["sync"] }
serde = { version = "=1.0.229", features = ["derive"] }
serde_json = "=1.0.154"
ustr = { version = "=1.1.0", features = ["serde"] }
tracing = "=0.1.44"
