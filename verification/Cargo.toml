[package]
name = "binance_bot"
version = "0.1.0"
edition = "2021"
publish = false

[dependencies]
openlimits = "0.1"
rust_decimal = "1"
warp = "0.3"
tokio = { version = "1", features = ["full"] }
futures = "0.3"
serde = { version = "1", features = ["derive"] }
serde_json = "1"
tracing = "0.1"
tracing-subscriber = { version = "0.3", features = ["env-filter"] }
tracing-appender = "0.2"
tracing-log = "0.2"
lazy_static = "1"
async-std = "1"
