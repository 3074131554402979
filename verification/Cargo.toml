[package]
name = "kraken_ws"
version = "0.1.0"
edition = "2021"
publish = false

[dependencies]
anyhow = "1"
serde_json = "=1.0.151"
websocket = { version = "=0.27.1", default-features = false, features = ["sync-ssl"] }
