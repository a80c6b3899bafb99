[package]
name = "tor_bridge"
version = "0.1.0"
edition = "2021"
publish = false

[dependencies]
url = "2"
serde_json = "1"
serde = { version = "1", features = ["derive"] }
socks = "0.3"
tokio = { version = "1", features = ["rt-multi-thread", "time"] }
once_cell = "1"
log = "0.4"
