[package]
name = "yatagarasu"
version = "0.1.0"
edition = "2021"
publish = false

[dependencies]
serde = { version = "=1.0.229", features = ["derive"] }
serde_json = "=1.0.154"
uuid = { version = "=1.29.0", features = ["v4"] }
regex = "=1.13.1"
tracing = "=0.1.44"
urlencoding = "=2.1.3"
signal-hook = "=0.4.6"
governor = { version = "0.6", default-features = false, features = ["std"] }
