[package]
name = "glitch-in-the-matrix"
version = "0.14.0"
edition = "2021"
publish = false

[dependencies]
serde_json = { version = "=1.0.154", features = ["preserve_order"] }
percent-encoding = "=1.0.1"
uuid = { version = "=1.29.0", features = ["v4"] }
http = "=0.1.21"
hyper = "=0.12.36"
hyper-openssl = "=0.7.1"
futures = "=0.1.31"
tokio-core = "=0.1.18"
failure = "=0.1.8"
