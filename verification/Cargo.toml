[package]
name = "portforward"
version = "0.1.0"
edition = "2021"
publish = false

[dependencies]
bytes = "1"
futures = "0.3"
thiserror = "1"
tokio = { version = "1", features = ["io-util", "rt"] }
tokio-tungstenite = "0.20"
tokio-util = { version = "0.7", features = ["io"] }
