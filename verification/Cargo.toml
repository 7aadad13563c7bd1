[package]
name = "alarm_protocol"
version = "0.1.0"
edition = "2021"
publish = false

[dependencies]
anyhow = "1"
fastwebsockets = { version = "0.4", features = ["upgrade"] }
hyper = { version = "0.14", features = ["server", "http1"] }
rustls-pemfile = "1"
tokio = { version = "1", features = ["full"] }
tokio-rustls = "0.24"
