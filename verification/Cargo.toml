[package]
name = "hudsucker"
version = "0.1.0"
edition = "2021"
publish = false

[dependencies]
http = "0.2"
hyper = { version = "0.14", features = ["http1", "server", "client", "tcp"] }
tokio = { version = "1", features = ["rt", "io-util", "macros"] }
tokio-rustls = "0.23"
tokio-tungstenite = "0.17"
hyper-tungstenite = "0.8"
futures = "0.3"
bytes = "1"
async-trait = "0.1"
log = "0.4"
