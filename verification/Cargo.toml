[package]
name = "pricefeed"
version = "0.1.0"
edition = "2021"
publish = false

[dependencies]
anyhow = "*"
clap = { version = "*", features = ["derive"] }
flate2 = "*"
futures-channel = "*"
futures-util = "*"
serde_json = "*"
tokio = { version = "*", features = ["rt-multi-thread", "macros", "net", "time", "sync", "io-util"] }
tokio-socks = "*"
tokio-tungstenite = { version = "*", features = ["rustls-tls-webpki-roots"] }
