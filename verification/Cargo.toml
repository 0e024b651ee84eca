[package]
name = "httpdrs"
version = "0.1.0"
edition = "2021"
publish = false

[dependencies]
base64 = "0.22"
csv = "1"
jwt = "0.16"
md5 = "0.7"
rmp-serde = "1"
serde = { version = "1", features = ["derive"] }
reqwest = { version = "0.12", default-features = false, features = ["json", "rustls-tls"] }
tokio = { version = "1", features = ["rt-multi-thread", "macros", "time", "sync", "fs", "io-util", "signal"] }
tokio-util = "0.7"
futures = "0.3"
tracing = "0.1"
tracing-appender = "0.2"
tracing-subscriber = { version = "0.3", features = ["env-filter"] }
indicatif = "0.17"
