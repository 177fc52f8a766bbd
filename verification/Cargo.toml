[package]
name = "crabby_proxy"
version = "0.1.0"
edition = "2021"
publish = false

[dependencies]
anyhow = "=1.0.104"
base64 = "=0.22.1"
byte-pool = "=0.2.4"
chrono = "=0.4.45"
clap = { version = "=4.6.7", features = ["derive"] }
getrandom = "=0.4.3"
lazy_static = "=1.5.1"
rustls-pemfile = "=2.2.0"
thiserror = "=1.0.69"
tokio = { version = "=1.54.1", features = ["full"] }
tokio-rustls = { version = "=0.26.6", default-features = false, features = ["ring", "logging", "tls12"] }
tracing = "=0.1.44"
tracing-subscriber = "=0.3.23"
uuid = { version = "=1.29.0", features = ["v4"] }
