[package]
name = "humanophone"
version = "0.1.0"
edition = "2021"
publish = false

[dependencies]
anyhow = "=1.0.104"
clap = { version = "=4.6.7", features = ["derive"] }
futures-util = { version = "=0.3.34", features = ["sink"] }
http = "=1.5.0"
humantime = "=2.4.0"
midly = "=0.5.3"
rand = "=0.8.8"
rustls = "=0.21.12"
rustls-pemfile = "=1.0.4"
serde_json = "=1.0.154"
tokio = { version = "=1.54.1", features = ["full"] }
tokio-rustls = "=0.24.1"
tokio-websockets = { version = "=0.13.3", features = ["client", "server", "sha1_smol", "fastrand", "ring", "rustls-webpki-roots"] }
tracing = "=0.1.44"
tracing-subscriber = "=0.3.23"
