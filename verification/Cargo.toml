[package]
name = "networker"
version = "0.1.0"
edition = "2021"
publish = false

[dependencies]
anyhow = "1"
async-trait = "0.1"
dirs = "4"
env_logger = "0.9"
log = "0.4"
thiserror = "1"
tokio = { version = "1", features = ["full"] }
tokio-graceful-shutdown = "0.12"
tokio-io-timeout = "1"
tokio-rustls = { version = "0.23", features = ["dangerous_configuration"] }
webpki-roots = "0.22"
