[package]
name = "withdrawal_gateway"
version = "0.1.0"
edition = "2021"
publish = false

[dependencies]
axum = "0.6"
config = { version = "0.13", default-features = false, features = ["json", "json5"] }
env_logger = "0.10"
http = "0.2"
hyper = { version = "0.14", features = ["client", "http1", "server", "tcp"] }
log = "0.4"
once_cell = "1"
rand = "0.8"
semver = "1"
serde = { version = "1", features = ["derive"] }
serde_json = "1"
tokio = { version = "1", features = ["full"] }
url = "2"
