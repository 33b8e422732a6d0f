[package]
name = "glimmr"
version = "0.1.0"
edition = "2021"
publish = false

[dependencies]
base64 = "0.22"
chromiumoxide = { version = "0.7", default-features = false, features = ["tokio-runtime"] }
clap = { version = "4", features = ["derive"] }
env_logger = "0.11"
font-kit = "*"
futures = "0.3"
ignore = "0.4"
log = "0.4"
rusttype = "0.9"
serde = { version = "1", features = ["derive"] }
serde_json = "1"
svg = "*"
tokio = { version = "1", features = ["rt", "time"] }
