[package]
name = "srvpru"
version = "0.1.0"
edition = "2021"
publish = false

[dependencies]
encoding_rs = "0.8"
lzma-rs = "0.2"
base64 = "0.13"
rand = "0.8"
chrono = { version = "0.4", default-features = false, features = ["clock"] }
tokio = { version = "1", features = ["full"] }
anyhow = "1"
log = "0.4"
pretty_env_logger = "0.4"
serde = { version = "1", features = ["derive"] }
serde_json = "1"
serde_yaml = "0.8"
toml = "0.5"
parking_lot = "0.12"
once_cell = "1"
urlencoding = "2"
reqwest = { version = "0.11", default-features = false, features = ["json"] }
