[package]
name = "ivygate"
version = "0.1.0"
edition = "2021"
publish = false

[dependencies]
anyhow = "1"
async-trait = "0.1"
clang = { version = "2", features = ["runtime"] }
derive_more = "0.99"
env_logger = "0.10"
lazy_static = "1"
log = "0.4"
serde = { version = "1", features = ["derive"] }
serde_json = "1"
tokio = { version = "1", features = ["full"] }
tungstenite = "0.20"
uuid = { version = "1", features = ["serde"] }
