[package]
name = "kbart_harvester"
version = "0.1.0"
edition = "2021"
publish = false

[dependencies]
url = "*"
clap = { version = "*", features = ["derive"] }
env_logger = "*"
futures = "*"
log = "*"
reqwest = { version = "*", default-features = false }
tokio = { version = "*", features = ["full"] }
tokio-stream = { version = "*", features = ["io-util"] }
