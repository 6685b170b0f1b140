[package]
name = "sally_says_bot"
version = "0.1.0"
edition = "2021"
publish = false

[dependencies]
anyhow = "1"
log = "0.4"
pretty_env_logger = "0.5"
rand = "=0.8.8"
rand_chacha = "=0.3.1"
reqwest = "0.11"
serde_json = "1"
teloxide = { version = "=0.5.3", features = ["auto-send"] }
tokio = { version = "1", features = ["full"] }
tokio-stream = "0.1"
tokio-util = { version = "0.6", features = ["codec"] }
warp = "0.3"
