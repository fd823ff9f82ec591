[package]
name = "ping-pong"
version = "0.1.0"
edition = "2021"
publish = false

[dependencies]
multiversx-sc = "0.53"
multiversx-sc-snippets = "0.53"
serde = { version = "1", features = ["derive"] }
toml = "0.8"
tokio = { version = "1", features = ["macros", "rt-multi-thread"] }
env_logger = "0.11"
