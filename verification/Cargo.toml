[package]
name = "sea_lantern"
version = "0.1.0"
edition = "2021"
publish = false

[dependencies]
regex = "*"
tokio = { version = "*", features = ["full"] }
serde = { version = "*", features = ["derive"] }
rust-ini = "*"
log = "*"
pretty_env_logger = "*"
