[package]
name = "devcontainer"
version = "0.1.0"
edition = "2021"
publish = false

[dependencies]
anyhow = "1"
bollard = "*"
clap = { version = "4", features = ["derive"] }
dirs = "*"
flate2 = "1"
futures = "0.3"
json5 = "*"
rust-crypto = "0.2"
serde = { version = "1", features = ["derive"] }
serde_yaml = "0.9"
tar = "0.4"
thiserror = "*"
tokio = { version = "1", features = ["full"] }
