[package]
name = "lc1c_core"
version = "0.1.0"
edition = "2021"
publish = false

[dependencies]
anyhow = "1"
concordium-rust-sdk = "3"
dirs = "5"
futures = "0.3"
nix = { version = "0.27", features = ["signal"] }
regex = "1"
reqwest = "0.11"
serde = { version = "1", features = ["derive"] }
serde_json = "1"
tokio = { version = "1", features = ["full"] }
toml = "0.8"
