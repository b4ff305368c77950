[package]
name = "txgen"
version = "0.1.0"
edition = "2021"
publish = false

[dependencies]
anyhow = "=1.0.104"
chrono = "=0.4.45"
clap = { version = "=4.6.7", features = ["derive"] }
concordium-rust-sdk = "=9.0.1"
futures = "=0.3.34"
rand = "=0.8.8"
serde_json = "=1.0.151"
tokio = { version = "=1.53.2", features = ["macros", "rt-multi-thread", "sync", "time"] }
tonic = { version = "=0.12.3", features = ["tls", "tls-roots"] }
