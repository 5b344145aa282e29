[package]
name = "tss_core"
version = "0.1.0"
edition = "2021"
publish = false

[dependencies]
hex = "*"
serde = { version = "*", features = ["derive"] }
serde_json = "*"
tokio = { version = "*", features = ["full"] }
futures = "*"
lapin = "*"
anyhow = "*"
curv-kzen = "0.9"
multi-party-ecdsa = "0.8"
round-based = "0.1"
