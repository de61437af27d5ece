[package]
name = "quic_geyser_common"
version = "0.1.0"
edition = "2021"
publish = false

[dependencies]
bincode = "=1.3.3"
lz4 = "=1.28.1"
serde = { version = "=1.0.229", features = ["derive"] }
solana-sdk = "=1.18.26"
