[package]
name = "echo_markets"
version = "0.1.0"
edition = "2021"
publish = false

[dependencies]
charms-sdk = "*"
k256 = { version = "0.13", features = ["schnorr"] }
sha2 = "0.10"
bincode = "1"
serde = { version = "1", features = ["derive"] }
serde_bytes = "0.11"
