[package]
name = "agent_network"
version = "0.1.0"
edition = "2021"
publish = false

[dependencies]
solana-sdk = "2"
solana-ed25519-program = "2"
solana-commitment-config = "2"
ed25519-dalek = "2"
sha2 = "0.10"
borsh = { version = "1", features = ["derive"] }
base64 = "0.22"
serde = { version = "1", features = ["derive"] }
serde_json = "1"
serde_yaml = "0.9"
anyhow = "1"
num_cpus = "1"
tokio = { version = "1", features = ["full"] }
tokio-util = "0.7"
reqwest = { version = "0.12", default-features = false, features = ["multipart", "json"] }
bytes = "1"
