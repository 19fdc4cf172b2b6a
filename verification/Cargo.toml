[package]
name = "playnet"
version = "0.1.0"
edition = "2021"
publish = false

[dependencies]
bincode = "=1.3.3"
serde = { version = "1", features = ["derive"] }
serde_json = "1"
solana-bpf-loader-program = "=1.14.29"
solana-program = "=1.14.29"
solana-program-runtime = "=1.14.29"
solana-runtime = "=1.14.29"
solana-sdk = "=1.14.29"
