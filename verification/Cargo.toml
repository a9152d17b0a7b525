[package]
name = "surfnet_runloops"
version = "0.1.0"
edition = "2021"
publish = false

[dependencies]
agave-geyser-plugin-interface = "=2.3.13"
crossbeam = "0.8"
crossbeam-channel = "0.5"
hiro-system-kit = { version = "=0.3.4", default-features = false }
ipc-channel = "0.19"
jsonrpc-core = "18"
jsonrpc-http-server = "18"
serde = { version = "1", features = ["derive"] }
serde_json = "1"
solana-message = "=2.4.0"
solana-transaction = { version = "=2.2.3", features = ["blake3", "bincode", "serde"] }
solana-transaction-status = "=2.3.13"
tokio = { version = "1", features = ["sync"] }
solana-hash = "=2.3.0"
solana-pubkey = "=2.4.0"
solana-signature = "=2.3.0"
solana-transaction-context = "=2.3.13"
solana-transaction-error = "=2.2.1"
uuid = { version = "1", features = ["serde"] }
