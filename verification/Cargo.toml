[package]
name = "scilla"
version = "0.1.0"
edition = "2021"
publish = false

[dependencies]
anyhow = "=1.0.104"
base64 = "=0.22.1"
bincode = "=1.3.3"
bs58 = "=0.5.1"
chrono = { version = "=0.4.45", default-features = false, features = ["std"] }
comfy-table = "7"
console = "=0.16.6"
indicatif = "=0.18.6"
inquire = "*"
serde = { version = "=1.0.229", features = ["derive"] }
solana-account = "=3.4.0"
solana-commitment-config = { version = "=3.1.1", features = ["serde"] }
solana-epoch-info = "=3.1.0"
solana-instruction = "=3.5.1"
solana-keypair = "=3.1.2"
solana-message = { version = "=3.1.0", features = ["bincode", "serde"] }
solana-nonce = { version = "=3.4.0", features = ["serde"] }
solana-pubkey = "=3.0.0"
solana-signature = "=3.6.0"
solana-stake-interface = { version = "=2.0.2", features = ["bincode"] }
solana-transaction = { version = "=3.1.0", features = ["bincode", "serde"] }
solana-vote-program = { version = "=3.1.14", default-features = false, features = ["agave-unstable-api"] }
tokio = { version = "=1.54.1", features = ["macros", "rt-multi-thread"] }
toml = "=1.1.8"
