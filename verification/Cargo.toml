[package]
name = "balance_attestation"
version = "0.1.0"
edition = "2021"
publish = false

[dependencies]
ed25519-dalek = "=2.2.0"
sha2 = "=0.10.9"
hex = "=0.4.3"
borsh = { version = "=1.5.7", features = ["derive"] }
risc0-zkvm = { version = "=3.0.6", default-features = false, features = ["std", "client"] }
serde = { version = "=1.0.229", features = ["derive"] }
serde_json = "=1.0.154"
anyhow = "=1.0.104"
clap = { version = "=4.6.7", features = ["derive"] }
tokio = { version = "=1.54.1", features = ["macros", "rt-multi-thread", "time"] }
reqwest = { version = "=0.12.28", default-features = false, features = ["json"] }
base64 = "=0.22.1"
urlencoding = "=2.1.3"
bytemuck = "=1.25.2"
