[package]
name = "token_info"
version = "0.1.0"
edition = "2021"
publish = false

[dependencies]
bs58 = "=0.5.1"
regex = "=1.13.1"
url = "=2.5.8"
solana-sdk = { version = "=2.3.1", default-features = false }
solana-rpc-client = { version = "2.3", default-features = false }
serde = { version = "=1.0.229", features = ["derive"] }
serde_json = "=1.0.154"
thiserror = "=1.0.69"
clap = { version = "=4.6.7", default-features = false, features = ["derive", "std", "help", "usage", "error-context"] }
tokio = { version = "=1.54.1", features = ["macros", "rt-multi-thread"] }
reqwest = { version = "=0.12.28", default-features = false, features = ["json"] }
trust-dns-resolver = { version = "=0.22.0", default-features = false, features = ["tokio-runtime"] }
