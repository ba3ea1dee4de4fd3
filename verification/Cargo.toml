[package]
name = "solana_relay"
version = "0.1.0"
edition = "2021"
publish = false

[dependencies]
actix-cors = "0.7"
actix-web = { version = "4", default-features = false, features = ["macros"] }
reqwest = { version = "0.12", default-features = false, features = ["json", "rustls-tls"] }
serde_json = "1"
solana-sdk = { version = "=2.3.1", default-features = false }
tokio = { version = "1", features = ["macros", "rt-multi-thread"] }
