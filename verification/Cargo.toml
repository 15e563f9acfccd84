[package]
name = "clarity"
version = "0.1.0"
edition = "2021"
publish = false

[dependencies]
nostr = { version = "=0.45.5", features = ["std", "os-rng", "nip44", "nip59"] }
nostr-sdk = "=0.45.4"
serde_json = "=1.0.151"
serde = { version = "=1.0.229", features = ["derive"] }
toml = "=1.1.7"
tokio = { version = "=1.53.2", features = ["rt-multi-thread", "macros", "time", "sync"] }
