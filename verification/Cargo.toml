[package]
name = "dln-e2e-harness"
version = "0.1.0"
edition = "2021"
publish = false

[dependencies]
anyhow = "1"
hex = "0.4"
lightning-invoice = "*"
nostr-sdk = { version = "*", features = ["nip04", "nip47"] }
nwc = "*"
reqwest = { version = "0.12", default-features = false, features = ["json"] }
serde = { version = "1", features = ["derive"] }
serde_json = "1"
sha2 = "0.10"
testcontainers = { version = "*", default-features = false }
tokio = { version = "1", features = ["full"] }
toml = "0.8"
tonic = { version = "*" }
tracing = "0.1"
tracing-subscriber = { version = "0.3", features = ["env-filter"] }
