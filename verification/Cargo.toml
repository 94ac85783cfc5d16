[package]
name = "vtnet"
version = "0.1.0"
edition = "2021"
publish = false

[dependencies]
base64 = "=0.22.1"
ed25519-dalek = "=2.2.0"
uuid = { version = "=1.29.0", features = ["v4", "serde"] }
serde = { version = "=1.0.229", features = ["derive"] }
serde_json = "=1.0.154"
rusqlite = { version = "=0.32.1", features = ["bundled"] }
rand_core = { version = "=0.6.4", features = ["getrandom"] }
axum = { version = "=0.8.9", features = ["ws"] }
tokio = { version = "=1.54.1", features = ["full"] }
futures-util = "=0.3.34"
keyring = "=3.6.3"
