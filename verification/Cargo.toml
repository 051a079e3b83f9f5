[package]
name = "bb8_todos"
version = "0.1.0"
edition = "2021"
publish = false

[dependencies]
async-trait = "0.1"
axum = "0.7"
base64 = "0.22"
bb8 = "0.8"
bb8-postgres = "0.8"
borsh = "1"
dotenvy = "0.15"
ed25519-dalek = { version = "2", features = ["pkcs8", "pem"] }
futures = "0.3"
futures-util = "0.3"
mimalloc = "0.1"
num_cpus = "1"
serde = { version = "1", features = ["derive"] }
thiserror = "1"
tokio = { version = "1", features = ["full"] }
tokio-postgres = "0.7"
tracing = "0.1"
tracing-subscriber = "0.3"
