[package]
name = "lemmy_federation"
version = "0.1.0"
edition = "2021"
publish = false

[dependencies]
url = "=2.5.8"
chrono = { version = "0.4", features = ["serde"] }
moka = { version = "0.12", features = ["future"] }
tokio = { version = "1", features = ["rt", "sync", "time"] }
futures = "0.3"
tracing = "0.1"
anyhow = "1"
serde = { version = "1", features = ["derive"] }
serde_json = "1"
jsonwebtoken = "9"
log = "0.4"
async-trait = "0.1"
activitypub_federation = { version = "*", default-features = false }
