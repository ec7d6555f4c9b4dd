[package]
name = "mesh_jawn"
version = "0.1.0"
edition = "2021"
publish = false

[dependencies]
anyhow = "1"
async-nats = "*"
chrono = "0.4"
clap = { version = "4", features = ["derive"] }
futures = "0.3"
meshtastic = "*"
serde = { version = "1", features = ["derive"] }
serde_json = "1"
tokio = { version = "1", features = ["full"] }
tracing = "0.1"
tracing-subscriber = { version = "0.3", features = ["env-filter", "json"] }
ureq = { version = "3", features = ["json"] }
