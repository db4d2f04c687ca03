[package]
name = "guild_keeper"
version = "0.1.0"
edition = "2021"
publish = false

[dependencies]
anyhow = "=1.0.104"
async-trait = "=0.1.92"
chrono = "=0.4.45"
poise = "=0.5.7"
serde = { version = "=1.0.229", features = ["derive"] }
serenity = { version = "=0.11.7", default-features = false, features = ["cache", "model", "utils"] }
shuttle-persist = "=0.27.0"
shuttle-poise = "=0.27.0"
shuttle-runtime = "=0.27.0"
shuttle-secrets = "=0.27.0"
tokio = "=1.54.1"

[dev-dependencies]
serde_json = "=1.0.154"
