[package]
name = "mycelium"
version = "0.1.0"
edition = "2021"
publish = false

[dependencies]
serde = { version = "=1.0.229", features = ["derive"] }
serde_json = "=1.0.154"
sha2 = "=0.10.9"
hex = "=0.4.3"
chrono = "=0.4.45"
uuid = { version = "=1.29.0", features = ["v4", "v7"] }
tokio = { version = "=1.54.1", features = ["rt-multi-thread", "macros", "time", "sync", "signal", "net"] }
async-nats = "=0.51.0"
futures-util = "=0.3.34"
reqwest = { version = "0.12", default-features = false, features = ["json", "rustls-tls"] }
axum = "0.7"
toml = "0.8"
clap = { version = "4", features = ["derive", "env"] }
rustyline = "14"
dotenvy = "0.15"
anyhow = "1"
tracing = "0.1"
tracing-subscriber = { version = "0.3", features = ["env-filter"] }
