[package]
name = "sacas"
version = "0.1.0"
edition = "2021"
publish = false

[dependencies]
anyhow = "=1.0.104"
base64 = "=0.21.7"
chrono = { version = "=0.4.45", default-features = false, features = ["clock", "serde"] }
dirs = "=5.0.1"
ed25519-dalek = "=2.2.0"
futures-util = { version = "=0.3.34", default-features = false }
rand = "=0.8.8"
reqwest = { version = "=0.11.27", default-features = false, features = ["json"] }
serde = { version = "=1.0.229", features = ["derive"] }
serde_json = "=1.0.151"
sha2 = "=0.10.9"
surge-ping = "=0.8.4"
tokio = { version = "=1.53.2", features = ["rt-multi-thread", "macros", "time", "sync"] }
tokio-tungstenite = "=0.21.0"
toml = "=0.8.23"
tracing = "=0.1.44"
tracing-subscriber = { version = "=0.3.23", features = ["env-filter"] }
urlencoding = "=2.1.3"
uuid = { version = "=1.27.0", features = ["v4"] }
