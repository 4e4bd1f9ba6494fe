[package]
name = "quantumtv"
version = "0.1.0"
edition = "2021"
publish = false

[dependencies]
regex = "1"
url = "2"
serde = { version = "1", features = ["derive"] }
serde_json = "1"
urlencoding = "2"
reqwest = { version = "0.12", default-features = false, features = ["json", "rustls-tls"] }
tokio = { version = "1", features = ["rt-multi-thread", "macros", "time", "sync"] }
rusqlite = { version = "0.32", features = ["bundled"] }
moka = { version = "0.12", features = ["future"] }
image = { version = "0.24", default-features = false, features = ["jpeg", "png", "webp"] }
scraper = "0.20"
uuid = { version = "1", features = ["v4"] }
log = "0.4"
env_logger = "0.11"
