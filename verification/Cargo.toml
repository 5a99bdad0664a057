[package]
name = "gradething"
version = "0.1.0"
edition = "2021"
publish = false

[dependencies]
url = "=2.5.8"
oauth2 = "=4.4.2"
serde = { version = "=1.0.229", features = ["derive"] }
serde_json = "=1.0.154"
anyhow = "=1.0.104"
tokio = { version = "=1.54.1", features = ["rt-multi-thread", "macros", "sync"] }
reqwest = { version = "=0.11.27", default-features = false, features = ["rustls-tls"] }
rusqlite = { version = "=0.31.0", features = ["bundled"] }
tiny_http = "=0.12.0"
open = "=5.4.5"
image = { version = "=0.24.9", default-features = false, features = ["png", "jpeg"] }
