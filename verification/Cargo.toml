[package]
name = "angry-hub"
version = "0.1.0"
edition = "2021"
publish = false

[dependencies]
serde = { version = "=1.0.229", features = ["derive"] }
serde_json = "=1.0.154"
dirs = "=7.0.0"
reqwest = { version = "=0.12.28", default-features = false, features = ["blocking", "json", "rustls-tls"] }
futures = "=0.3.34"
tempfile = "=3.27.0"
keyring-core = "=1.0.1"
apple-native-keyring-store = "=1.0.2"
self_update = { version = "=1.3.3", default-features = false, features = ["reqwest", "rustls", "github", "archive-zip", "compression-zip-deflate"] }
