[package]
name = "universal_updater"
version = "0.1.0"
edition = "2021"
publish = false

[dependencies]
semver = "1"
url = { version = "2", features = ["serde"] }
time = { version = "0.3", features = ["parsing", "formatting"] }
serde = { version = "1", features = ["derive"] }
serde_json = "1"
http = "1"
futures-util = "0.3"
reqwest = { version = "0.12", default-features = false, features = ["json", "stream", "rustls-tls"] }
tauri = { version = "2", default-features = false }
