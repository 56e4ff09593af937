[package]
name = "verbalix"
version = "0.1.0"
edition = "2021"
publish = false

[dependencies]
uuid = { version = "1", features = ["v4"] }
base64 = "0.22"
serde = { version = "1", features = ["derive"] }
serde_json = "1"
reqwest = { version = "0.12", default-features = false, features = ["json", "stream", "rustls-tls"] }
tokio = { version = "1", features = ["rt", "sync", "time", "macros"] }
keyring = "3"
async-trait = "0.1"
futures-util = "0.3"

[dev-dependencies]
tempfile = "3"
