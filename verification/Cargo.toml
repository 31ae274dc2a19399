[package]
name = "update-rs"
version = "0.3.0"
edition = "2021"
publish = false

[dependencies]
semver = "1"
sha2 = "0.10"
serde = { version = "1", features = ["derive"] }
serde_json = "1"
human-errors = "*"
async-trait = "0.1"
futures-util = "0.3"
tokio = { version = "1", features = ["fs", "time", "rt", "macros"] }
reqwest = { version = "0.12", default-features = false, features = ["json", "stream", "rustls-tls"] }
log = "0.4"
