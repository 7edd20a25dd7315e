[package]
name = "puxbay_sdk"
version = "1.0.0"
edition = "2021"
publish = false

[dependencies]
reqwest = { version = "0.12", features = ["json", "gzip"] }
serde = { version = "1", features = ["derive"] }
serde_json = "1"
thiserror = "1"
tokio = { version = "1", features = ["time"] }
