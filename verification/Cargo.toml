[package]
name = "promptml"
version = "0.1.0"
edition = "2021"
rust-version = "1.95"
publish = false

[dependencies]
base64 = "=0.23.1"
colored = "=3.1.1"
futures = "=0.3.34"
liquid = "=0.25.1"
reqwest = { version = "=0.13.5", default-features = false, features = ["stream"] }
serde = { version = "=1.0.229", features = ["derive"] }
serde_json = "=1.0.151"
tokio = { version = "=1.53.2", features = ["full"] }
