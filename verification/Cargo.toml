[package]
name = "apitally"
version = "0.1.0"
edition = "2021"
publish = false

[dependencies]
axum = "=0.7.9"
futures-util = "=0.3.34"
reqwest = { version = "=0.12.28", default-features = false, features = ["json"] }
serde = { version = "=1.0.229", features = ["derive"] }
serde_json = "=1.0.151"
tokio = { version = "=1.53.2", features = ["rt"] }
tower = "=0.4.13"
uuid = { version = "=1.27.0", features = ["serde", "v4"] }
