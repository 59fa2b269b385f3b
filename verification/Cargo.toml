[package]
name = "filesearcherv5_web"
version = "0.1.0"
edition = "2021"
publish = false

[dependencies]
axum = "0.8"
tokio = { version = "1", features = ["full"] }
tokio-util = { version = "0.7", features = ["io"] }
futures-util = "0.3"
log = "0.4"
serde = { version = "1", features = ["derive"] }
toml = "0.8"
anyhow = "1"
