[package]
name = "serp_gateway"
version = "0.1.0"
edition = "2021"
publish = false

[dependencies]
axum = "0.6"
base64 = "0.21"
dotenv = "0.15"
reqwest = { version = "0.11", features = ["json"] }
serde = { version = "1", features = ["derive"] }
serde_json = "1"
tokio = { version = "1", features = ["full"] }
