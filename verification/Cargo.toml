[package]
name = "voice_gateway"
version = "0.1.0"
edition = "2021"
publish = false

[dependencies]
jsonwebtoken = "9"
chrono = "0.4"
axum = { version = "*", features = ["ws"] }
tokio = { version = "1", features = ["full"] }
tokio-tungstenite = "*"
futures-util = "*"
tower-http = { version = "*", features = ["cors"] }
serde = { version = "1", features = ["derive"] }
serde_json = "1"
dotenvy = "*"
toml = "*"
url = "*"
rand = "0.8"
