[package]
name = "lemoncuc"
version = "0.1.0"
edition = "2021"
publish = false

[dependencies]
serde_json = "1"
base64 = "0.22"
serde = { version = "1", features = ["derive"] }
axum = { version = "0.8", features = ["ws"] }
axum-openapi3 = "*"
tokio = { version = "1", features = ["full"] }
futures-util = "0.3"
reqwest = { version = "0.12", default-features = false, features = ["json"] }
tokio-tungstenite = "*"
tower-http = { version = "0.6", features = ["cors"] }
tracing = "0.1"
tracing-subscriber = "0.3"
