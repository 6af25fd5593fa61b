[package]
name = "pullpiri"
version = "0.1.0"
edition = "2021"
publish = false

[dependencies]
tokio = { version = "1", features = ["full"] }
tokio-stream = { version = "0.1", features = ["sync"] }
serde = { version = "1", features = ["derive"] }
serde_json = "1"
serde_yaml = "0.9"
chrono = "0.4"
axum = "0.7"
tower-http = { version = "0.5", features = ["cors"] }
base64 = "0.22"
dbus = "0.9"
