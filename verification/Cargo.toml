[package]
name = "motion_cam"
version = "0.1.0"
edition = "2021"
publish = false

[dependencies]
axum = "*"
bytes = "*"
chrono = "*"
futures-util = "*"
glob = "*"
rppal = "*"
serde = { version = "*", features = ["derive"] }
serde_json = "*"
tokio = { version = "*", features = ["full"] }
tokio-util = { version = "*", features = ["io"] }
tower-http = { version = "*", features = ["fs"] }
tower-sessions = "*"
