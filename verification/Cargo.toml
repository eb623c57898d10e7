[package]
name = "sysstats"
version = "0.1.0"
edition = "2021"
publish = false

[dependencies]
sysinfo = "0.30"
axum = "*"
tokio = { version = "*", features = ["rt-multi-thread", "macros", "net"] }
tower-http = { version = "*", features = ["cors"] }
serde = { version = "*", features = ["derive"] }
serde_json = "*"
