[package]
name = "linux_settings"
version = "0.1.0"
edition = "2021"
publish = false

[dependencies]
axum = "0.6"
gio = "0.18"
serde = { version = "1", features = ["derive"] }
serde_json = "1"
tokio = { version = "1", features = ["full"] }
tower = { version = "0.4", features = ["util"] }
tower-http = { version = "0.4", features = ["fs"] }
