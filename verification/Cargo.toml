[package]
name = "heictojpg"
version = "0.1.0"
edition = "2021"
publish = false

[dependencies]
tokio = { version = "*", features = ["full"] }
axum = { version = "*", features = ["multipart"] }
tower = { version = "*", features = ["util", "timeout"] }
tower-http = { version = "*", features = ["full"] }
tracing = "*"
tracing-subscriber = { version = "*", features = ["env-filter"] }
serde = { version = "*", features = ["derive"] }
serde_json = "*"
thiserror = "*"
chrono = "*"
uuid = { version = "*", features = ["v4"] }
dotenvy = "*"
libheif-rs = "*"
turbojpeg = "*"
