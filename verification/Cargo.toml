[package]
name = "jabroni"
version = "0.1.0"
edition = "2021"
publish = false

[dependencies]
rusqlite = { version = "*", features = ["bundled"] }
r2d2 = "*"
r2d2_sqlite = "*"
serde = { version = "*", features = ["derive"] }
serde_json = "*"
clap = { version = "*", features = ["derive", "env"] }
color-eyre = "*"
futures = "*"
thiserror = "*"
tokio = { version = "*", features = ["full"] }
tokio-stream = "*"
tokio-tungstenite = "*"
tower = { version = "*", features = ["limit", "util"] }
tracing = "*"
tracing-subscriber = { version = "*", features = ["env-filter"] }
